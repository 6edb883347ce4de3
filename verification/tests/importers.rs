use vinylify::discogs::{DiscogsAction, DiscogsImport};
use vinylify::model::Track;
use vinylify::youtube::{
    output_template, video_query, video_url, Item, Snippet, VideoId, YoutubeAction, YoutubeImport,
};

fn track(artist: &str, title: &str) -> Track {
    Track { artist: artist.to_owned(), title: title.to_owned() }
}

fn item(video_id: &str, title: &str) -> Item {
    Item {
        id: VideoId { video_id: video_id.to_owned() },
        snippet: Snippet { title: title.to_owned() },
    }
}

#[test]
fn discogs_success_and_skip() {
    // folder created, first track matches and is added, second has no match
    let tracks = vec![
        track("Daft Punk", "One More Time"),
        track("Unknown Artist With No Match", "XYZ123"),
    ];
    let mut m = DiscogsImport::new(tracks, "Road Trip".to_owned());
    assert_eq!(m.pending_action(), Some(DiscogsAction::CreateFolder));
    assert_eq!(m.folder_name().as_str(), "Road Trip");

    m.on_folder_result(Some(42));
    assert_eq!(m.pending_action(), Some(DiscogsAction::SearchTrack { idx: 0 }));
    assert_eq!(m.current_track().artist, "Daft Punk");

    m.on_search_result(Some(vec![101, 102]));
    assert_eq!(
        m.pending_action(),
        Some(DiscogsAction::AddRelease { folder_id: 42, release_id: 101 })
    );

    m.on_add_result(true);
    assert_eq!(m.pending_action(), Some(DiscogsAction::SearchTrack { idx: 1 }));
    assert_eq!(m.current_track().title, "XYZ123");

    m.on_search_result(Some(vec![]));
    assert!(m.is_finished());
    assert_eq!(m.pending_action(), None);

    let s = m.summary();
    assert_eq!(s.successes, 1);
    assert_eq!(s.skips, 1);
    assert!(!s.hard_failed);
}

#[test]
fn discogs_folder_failure_is_hard_stop() {
    let tracks = vec![track("Daft Punk", "One More Time"), track("Air", "La Femme d'Argent")];
    let mut m = DiscogsImport::new(tracks, "Chill".to_owned());
    m.on_folder_result(None);
    assert!(m.is_finished());
    // no per-track call is offered after the hard stop
    assert_eq!(m.pending_action(), None);
    let s = m.summary();
    assert!(s.hard_failed);
    assert_eq!(s.successes, 0);
    assert_eq!(s.skips, 0);
}

#[test]
fn discogs_failed_search_request_continues() {
    let tracks = vec![track("a", "b"), track("c", "d")];
    let mut m = DiscogsImport::new(tracks, "p".to_owned());
    m.on_folder_result(Some(7));
    // the request itself failed: skip, and move to the next track
    m.on_search_result(None);
    assert_eq!(m.pending_action(), Some(DiscogsAction::SearchTrack { idx: 1 }));
    m.on_search_result(Some(vec![9]));
    m.on_add_result(false);
    assert!(m.is_finished());
    let s = m.summary();
    assert_eq!(s.successes, 0);
    assert_eq!(s.skips, 2);
    assert!(!s.hard_failed);
}

#[test]
fn discogs_rejected_add_continues() {
    let tracks = vec![track("a", "b"), track("c", "d")];
    let mut m = DiscogsImport::new(tracks, "p".to_owned());
    m.on_folder_result(Some(7));
    m.on_search_result(Some(vec![11]));
    m.on_add_result(false);
    assert_eq!(m.pending_action(), Some(DiscogsAction::SearchTrack { idx: 1 }));
    m.on_search_result(Some(vec![12]));
    m.on_add_result(true);
    let s = m.summary();
    assert_eq!(s.successes, 1);
    assert_eq!(s.skips, 1);
    assert!(!s.hard_failed);
}

#[test]
fn discogs_empty_track_list() {
    let mut m = DiscogsImport::new(Vec::new(), "p".to_owned());
    m.on_folder_result(Some(1));
    assert!(m.is_finished());
    let s = m.summary();
    assert_eq!(s.successes, 0);
    assert_eq!(s.skips, 0);
    assert!(!s.hard_failed);
}

#[test]
fn youtube_success_and_skip() {
    let tracks = vec![track("Daft Punk", "One More Time"), track("Nobody", "Nothing")];
    let mut m = YoutubeImport::new(tracks, "Road Trip".to_owned());
    assert_eq!(m.pending_action(), Some(YoutubeAction::CreateDir));
    assert_eq!(m.dir_name().as_str(), "Road Trip");

    m.on_dir_result(true);
    assert_eq!(m.pending_action(), Some(YoutubeAction::SearchVideo { idx: 0 }));

    m.on_search_result(Some(vec![item("abc123", "One More Time (Official)"), item("zzz", "other")]));
    assert_eq!(m.pending_action(), Some(YoutubeAction::DownloadAudio));
    assert_eq!(m.pending_video().id.video_id, "abc123");

    m.on_download_result(true);
    assert_eq!(m.pending_action(), Some(YoutubeAction::SearchVideo { idx: 1 }));

    m.on_search_result(Some(vec![]));
    assert!(m.is_finished());
    let s = m.summary();
    assert_eq!(s.successes, 1);
    assert_eq!(s.skips, 1);
    assert!(!s.hard_failed);
}

#[test]
fn youtube_dir_failure_is_hard_stop() {
    let tracks = vec![track("a", "b")];
    let mut m = YoutubeImport::new(tracks, "p".to_owned());
    m.on_dir_result(false);
    assert!(m.is_finished());
    // no per-track call is offered after the hard stop
    assert_eq!(m.pending_action(), None);
    let s = m.summary();
    assert!(s.hard_failed);
    assert_eq!(s.successes, 0);
    assert_eq!(s.skips, 0);
}

#[test]
fn youtube_failed_download_continues() {
    let tracks = vec![track("a", "b"), track("c", "d")];
    let mut m = YoutubeImport::new(tracks, "p".to_owned());
    m.on_dir_result(true);
    m.on_search_result(Some(vec![item("v1", "t1")]));
    m.on_download_result(false);
    assert_eq!(m.pending_action(), Some(YoutubeAction::SearchVideo { idx: 1 }));
    m.on_search_result(None);
    assert!(m.is_finished());
    let s = m.summary();
    assert_eq!(s.successes, 0);
    assert_eq!(s.skips, 2);
}

#[test]
fn youtube_string_builders() {
    let t = track("Daft Punk", "One More Time");
    assert_eq!(video_query(&t), "Daft Punk One More Time");
    let id = VideoId { video_id: "abc123".to_owned() };
    assert_eq!(video_url(&id), "https://www.youtube.com/watch?v=abc123");
    assert_eq!(output_template("Road Trip"), "Road Trip/%(title)s.%(ext)s");
}
