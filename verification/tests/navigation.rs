use vinylify::model::{build_track_list, preview_line, preview_lines, Playlist, RawItem, RawTrack, Track};
use vinylify::navigator::{ImportTarget, NavAction, Navigator, Outcome};

fn playlist(id: &str, name: &str) -> Playlist {
    Playlist { id: id.to_owned(), name: name.to_owned() }
}

fn raw(artists: &[&str], title: &str) -> RawItem {
    RawItem {
        playable: Some(RawTrack {
            title: title.to_owned(),
            artists: artists.iter().map(|a| (*a).to_owned()).collect(),
        }),
    }
}

#[test]
fn track_list_drops_unresolvable_items() {
    let items = vec![
        raw(&["Daft Punk", "Romanthony"], "One More Time"),
        RawItem { playable: None },
        raw(&[], "No Artist Here"),
        raw(&["Air"], "La Femme d'Argent"),
    ];
    let tracks = build_track_list(&items);
    assert_eq!(tracks.len(), 2);
    assert_eq!(tracks[0].artist, "Daft Punk");
    assert_eq!(tracks[0].title, "One More Time");
    assert_eq!(tracks[1].artist, "Air");
    assert_eq!(tracks[1].title, "La Femme d'Argent");
}

#[test]
fn track_list_of_nothing_resolvable_is_empty() {
    let items = vec![RawItem { playable: None }, raw(&[], "x")];
    assert!(build_track_list(&items).is_empty());
}

#[test]
fn preview_shows_title_then_artist() {
    let t = Track { artist: "Daft Punk".to_owned(), title: "One More Time".to_owned() };
    assert_eq!(preview_line(&t), "One More Time - Daft Punk");
    let lines = preview_lines(&vec![
        t,
        Track { artist: "Air".to_owned(), title: "La Femme d'Argent".to_owned() },
    ]);
    assert_eq!(lines, vec!["One More Time - Daft Punk", "La Femme d'Argent - Air"]);
}

#[test]
fn cancel_at_playlist_menu_is_silent_empty_outcome() {
    let nav = Navigator::new();
    assert_eq!(nav.pending_action(), Some(NavAction::FetchPlaylists));
    let nav = nav.on_playlists_fetched(vec![playlist("pl-road", "Road Trip"), playlist("pl-chill", "Chill")]);
    assert_eq!(nav.pending_action(), Some(NavAction::PromptPlaylist));
    let nav = nav.on_playlist_choice(None);
    // cancelled: no further step, and an empty, non-error outcome
    assert_eq!(nav.pending_action(), None);
    assert_eq!(nav.outcome(), Some(Outcome::Empty));
}

#[test]
fn cancel_at_target_menu_is_silent_empty_outcome() {
    let nav = Navigator::new()
        .on_playlists_fetched(vec![playlist("pl-road", "Road Trip")])
        .on_playlist_choice(Some(0))
        .on_tracks_fetched(&vec![raw(&["Daft Punk"], "One More Time")]);
    assert_eq!(nav.pending_action(), Some(NavAction::PromptTarget));
    let nav = nav.on_target_choice(None);
    assert_eq!(nav.pending_action(), None);
    assert_eq!(nav.outcome(), Some(Outcome::Empty));
}

#[test]
fn go_back_refetches_playlists() {
    let nav = Navigator::new();
    let nav = nav.on_playlists_fetched(vec![playlist("pl-road", "Road Trip"), playlist("pl-chill", "Chill")]);
    let names = nav.playlist_names();
    assert_eq!(names, vec!["Road Trip", "Chill"]);
    let nav = nav.on_playlist_choice(Some(0));
    assert_eq!(nav.pending_action(), Some(NavAction::FetchTracks));
    assert_eq!(nav.playlist_id().as_str(), "pl-road");
    let nav = nav.on_tracks_fetched(&vec![raw(&["Daft Punk"], "One More Time")]);
    // the user goes back: the playlist menu must be re-presented from a
    // fresh fetch, not from the earlier in-memory page
    let nav = nav.on_target_choice(Some(2));
    assert_eq!(nav.pending_action(), Some(NavAction::FetchPlaylists));
    assert_eq!(nav.outcome(), None);
    // the session accepts a freshly fetched page again
    let nav = nav.on_playlists_fetched(vec![playlist("pl-new", "New List")]);
    assert_eq!(nav.playlist_names(), vec!["New List"]);
}

#[test]
fn full_flow_dispatches_to_catalog_importer() {
    let nav = Navigator::new()
        .on_playlists_fetched(vec![playlist("pl-road", "Road Trip")])
        .on_playlist_choice(Some(0))
        .on_tracks_fetched(&vec![
            raw(&["Daft Punk"], "One More Time"),
            RawItem { playable: None },
        ]);
    assert_eq!(preview_lines(nav.pending_tracks()), vec!["One More Time - Daft Punk"]);
    let nav = nav.on_target_choice(Some(0));
    assert_eq!(
        nav.pending_action(),
        Some(NavAction::StartImport { target: ImportTarget::Discogs })
    );
    let (target, tracks, name, nav) = nav.begin_import();
    assert_eq!(target, ImportTarget::Discogs);
    assert_eq!(tracks.len(), 1);
    assert_eq!(name, "Road Trip");
    assert_eq!(nav.pending_action(), None);
    assert_eq!(nav.outcome(), Some(Outcome::Imported { target: ImportTarget::Discogs }));
}

#[test]
fn full_flow_dispatches_to_video_importer() {
    let nav = Navigator::new()
        .on_playlists_fetched(vec![playlist("pl-chill", "Chill")])
        .on_playlist_choice(Some(0))
        .on_tracks_fetched(&vec![raw(&["Air"], "La Femme d'Argent")])
        .on_target_choice(Some(1));
    let (target, tracks, name, _nav) = nav.begin_import();
    assert_eq!(target, ImportTarget::Youtube);
    assert_eq!(tracks.len(), 1);
    assert_eq!(name, "Chill");
}
