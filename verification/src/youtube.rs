//! The audio importer: finds a best-match video for each track of the list
//! and has the caller run an external audio-extraction tool on it.
//!
//! The run is a state machine, driven like the catalog importer: the caller
//! performs the one outside call [`YoutubeImport::pending_action`] names —
//! create the playlist directory, search the video platform, extract the
//! audio — and reports the outcome back. Directory creation is the only hard
//! stop and forecloses all per-track calls; a failed search, an empty result
//! and a non-zero tool exit each skip exactly one track and never block the
//! next.

use crate::model::{
    count_resolvable, filtered_tracks, lemma_track_filtering, ImportSummary, RawItemModel, Track,
};
use vstd::prelude::*;
use vstd::pervasive::unreached;
use vstd::string::StringExecFns;

verus! {

/// What a search of the video platform returns: its result items, in the
/// platform's ranking order.
pub struct YoutubeSearchResponse {
    pub items: Vec<Item>,
}

/// One search result: the video's identifier and its snippet.
pub struct Item {
    pub id: VideoId,
    pub snippet: Snippet,
}

/// The identifier a search result carries for its video.
pub struct VideoId {
    pub video_id: String,
}

/// The descriptive part of a search result; only the title is used.
pub struct Snippet {
    pub title: String,
}

/// The spec-level value of an [`Item`]: the video's identifier and title.
pub struct ItemModel {
    pub video_id: Seq<char>,
    pub title: Seq<char>,
}

impl View for Item {
    type V = ItemModel;

    open spec fn view(&self) -> ItemModel {
        ItemModel { video_id: self.id.video_id@, title: self.snippet.title@ }
    }
}

impl DeepView for Item {
    type V = ItemModel;

    open spec fn deep_view(&self) -> ItemModel {
        self@
    }
}

impl View for YoutubeSearchResponse {
    type V = Seq<ItemModel>;

    open spec fn view(&self) -> Seq<ItemModel> {
        self.items.deep_view()
    }
}

/// The search query for a track: artist and title joined by one space.
pub fn video_query(t: &Track) -> (r: String)
    ensures
        r@ == t@.artist + " "@ + t@.title,
{
    let mut s = t.artist.clone();
    s.append(" ");
    s.append(t.title.as_str());
    s
}

/// The canonical watch URL of a video.
pub fn video_url(id: &VideoId) -> (r: String)
    ensures
        r@ == "https://www.youtube.com/watch?v="@ + id.video_id@,
{
    let mut s = "https://www.youtube.com/watch?v=".to_owned();
    s.append(id.video_id.as_str());
    s
}

/// The output template handed to the extraction tool: the playlist
/// directory followed by the tool's title and extension placeholders.
pub fn output_template(dir: &str) -> (r: String)
    ensures
        r@ == dir@ + "/%(title)s.%(ext)s"@,
{
    let mut s = dir.to_owned();
    s.append("/%(title)s.%(ext)s");
    s
}

/// The outside call an audio-import run is waiting on.
#[derive(Clone, Copy, PartialEq, Eq, Structural, Debug)]
pub enum YoutubeAction {
    /// Create the destination directory, named after the playlist.
    CreateDir,
    /// Search the video platform for the track at this position.
    SearchVideo { idx: usize },
    /// Run the extraction tool on the found video.
    DownloadAudio,
}

/// Where an audio-import run stands.
pub enum YoutubePhase {
    /// Waiting for the directory-creation outcome.
    AwaitDir,
    /// Waiting for the search outcome of the current track.
    AwaitSearch,
    /// Waiting for the extraction tool's exit on this video.
    AwaitDownload { video: Item },
    /// The run is over; no further call is made.
    Finished,
}

/// One audio-import run over a fixed track list.
pub struct YoutubeImport {
    /// The tracks to import, in playlist order; never mutated.
    pub tracks: Vec<Track>,
    /// The playlist's display name; the destination directory is named
    /// after it.
    pub playlist_name: String,
    /// Where the run stands.
    pub phase: YoutubePhase,
    /// How many tracks are fully resolved (counted as success or skip).
    pub idx: usize,
    /// Tracks whose audio the tool extracted.
    pub successes: usize,
    /// Tracks skipped: search failed, no result, or the tool exited
    /// non-zero.
    pub skips: usize,
    /// Whether directory creation failed, ending the run at once.
    pub hard_failed: bool,
}

impl YoutubeImport {
    /// Every state a run reaches satisfies this: each resolved track is
    /// counted exactly once, per-track phases stay within the list, and a
    /// finished run either covered every track or hard-stopped before any.
    pub open spec fn wf(self) -> bool {
        &&& self.successes + self.skips == self.idx
        &&& match self.phase {
            YoutubePhase::AwaitDir => self.idx == 0 && !self.hard_failed,
            YoutubePhase::AwaitSearch => self.idx < self.tracks@.len() && !self.hard_failed,
            YoutubePhase::AwaitDownload { .. } => self.idx < self.tracks@.len()
                && !self.hard_failed,
            YoutubePhase::Finished => if self.hard_failed {
                self.idx == 0
            } else {
                self.idx == self.tracks@.len()
            },
        }
    }

    /// The only outside call the run permits in its current state; `None`
    /// once finished — a finished run issues no further calls.
    pub open spec fn action_spec(self) -> Option<YoutubeAction> {
        match self.phase {
            YoutubePhase::AwaitDir => Some(YoutubeAction::CreateDir),
            YoutubePhase::AwaitSearch => Some(YoutubeAction::SearchVideo { idx: self.idx }),
            YoutubePhase::AwaitDownload { .. } => Some(YoutubeAction::DownloadAudio),
            YoutubePhase::Finished => None,
        }
    }

    /// Starts a run for `tracks`, saving into a directory named after the
    /// playlist. The first and only permitted call is the directory
    /// creation.
    pub fn new(tracks: Vec<Track>, playlist_name: String) -> (s: Self)
        ensures
            s.wf(),
            s.tracks == tracks,
            s.playlist_name == playlist_name,
            s.phase is AwaitDir,
            s.idx == 0 && s.successes == 0 && s.skips == 0 && !s.hard_failed,
            s.action_spec() == Some(YoutubeAction::CreateDir),
    {
        YoutubeImport {
            tracks,
            playlist_name,
            phase: YoutubePhase::AwaitDir,
            idx: 0,
            successes: 0,
            skips: 0,
            hard_failed: false,
        }
    }

    /// The outside call to perform next, or `None` once the run is over.
    pub fn pending_action(&self) -> (a: Option<YoutubeAction>)
        ensures
            a == self.action_spec(),
    {
        match &self.phase {
            YoutubePhase::AwaitDir => Some(YoutubeAction::CreateDir),
            YoutubePhase::AwaitSearch => Some(YoutubeAction::SearchVideo { idx: self.idx }),
            YoutubePhase::AwaitDownload { .. } => Some(YoutubeAction::DownloadAudio),
            YoutubePhase::Finished => None,
        }
    }

    /// The name of the destination directory.
    pub fn dir_name(&self) -> (r: &String)
        ensures
            r == self.playlist_name,
    {
        &self.playlist_name
    }

    /// The track the pending search refers to.
    pub fn current_track(&self) -> (t: &Track)
        requires
            self.wf(),
            self.phase is AwaitSearch || self.phase is AwaitDownload,
        ensures
            t == self.tracks@[self.idx as int],
    {
        &self.tracks[self.idx]
    }

    /// The video the pending extraction refers to.
    pub fn pending_video(&self) -> (v: &Item)
        requires
            self.phase is AwaitDownload,
        ensures
            v == self.phase->video,
    {
        match &self.phase {
            YoutubePhase::AwaitDownload { video } => video,
            _ => unreached(),
        }
    }

    /// Whether the run is over.
    pub fn is_finished(&self) -> (b: bool)
        ensures
            b == self.phase is Finished,
    {
        match &self.phase {
            YoutubePhase::Finished => true,
            _ => false,
        }
    }

    /// What the run reports back once finished.
    pub fn summary(&self) -> (s: ImportSummary)
        ensures
            s == (ImportSummary {
                successes: self.successes,
                skips: self.skips,
                hard_failed: self.hard_failed,
            }),
    {
        ImportSummary {
            successes: self.successes,
            skips: self.skips,
            hard_failed: self.hard_failed,
        }
    }

    /// Outcome of creating the destination directory. A failure is the hard
    /// stop: the run finishes at once, with zero tracks touched, and no
    /// per-track search or download call is ever permitted afterwards.
    pub fn on_dir_result(&mut self, ok: bool)
        requires
            old(self).wf(),
            old(self).phase is AwaitDir,
        ensures
            final(self).wf(),
            final(self).tracks == old(self).tracks,
            final(self).playlist_name == old(self).playlist_name,
            final(self).idx == 0 && final(self).successes == 0 && final(self).skips == 0,
            ok ==> !final(self).hard_failed,
            ok && old(self).tracks@.len() > 0 ==> final(self).phase is AwaitSearch
                && final(self).action_spec() == Some(YoutubeAction::SearchVideo { idx: 0 }),
            ok && old(self).tracks@.len() == 0 ==> final(self).phase is Finished,
            !ok ==> final(self).hard_failed && final(self).phase is Finished
                && final(self).action_spec() is None,
    {
        if ok {
            if self.tracks.len() > 0 {
                self.phase = YoutubePhase::AwaitSearch;
            } else {
                self.phase = YoutubePhase::Finished;
            }
        } else {
            self.hard_failed = true;
            self.phase = YoutubePhase::Finished;
        }
    }

    /// Outcome of the per-track search: the platform's result items, in its
    /// ranking order, or `None` if the request itself failed. The first
    /// item of the ranking is authoritative and becomes the pending
    /// extraction. A failed request or an empty result list skips exactly
    /// this track — the run keeps its place, never fails, and the next
    /// permitted call is the search for the following track.
    pub fn on_search_result(&mut self, results: Option<Vec<Item>>)
        requires
            old(self).wf(),
            old(self).phase is AwaitSearch,
        ensures
            final(self).wf(),
            final(self).tracks == old(self).tracks,
            final(self).playlist_name == old(self).playlist_name,
            !final(self).hard_failed,
            results is Some && results->Some_0@.len() > 0 ==> final(self).phase == (
            YoutubePhase::AwaitDownload { video: results->Some_0@[0] }) && final(self).idx == old(
                self,
            ).idx && final(self).successes == old(self).successes && final(self).skips == old(
                self,
            ).skips && final(self).action_spec() == Some(YoutubeAction::DownloadAudio),
            (results is None || results->Some_0@.len() == 0) ==> final(self).skips == old(
                self,
            ).skips + 1 && final(self).successes == old(self).successes && final(self).idx == old(
                self,
            ).idx + 1 && (if old(self).idx + 1 < old(self).tracks@.len() {
                final(self).phase is AwaitSearch && final(self).action_spec() == Some(
                    YoutubeAction::SearchVideo { idx: (old(self).idx + 1) as usize },
                )
            } else {
                final(self).phase is Finished
            }),
    {
        let found: Option<Item> = match results {
            Some(mut v) => {
                if v.len() > 0 {
                    Some(v.remove(0))
                } else {
                    None
                }
            },
            None => None,
        };
        match found {
            Some(video) => {
                self.phase = YoutubePhase::AwaitDownload { video };
            },
            None => {
                let n = self.tracks.len();
                assert(self.idx < n && self.skips <= self.idx);
                self.skips = self.skips + 1;
                self.idx = self.idx + 1;
                if self.idx < self.tracks.len() {
                    self.phase = YoutubePhase::AwaitSearch;
                } else {
                    self.phase = YoutubePhase::Finished;
                }
            },
        }
    }

    /// Outcome of the extraction tool's run: `true` for a zero exit,
    /// `false` for any other, which counts as a skip. Either way the run
    /// moves on: the next permitted call is the search for the following
    /// track, and a failed extraction never ends the run.
    pub fn on_download_result(&mut self, ok: bool)
        requires
            old(self).wf(),
            old(self).phase is AwaitDownload,
        ensures
            final(self).wf(),
            final(self).tracks == old(self).tracks,
            final(self).playlist_name == old(self).playlist_name,
            !final(self).hard_failed,
            final(self).idx == old(self).idx + 1,
            ok ==> final(self).successes == old(self).successes + 1 && final(self).skips == old(
                self,
            ).skips,
            !ok ==> final(self).skips == old(self).skips + 1 && final(self).successes == old(
                self,
            ).successes,
            if old(self).idx + 1 < old(self).tracks@.len() {
                final(self).phase is AwaitSearch && final(self).action_spec() == Some(
                    YoutubeAction::SearchVideo { idx: (old(self).idx + 1) as usize },
                )
            } else {
                final(self).phase is Finished
            },
    {
        let n = self.tracks.len();
        assert(self.idx < n && self.successes <= self.idx && self.skips <= self.idx);
        if ok {
            self.successes = self.successes + 1;
        } else {
            self.skips = self.skips + 1;
        }
        self.idx = self.idx + 1;
        if self.idx < self.tracks.len() {
            self.phase = YoutubePhase::AwaitSearch;
        } else {
            self.phase = YoutubePhase::Finished;
        }
    }
}

/// A finished run permits no call at all — in particular, after the
/// directory-creation hard stop every per-track search and download is
/// foreclosed.
pub proof fn lemma_finished_run_is_silent(s: YoutubeImport)
    requires
        s.phase is Finished,
    ensures
        s.action_spec() is None,
{
}

/// A hard-stopped run never touched a track: no success, no skip, and no
/// pending call.
pub proof fn lemma_hard_stop_touched_no_track(s: YoutubeImport)
    requires
        s.wf(),
        s.hard_failed,
    ensures
        s.phase is Finished,
        s.successes == 0 && s.skips == 0,
        s.action_spec() is None,
{
}

/// A run that finished without a hard stop resolved every track of its list
/// exactly once, as a success or a skip: per-track failures are absorbed and
/// the overall result is success-with-skips.
pub proof fn lemma_completed_run_covers_all_tracks(s: YoutubeImport)
    requires
        s.wf(),
        s.phase is Finished,
        !s.hard_failed,
    ensures
        s.successes + s.skips == s.tracks@.len(),
{
}

/// For any playlist items, a run over the track list built from them that
/// finished without a hard stop made exactly one per-track resolution for
/// each item with a resolvable primary artist — items without one were
/// excluded before the importer saw the list.
pub proof fn lemma_importer_invocations(items: Seq<RawItemModel>, s: YoutubeImport)
    requires
        s.wf(),
        s.phase is Finished,
        !s.hard_failed,
        s.tracks.deep_view() == filtered_tracks(items),
    ensures
        s.successes + s.skips == count_resolvable(items),
{
    lemma_track_filtering(items);
}

} // verus!
