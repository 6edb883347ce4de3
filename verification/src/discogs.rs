//! The catalog importer: re-creates a track list inside a newly created
//! collection folder of the record marketplace.
//!
//! The run is a state machine. The caller performs the one outside call that
//! [`DiscogsImport::pending_action`] names — create the folder, search a
//! track, add a found release — and reports the outcome back through the
//! matching `on_*` method. The contracts pin every transition down: folder
//! creation is the only hard stop and forecloses all per-track calls, while
//! a failed search, an empty result list or a rejected add skips exactly one
//! track and never blocks the next.

use crate::model::{
    count_resolvable, filtered_tracks, lemma_track_filtering, ImportSummary, RawItemModel, Track,
};
use vstd::prelude::*;

verus! {

/// The outside call a catalog-import run is waiting on.
#[derive(Clone, Copy, PartialEq, Eq, Structural, Debug)]
pub enum DiscogsAction {
    /// Create the collection folder, named after the playlist.
    CreateFolder,
    /// Search the marketplace for the track at this position of the list.
    SearchTrack { idx: usize },
    /// Add the found release to the created folder.
    AddRelease { folder_id: i64, release_id: i64 },
}

/// Where a catalog-import run stands.
pub enum DiscogsPhase {
    /// Waiting for the folder-creation outcome.
    AwaitFolder,
    /// Waiting for the search outcome of the current track.
    AwaitSearch,
    /// Waiting for the outcome of adding this release to the folder.
    AwaitAdd { release_id: i64 },
    /// The run is over; no further call is made.
    Finished,
}

/// One catalog-import run over a fixed track list.
pub struct DiscogsImport {
    /// The tracks to import, in playlist order; never mutated.
    pub tracks: Vec<Track>,
    /// The playlist's display name; the folder is created under it.
    pub playlist_name: String,
    /// Where the run stands.
    pub phase: DiscogsPhase,
    /// The created folder's id; meaningful once the folder exists.
    pub folder_id: i64,
    /// How many tracks are fully resolved (counted as success or skip).
    pub idx: usize,
    /// Tracks whose release was added to the folder.
    pub successes: usize,
    /// Tracks skipped: search failed, no result, or the add was rejected.
    pub skips: usize,
    /// Whether folder creation was rejected, ending the run at once.
    pub hard_failed: bool,
}

impl DiscogsImport {
    /// Every state a run reaches satisfies this: each resolved track is
    /// counted exactly once, per-track phases stay within the list, and a
    /// finished run either covered every track or hard-stopped before any.
    pub open spec fn wf(self) -> bool {
        &&& self.successes + self.skips == self.idx
        &&& match self.phase {
            DiscogsPhase::AwaitFolder => self.idx == 0 && !self.hard_failed,
            DiscogsPhase::AwaitSearch => self.idx < self.tracks@.len() && !self.hard_failed,
            DiscogsPhase::AwaitAdd { .. } => self.idx < self.tracks@.len() && !self.hard_failed,
            DiscogsPhase::Finished => if self.hard_failed {
                self.idx == 0
            } else {
                self.idx == self.tracks@.len()
            },
        }
    }

    /// The only outside call the run permits in its current state; `None`
    /// once finished — a finished run issues no further calls.
    pub open spec fn action_spec(self) -> Option<DiscogsAction> {
        match self.phase {
            DiscogsPhase::AwaitFolder => Some(DiscogsAction::CreateFolder),
            DiscogsPhase::AwaitSearch => Some(DiscogsAction::SearchTrack { idx: self.idx }),
            DiscogsPhase::AwaitAdd { release_id } => Some(
                DiscogsAction::AddRelease { folder_id: self.folder_id, release_id },
            ),
            DiscogsPhase::Finished => None,
        }
    }

    /// Starts a run for `tracks`, to be imported into a new folder named
    /// after the playlist. The first and only permitted call is the
    /// folder creation.
    pub fn new(tracks: Vec<Track>, playlist_name: String) -> (s: Self)
        ensures
            s.wf(),
            s.tracks == tracks,
            s.playlist_name == playlist_name,
            s.phase is AwaitFolder,
            s.idx == 0 && s.successes == 0 && s.skips == 0 && !s.hard_failed,
            s.action_spec() == Some(DiscogsAction::CreateFolder),
    {
        DiscogsImport {
            tracks,
            playlist_name,
            phase: DiscogsPhase::AwaitFolder,
            folder_id: 0,
            idx: 0,
            successes: 0,
            skips: 0,
            hard_failed: false,
        }
    }

    /// The outside call to perform next, or `None` once the run is over.
    pub fn pending_action(&self) -> (a: Option<DiscogsAction>)
        ensures
            a == self.action_spec(),
    {
        match &self.phase {
            DiscogsPhase::AwaitFolder => Some(DiscogsAction::CreateFolder),
            DiscogsPhase::AwaitSearch => Some(DiscogsAction::SearchTrack { idx: self.idx }),
            DiscogsPhase::AwaitAdd { release_id } => Some(
                DiscogsAction::AddRelease { folder_id: self.folder_id, release_id: *release_id },
            ),
            DiscogsPhase::Finished => None,
        }
    }

    /// The name the collection folder is created under.
    pub fn folder_name(&self) -> (r: &String)
        ensures
            r == self.playlist_name,
    {
        &self.playlist_name
    }

    /// The track the pending search or add refers to.
    pub fn current_track(&self) -> (t: &Track)
        requires
            self.wf(),
            self.phase is AwaitSearch || self.phase is AwaitAdd,
        ensures
            t == self.tracks@[self.idx as int],
    {
        &self.tracks[self.idx]
    }

    /// Whether the run is over.
    pub fn is_finished(&self) -> (b: bool)
        ensures
            b == self.phase is Finished,
    {
        match &self.phase {
            DiscogsPhase::Finished => true,
            _ => false,
        }
    }

    /// What the run reports back once finished.
    pub fn summary(&self) -> (s: ImportSummary)
        ensures
            s == (ImportSummary {
                successes: self.successes,
                skips: self.skips,
                hard_failed: self.hard_failed,
            }),
    {
        ImportSummary {
            successes: self.successes,
            skips: self.skips,
            hard_failed: self.hard_failed,
        }
    }

    /// Outcome of the folder creation: `Some` carries the new folder's id,
    /// `None` a rejected request. A rejection is the hard stop: the run
    /// finishes at once, with zero tracks touched, and no per-track search
    /// or add call is ever permitted afterwards.
    pub fn on_folder_result(&mut self, r: Option<i64>)
        requires
            old(self).wf(),
            old(self).phase is AwaitFolder,
        ensures
            final(self).wf(),
            final(self).tracks == old(self).tracks,
            final(self).playlist_name == old(self).playlist_name,
            final(self).idx == 0 && final(self).successes == 0 && final(self).skips == 0,
            r matches Some(id) ==> final(self).folder_id == id && !final(self).hard_failed,
            r is Some && old(self).tracks@.len() > 0 ==> final(self).phase is AwaitSearch
                && final(self).action_spec() == Some(DiscogsAction::SearchTrack { idx: 0 }),
            r is Some && old(self).tracks@.len() == 0 ==> final(self).phase is Finished,
            r is None ==> final(self).hard_failed && final(self).phase is Finished
                && final(self).action_spec() is None,
    {
        match r {
            Some(id) => {
                self.folder_id = id;
                if self.tracks.len() > 0 {
                    self.phase = DiscogsPhase::AwaitSearch;
                } else {
                    self.phase = DiscogsPhase::Finished;
                }
            },
            None => {
                self.hard_failed = true;
                self.phase = DiscogsPhase::Finished;
            },
        }
    }

    /// Outcome of the per-track search: the release ids the marketplace
    /// returned, in its ranking order, or `None` if the request itself
    /// failed. The first entry of the ranking is authoritative and becomes
    /// the pending add. A failed request or an empty ranking skips exactly
    /// this track — the run keeps its place, never fails, and the next
    /// permitted call is the search for the following track.
    pub fn on_search_result(&mut self, results: Option<Vec<i64>>)
        requires
            old(self).wf(),
            old(self).phase is AwaitSearch,
        ensures
            final(self).wf(),
            final(self).tracks == old(self).tracks,
            final(self).playlist_name == old(self).playlist_name,
            final(self).folder_id == old(self).folder_id,
            !final(self).hard_failed,
            results is Some && results->Some_0@.len() > 0 ==> final(self).phase == (
            DiscogsPhase::AwaitAdd { release_id: results->Some_0@[0] }) && final(self).idx == old(
                self,
            ).idx && final(self).successes == old(self).successes && final(self).skips == old(
                self,
            ).skips && final(self).action_spec() == Some(
                DiscogsAction::AddRelease {
                    folder_id: old(self).folder_id,
                    release_id: results->Some_0@[0],
                },
            ),
            (results is None || results->Some_0@.len() == 0) ==> final(self).skips == old(
                self,
            ).skips + 1 && final(self).successes == old(self).successes && final(self).idx == old(
                self,
            ).idx + 1 && (if old(self).idx + 1 < old(self).tracks@.len() {
                final(self).phase is AwaitSearch && final(self).action_spec() == Some(
                    DiscogsAction::SearchTrack { idx: (old(self).idx + 1) as usize },
                )
            } else {
                final(self).phase is Finished
            }),
    {
        let found: Option<i64> = match results {
            Some(v) => {
                if v.len() > 0 {
                    Some(v[0])
                } else {
                    None
                }
            },
            None => None,
        };
        match found {
            Some(release_id) => {
                self.phase = DiscogsPhase::AwaitAdd { release_id };
            },
            None => {
                let n = self.tracks.len();
                assert(self.idx < n && self.skips <= self.idx);
                self.skips = self.skips + 1;
                self.idx = self.idx + 1;
                if self.idx < self.tracks.len() {
                    self.phase = DiscogsPhase::AwaitSearch;
                } else {
                    self.phase = DiscogsPhase::Finished;
                }
            },
        }
    }

    /// Outcome of adding the found release to the folder: `true` for a
    /// created entry, `false` for any other status, which counts as a skip.
    /// Either way the run moves on: the next permitted call is the search
    /// for the following track, and a rejected add never ends the run.
    pub fn on_add_result(&mut self, ok: bool)
        requires
            old(self).wf(),
            old(self).phase is AwaitAdd,
        ensures
            final(self).wf(),
            final(self).tracks == old(self).tracks,
            final(self).playlist_name == old(self).playlist_name,
            final(self).folder_id == old(self).folder_id,
            !final(self).hard_failed,
            final(self).idx == old(self).idx + 1,
            ok ==> final(self).successes == old(self).successes + 1 && final(self).skips == old(
                self,
            ).skips,
            !ok ==> final(self).skips == old(self).skips + 1 && final(self).successes == old(
                self,
            ).successes,
            if old(self).idx + 1 < old(self).tracks@.len() {
                final(self).phase is AwaitSearch && final(self).action_spec() == Some(
                    DiscogsAction::SearchTrack { idx: (old(self).idx + 1) as usize },
                )
            } else {
                final(self).phase is Finished
            },
    {
        let n = self.tracks.len();
        assert(self.idx < n && self.successes <= self.idx && self.skips <= self.idx);
        if ok {
            self.successes = self.successes + 1;
        } else {
            self.skips = self.skips + 1;
        }
        self.idx = self.idx + 1;
        if self.idx < self.tracks.len() {
            self.phase = DiscogsPhase::AwaitSearch;
        } else {
            self.phase = DiscogsPhase::Finished;
        }
    }
}

/// A finished run permits no call at all — in particular, after the
/// folder-creation hard stop every per-track search and add is foreclosed.
pub proof fn lemma_finished_run_is_silent(s: DiscogsImport)
    requires
        s.phase is Finished,
    ensures
        s.action_spec() is None,
{
}

/// A hard-stopped run never touched a track: no success, no skip, and no
/// pending call.
pub proof fn lemma_hard_stop_touched_no_track(s: DiscogsImport)
    requires
        s.wf(),
        s.hard_failed,
    ensures
        s.phase is Finished,
        s.successes == 0 && s.skips == 0,
        s.action_spec() is None,
{
}

/// A run that finished without a hard stop resolved every track of its list
/// exactly once, as a success or a skip: per-track failures are absorbed and
/// the overall result is success-with-skips.
pub proof fn lemma_completed_run_covers_all_tracks(s: DiscogsImport)
    requires
        s.wf(),
        s.phase is Finished,
        !s.hard_failed,
    ensures
        s.successes + s.skips == s.tracks@.len(),
{
}

/// For any playlist items, a run over the track list built from them that
/// finished without a hard stop made exactly one per-track resolution for
/// each item with a resolvable primary artist — items without one were
/// excluded before the importer saw the list.
pub proof fn lemma_importer_invocations(items: Seq<RawItemModel>, s: DiscogsImport)
    requires
        s.wf(),
        s.phase is Finished,
        !s.hard_failed,
        s.tracks.deep_view() == filtered_tracks(items),
    ensures
        s.successes + s.skips == count_resolvable(items),
{
    lemma_track_filtering(items);
}

} // verus!
