//! The interactive navigator: the menu cycle that leads from the playlist
//! list over the track preview to an import target, with a "go back" step.
//!
//! The two menu levels form a state machine driven as a trampoline rather
//! than by mutual recursion: the caller performs the single outside step
//! [`Navigator::pending_action`] names — fetch the playlist page, prompt,
//! fetch the chosen playlist's items, dispatch to an importer — and feeds
//! the outcome back. The contracts pin every transition down: cancelling
//! either menu ends the session with the empty outcome and no further call,
//! and "go back" returns the session to exactly the initial state, so the
//! playlist page is fetched afresh rather than reused.

use crate::model::{build_track_list, filtered_tracks, Playlist, RawItem, Track};
use vstd::prelude::*;
use vstd::pervasive::unreached;

verus! {

/// The importer a track list is dispatched to.
#[derive(Clone, Copy, PartialEq, Eq, Structural, Debug)]
pub enum ImportTarget {
    /// The record-marketplace collection folder.
    Discogs,
    /// The video platform plus the local audio-extraction tool.
    Youtube,
}

/// How a session ended.
#[derive(Clone, Copy, PartialEq, Eq, Structural, Debug)]
pub enum Outcome {
    /// The user cancelled a menu: a valid, silent end — not an error.
    Empty,
    /// A track list was dispatched to this importer.
    Imported { target: ImportTarget },
}

/// The outside step a session is waiting on.
#[derive(Clone, Copy, PartialEq, Eq, Structural, Debug)]
pub enum NavAction {
    /// Fetch the first page of the user's playlists.
    FetchPlaylists,
    /// Present the playlist menu.
    PromptPlaylist,
    /// Fetch the chosen playlist's items.
    FetchTracks,
    /// Present the track preview and the import-target menu.
    PromptTarget,
    /// Hand the pending track list to this importer and run it.
    StartImport { target: ImportTarget },
}

/// Where a session stands. At most one playlist and one track list are held
/// at a time: each transition moves them forward or drops them.
pub enum NavPhase {
    /// Waiting for a fresh playlist page; nothing is cached.
    FetchingPlaylists,
    /// Waiting for the user's choice among the listed playlists.
    ChoosingPlaylist { playlists: Vec<Playlist> },
    /// Waiting for the chosen playlist's items.
    FetchingTracks { playlist_id: String, playlist_name: String },
    /// Waiting for the user's choice of an import target for these tracks.
    ChoosingImportTarget { tracks: Vec<Track>, playlist_name: String },
    /// Waiting for the caller to take the track list and run the importer.
    Importing { target: ImportTarget, tracks: Vec<Track>, playlist_name: String },
    /// The session is over; no further step is taken.
    Done { outcome: Outcome },
}

/// One interactive session, from the first playlist fetch to its outcome.
pub struct Navigator {
    /// Where the session stands.
    pub phase: NavPhase,
}

impl Navigator {
    /// The only outside step the session permits in its current state;
    /// `None` once done — a finished session takes no further step, in
    /// particular no further network call.
    pub open spec fn action_spec(self) -> Option<NavAction> {
        match self.phase {
            NavPhase::FetchingPlaylists => Some(NavAction::FetchPlaylists),
            NavPhase::ChoosingPlaylist { .. } => Some(NavAction::PromptPlaylist),
            NavPhase::FetchingTracks { .. } => Some(NavAction::FetchTracks),
            NavPhase::ChoosingImportTarget { .. } => Some(NavAction::PromptTarget),
            NavPhase::Importing { target, .. } => Some(NavAction::StartImport { target }),
            NavPhase::Done { .. } => None,
        }
    }

    /// A session starts at the playlist level with nothing cached: the
    /// first step is always a fresh playlist fetch.
    pub fn new() -> (s: Self)
        ensures
            s == (Navigator { phase: NavPhase::FetchingPlaylists }),
            s.action_spec() == Some(NavAction::FetchPlaylists),
    {
        Navigator { phase: NavPhase::FetchingPlaylists }
    }

    /// The outside step to perform next, or `None` once the session is
    /// over.
    pub fn pending_action(&self) -> (a: Option<NavAction>)
        ensures
            a == self.action_spec(),
    {
        match &self.phase {
            NavPhase::FetchingPlaylists => Some(NavAction::FetchPlaylists),
            NavPhase::ChoosingPlaylist { .. } => Some(NavAction::PromptPlaylist),
            NavPhase::FetchingTracks { .. } => Some(NavAction::FetchTracks),
            NavPhase::ChoosingImportTarget { .. } => Some(NavAction::PromptTarget),
            NavPhase::Importing { target, .. } => Some(NavAction::StartImport { target: *target }),
            NavPhase::Done { .. } => None,
        }
    }

    /// The playlist page arrived: present its names, in listing order.
    pub fn on_playlists_fetched(self, playlists: Vec<Playlist>) -> (s: Self)
        requires
            self.phase is FetchingPlaylists,
        ensures
            s.phase == (NavPhase::ChoosingPlaylist { playlists }),
            s.action_spec() == Some(NavAction::PromptPlaylist),
    {
        Navigator { phase: NavPhase::ChoosingPlaylist { playlists } }
    }

    /// The names to present at the playlist menu, in listing order.
    pub fn playlist_names(&self) -> (r: Vec<String>)
        requires
            self.phase is ChoosingPlaylist,
        ensures
            r@.len() == self.phase->playlists@.len(),
            forall|j: int|
                0 <= j < r@.len() ==> r@[j]@ == self.phase->playlists@[j]@.name,
    {
        let playlists = match &self.phase {
            NavPhase::ChoosingPlaylist { playlists } => playlists,
            _ => unreached(),
        };
        let mut r: Vec<String> = Vec::new();
        let mut i: usize = 0;
        while i < playlists.len()
            invariant
                i <= playlists@.len(),
                r@.len() == i,
                forall|j: int| 0 <= j < i ==> r@[j]@ == playlists@[j]@.name,
            decreases playlists@.len() - i,
        {
            r.push(playlists[i].name.clone());
            i = i + 1;
        }
        r
    }

    /// The user's choice at the playlist menu, `None` for cancel.
    ///
    /// Cancel ends the session at once with the empty outcome — a valid
    /// end, not an error — and no further step is permitted, so no further
    /// network call is made. A choice moves on to fetching that playlist's
    /// items, carrying its identifier and display name forward and dropping
    /// the listing.
    pub fn on_playlist_choice(self, choice: Option<usize>) -> (s: Self)
        requires
            self.phase is ChoosingPlaylist,
            choice is Some ==> choice->Some_0 < self.phase->playlists@.len(),
        ensures
            choice is None ==> s.phase == (NavPhase::Done { outcome: Outcome::Empty })
                && s.action_spec() is None,
            choice is Some ==> s.phase is FetchingTracks && s.action_spec() == Some(
                NavAction::FetchTracks,
            ) && s.phase->FetchingTracks_playlist_id@ == self.phase->playlists@[choice->Some_0
                as int]@.id && s.phase->FetchingTracks_playlist_name@
                == self.phase->playlists@[choice->Some_0 as int]@.name,
    {
        let playlists = match self.phase {
            NavPhase::ChoosingPlaylist { playlists } => playlists,
            _ => unreached(),
        };
        match choice {
            None => Navigator { phase: NavPhase::Done { outcome: Outcome::Empty } },
            Some(i) => {
                let playlist_id = playlists[i].id.clone();
                let playlist_name = playlists[i].name.clone();
                Navigator { phase: NavPhase::FetchingTracks { playlist_id, playlist_name } }
            },
        }
    }

    /// The identifier of the playlist whose items are to be fetched.
    pub fn playlist_id(&self) -> (r: &String)
        requires
            self.phase is FetchingTracks,
        ensures
            r == self.phase->FetchingTracks_playlist_id,
    {
        match &self.phase {
            NavPhase::FetchingTracks { playlist_id, .. } => playlist_id,
            _ => unreached(),
        }
    }

    /// The chosen playlist's items arrived: build the track list — every
    /// item with a resolvable primary artist, in the provider's order,
    /// nothing else — and move to the import-target menu. Filtering happens
    /// here, once, before any importer sees the list.
    pub fn on_tracks_fetched(self, items: &Vec<RawItem>) -> (s: Self)
        requires
            self.phase is FetchingTracks,
        ensures
            s.phase is ChoosingImportTarget,
            s.phase->ChoosingImportTarget_tracks.deep_view() == filtered_tracks(
                items.deep_view(),
            ),
            s.phase->ChoosingImportTarget_playlist_name
                == self.phase->FetchingTracks_playlist_name,
            s.action_spec() == Some(NavAction::PromptTarget),
    {
        let playlist_name = match self.phase {
            NavPhase::FetchingTracks { playlist_name, .. } => playlist_name,
            _ => unreached(),
        };
        let tracks = build_track_list(items);
        Navigator { phase: NavPhase::ChoosingImportTarget { tracks, playlist_name } }
    }

    /// The pending track list, for the preview at the import-target menu.
    pub fn pending_tracks(&self) -> (r: &Vec<Track>)
        requires
            self.phase is ChoosingImportTarget,
        ensures
            r == self.phase->ChoosingImportTarget_tracks,
    {
        match &self.phase {
            NavPhase::ChoosingImportTarget { tracks, .. } => tracks,
            _ => unreached(),
        }
    }

    /// The user's choice at the import-target menu: `0` imports to the
    /// marketplace, `1` to the video downloader, `2` goes back, `None`
    /// cancels.
    ///
    /// Cancel behaves as at the playlist menu: empty outcome, no further
    /// step. An importer choice carries the track list and playlist name
    /// into the dispatch. "Go back" returns the session to exactly the
    /// state a new session starts in: it keeps no playlist page, so the
    /// list is fetched afresh, never reused.
    pub fn on_target_choice(self, choice: Option<usize>) -> (s: Self)
        requires
            self.phase is ChoosingImportTarget,
            choice is Some ==> choice->Some_0 < 3,
        ensures
            choice is None ==> s.phase == (NavPhase::Done { outcome: Outcome::Empty })
                && s.action_spec() is None,
            choice == Some(0usize) ==> s.phase == (NavPhase::Importing {
                target: ImportTarget::Discogs,
                tracks: self.phase->ChoosingImportTarget_tracks,
                playlist_name: self.phase->ChoosingImportTarget_playlist_name,
            }) && s.action_spec() == Some(
                NavAction::StartImport { target: ImportTarget::Discogs },
            ),
            choice == Some(1usize) ==> s.phase == (NavPhase::Importing {
                target: ImportTarget::Youtube,
                tracks: self.phase->ChoosingImportTarget_tracks,
                playlist_name: self.phase->ChoosingImportTarget_playlist_name,
            }) && s.action_spec() == Some(
                NavAction::StartImport { target: ImportTarget::Youtube },
            ),
            choice == Some(2usize) ==> s == (Navigator { phase: NavPhase::FetchingPlaylists })
                && s.action_spec() == Some(NavAction::FetchPlaylists),
    {
        let (tracks, playlist_name) = match self.phase {
            NavPhase::ChoosingImportTarget { tracks, playlist_name } => (tracks, playlist_name),
            _ => unreached(),
        };
        match choice {
            None => Navigator { phase: NavPhase::Done { outcome: Outcome::Empty } },
            Some(i) => {
                if i == 0 {
                    Navigator {
                        phase: NavPhase::Importing {
                            target: ImportTarget::Discogs,
                            tracks,
                            playlist_name,
                        },
                    }
                } else if i == 1 {
                    Navigator {
                        phase: NavPhase::Importing {
                            target: ImportTarget::Youtube,
                            tracks,
                            playlist_name,
                        },
                    }
                } else {
                    Navigator { phase: NavPhase::FetchingPlaylists }
                }
            },
        }
    }

    /// Hands the pending track list and playlist name out for the chosen
    /// importer and ends the session: the design runs one import attempt
    /// and returns to the top-level caller, it never loops back on its own.
    pub fn begin_import(self) -> (r: (ImportTarget, Vec<Track>, String, Navigator))
        requires
            self.phase is Importing,
        ensures
            r.0 == self.phase->Importing_target,
            r.1 == self.phase->Importing_tracks,
            r.2 == self.phase->Importing_playlist_name,
            r.3.phase == (NavPhase::Done { outcome: Outcome::Imported { target: r.0 } }),
            r.3.action_spec() is None,
    {
        match self.phase {
            NavPhase::Importing { target, tracks, playlist_name } => (
                target,
                tracks,
                playlist_name,
                Navigator { phase: NavPhase::Done { outcome: Outcome::Imported { target } } },
            ),
            _ => unreached(),
        }
    }

    /// How the session ended, or `None` while it is still under way.
    pub fn outcome(&self) -> (r: Option<Outcome>)
        ensures
            self.phase matches NavPhase::Done { outcome } ==> r == Some(outcome),
            self.phase !is Done ==> r is None,
    {
        match &self.phase {
            NavPhase::Done { outcome } => Some(*outcome),
            _ => None,
        }
    }
}

/// A finished session takes no step at all: after a cancel — or after the
/// one import attempt — the system makes zero further network calls.
pub proof fn lemma_done_session_is_silent(n: Navigator)
    requires
        n.phase is Done,
    ensures
        n.action_spec() is None,
{
}

/// Going back never hands a cached playlist page around: every state that
/// presents the playlist menu was reached from the fetching state, and the
/// fetching state itself holds no data to reuse.
pub proof fn lemma_fetch_state_holds_nothing(n: Navigator)
    requires
        n.phase is FetchingPlaylists,
    ensures
        n == (Navigator { phase: NavPhase::FetchingPlaylists }),
        n.action_spec() == Some(NavAction::FetchPlaylists),
{
}

} // verus!
