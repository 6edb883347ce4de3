//! The data the pipeline moves around: playlists and tracks as the source
//! catalog reports them, the filtered track list every importer works on,
//! and the summary an importer run reports back.

use vstd::prelude::*;
use vstd::string::StringExecFns;

verus! {

/// A track of the selected playlist: its primary artist name and its title.
pub struct Track {
    pub artist: String,
    pub title: String,
}

/// The spec-level value of a [`Track`]: both names as character sequences.
pub struct TrackModel {
    pub artist: Seq<char>,
    pub title: Seq<char>,
}

impl View for Track {
    type V = TrackModel;

    open spec fn view(&self) -> TrackModel {
        TrackModel { artist: self.artist@, title: self.title@ }
    }
}

impl DeepView for Track {
    type V = TrackModel;

    open spec fn deep_view(&self) -> TrackModel {
        self@
    }
}

/// A playlist as the source catalog lists it: provider-assigned identifier
/// and display name.
pub struct Playlist {
    pub id: String,
    pub name: String,
}

/// The spec-level value of a [`Playlist`].
pub struct PlaylistModel {
    pub id: Seq<char>,
    pub name: Seq<char>,
}

impl View for Playlist {
    type V = PlaylistModel;

    open spec fn view(&self) -> PlaylistModel {
        PlaylistModel { id: self.id@, name: self.name@ }
    }
}

impl DeepView for Playlist {
    type V = PlaylistModel;

    open spec fn deep_view(&self) -> PlaylistModel {
        self@
    }
}

/// The playable track inside one playlist item, before filtering: its title
/// and its artist list, which the provider may leave empty.
pub struct RawTrack {
    pub title: String,
    pub artists: Vec<String>,
}

/// The spec-level value of a [`RawTrack`].
pub struct RawTrackModel {
    pub title: Seq<char>,
    pub artists: Seq<Seq<char>>,
}

impl DeepView for RawTrack {
    type V = RawTrackModel;

    open spec fn deep_view(&self) -> RawTrackModel {
        RawTrackModel { title: self.title@, artists: self.artists.deep_view() }
    }
}

/// One item of a playlist as the provider reports it: the playable track may
/// be absent (an episode, a removed entry), in which case the item is
/// dropped during track-list construction.
pub struct RawItem {
    pub playable: Option<RawTrack>,
}

/// The spec-level value of a [`RawItem`].
pub struct RawItemModel {
    pub playable: Option<RawTrackModel>,
}

impl DeepView for RawItem {
    type V = RawItemModel;

    open spec fn deep_view(&self) -> RawItemModel {
        RawItemModel { playable: self.playable.deep_view() }
    }
}

/// An item survives filtering exactly when it holds a playable track with a
/// resolvable primary artist.
pub open spec fn resolvable(it: RawItemModel) -> bool {
    it.playable matches Some(t) && t.artists.len() > 0
}

/// The track a resolvable item contributes: its first artist and its title.
pub open spec fn primary_track(it: RawItemModel) -> TrackModel
    recommends
        resolvable(it),
{
    TrackModel { artist: it.playable->Some_0.artists[0], title: it.playable->Some_0.title }
}

/// The track list a playlist's items produce: every resolvable item, in the
/// provider's order, reduced to its primary artist and title.
pub open spec fn filtered_tracks(items: Seq<RawItemModel>) -> Seq<TrackModel>
    decreases items.len(),
{
    if items.len() == 0 {
        Seq::empty()
    } else {
        let rest = filtered_tracks(items.drop_last());
        if resolvable(items.last()) {
            rest.push(primary_track(items.last()))
        } else {
            rest
        }
    }
}

/// How many items of a playlist have a resolvable primary artist.
pub open spec fn count_resolvable(items: Seq<RawItemModel>) -> nat
    decreases items.len(),
{
    if items.len() == 0 {
        0
    } else {
        count_resolvable(items.drop_last()) + if resolvable(items.last()) {
            1nat
        } else {
            0nat
        }
    }
}

/// Filtering happens once, at track-list construction: the list handed to an
/// importer holds exactly one track per item with a resolvable primary
/// artist, so the number of per-track importer steps equals that count.
pub proof fn lemma_track_filtering(items: Seq<RawItemModel>)
    ensures
        filtered_tracks(items).len() == count_resolvable(items),
    decreases items.len(),
{
    if items.len() > 0 {
        lemma_track_filtering(items.drop_last());
    }
}

/// Builds the track list for a playlist: keeps the provider's order, drops
/// every item without a playable track or without an artist, and reduces
/// each kept item to its primary artist and title.
pub fn build_track_list(items: &Vec<RawItem>) -> (r: Vec<Track>)
    ensures
        r.deep_view() == filtered_tracks(items.deep_view()),
{
    let mut r: Vec<Track> = Vec::new();
    let mut i: usize = 0;
    while i < items.len()
        invariant
            i <= items@.len(),
            r.deep_view() == filtered_tracks(items.deep_view().take(i as int)),
        decreases items@.len() - i,
    {
        let ghost prev = r.deep_view();
        match &items[i].playable {
            Some(t) => {
                if t.artists.len() > 0 {
                    let artist = t.artists[0].clone();
                    let title = t.title.clone();
                    r.push(Track { artist, title });
                }
            },
            None => {},
        }
        proof {
            let m = items.deep_view();
            assert(m.take(i + 1).drop_last() =~= m.take(i as int));
            assert(m.take(i + 1).last() == m[i as int]);
            if resolvable(m[i as int]) {
                assert(r.deep_view() =~= prev.push(primary_track(m[i as int])));
            }
        }
        i = i + 1;
    }
    proof {
        assert(items.deep_view().take(items@.len() as int) =~= items.deep_view());
    }
    r
}

/// The preview line shown for one pending track: its title, a separator,
/// its artist.
pub fn preview_line(t: &Track) -> (r: String)
    ensures
        r@ == t@.title + " - "@ + t@.artist,
{
    let mut s = t.title.clone();
    s.append(" - ");
    s.append(t.artist.as_str());
    s
}

/// The preview of a pending track list, one line per track, in list order.
pub fn preview_lines(tracks: &Vec<Track>) -> (r: Vec<String>)
    ensures
        r@.len() == tracks@.len(),
        forall|j: int|
            0 <= j < tracks@.len() ==> r@[j]@ == tracks@[j]@.title + " - "@ + tracks@[j]@.artist,
{
    let mut r: Vec<String> = Vec::new();
    let mut i: usize = 0;
    while i < tracks.len()
        invariant
            i <= tracks@.len(),
            r@.len() == i,
            forall|j: int|
                0 <= j < i ==> r@[j]@ == tracks@[j]@.title + " - "@ + tracks@[j]@.artist,
        decreases tracks@.len() - i,
    {
        r.push(preview_line(&tracks[i]));
        i = i + 1;
    }
    r
}

/// What an importer run reports back: how many tracks were imported, how
/// many were skipped, and whether the run was cut short by a hard stop
/// before any per-track work.
#[derive(Clone, Copy, PartialEq, Eq, Structural, Debug)]
pub struct ImportSummary {
    pub successes: usize,
    pub skips: usize,
    pub hard_failed: bool,
}

} // verus!
