//! The queue of tracks in playback order, with the source it was loaded from.
use crate::models::{Album, Playlist, PlaylistView, Track, TrackStatus};
use crate::walk::entries;
use std::collections::BTreeMap;
use vstd::prelude::*;

verus! {

/// The kind of source a queue was loaded from.
#[derive(Debug, Clone, Copy, PartialEq, Eq, Structural)]
pub enum TrackListType {
    Album,
    Playlist,
    Track,
    Unknown,
}

impl Default for TrackListType {
    fn default() -> (kind: TrackListType)
        ensures
            kind == TrackListType::Unknown,
    {
        TrackListType::Unknown
    }
}

#[derive(Debug, PartialEq)]
pub struct Tracklist {
    pub queue: BTreeMap<u32, Track>,
    pub album: Option<Album>,
    pub playlist: Option<Playlist>,
    pub list_type: TrackListType,
}

/// A tracklist as a mathematical value.
pub struct TracklistView {
    pub queue: Map<u32, Track>,
    pub album: Option<Album>,
    pub playlist: Option<PlaylistView>,
    pub list_type: TrackListType,
}

/// The occupied positions below `bound`, smallest first.
pub open spec fn positions_below(queue: Map<u32, Track>, bound: nat) -> Seq<u32>
    decreases bound,
{
    if bound == 0 {
        Seq::empty()
    } else {
        let before = positions_below(queue, (bound - 1) as nat);
        if queue.contains_key((bound - 1) as u32) {
            before.push((bound - 1) as u32)
        } else {
            before
        }
    }
}

/// The occupied positions of a queue in playback order.
pub open spec fn positions(queue: Map<u32, Track>) -> Seq<u32> {
    positions_below(queue, 0x1_0000_0000)
}

/// The tracks of a queue in playback order.
pub open spec fn tracks_in_order(queue: Map<u32, Track>) -> Seq<Track> {
    positions(queue).map_values(|p: u32| queue[p])
}

/// The test that a track has the given status.
pub open spec fn has_status(status: TrackStatus) -> spec_fn(Track) -> bool {
    |t: Track| t.status == status
}

/// The tracks of a queue that have the given status, in playback order.
pub open spec fn tracks_with_status(queue: Map<u32, Track>, status: TrackStatus) -> Seq<Track> {
    tracks_in_order(queue).filter(has_status(status))
}

/// A track's identifier read as a signed number of the same 32 bits.
pub open spec fn signed_id(id: u32) -> int {
    if id < 0x8000_0000 {
        id as int
    } else {
        id - 0x1_0000_0000
    }
}

/// The first track in playback order that is playing.
pub open spec fn playing_track(queue: Map<u32, Track>) -> Option<Track> {
    let playing = tracks_with_status(queue, TrackStatus::Playing);
    if playing.len() > 0 {
        Some(playing[0])
    } else {
        None
    }
}

/// No two positions of the queue hold a playing track.
pub open spec fn at_most_one_playing(queue: Map<u32, Track>) -> bool {
    forall|p: u32, q: u32|
        queue.contains_key(p) && queue.contains_key(q) && queue[p].status == TrackStatus::Playing
            && queue[q].status == TrackStatus::Playing ==> p == q
}

/// The track `track` with its status replaced.
pub open spec fn with_status(track: Track, status: TrackStatus) -> Track {
    Track { status, ..track }
}

/// The queue after the status at `position` was set; untouched where the
/// position is vacant.
pub open spec fn queue_with_status(
    queue: Map<u32, Track>,
    position: u32,
    status: TrackStatus,
) -> Map<u32, Track> {
    if queue.contains_key(position) {
        queue.insert(position, with_status(queue[position], status))
    } else {
        queue
    }
}

/// The tracklist after the status at `position` was set.
pub open spec fn after_set_status(
    list: TracklistView,
    position: u32,
    status: TrackStatus,
) -> TracklistView {
    TracklistView { queue: queue_with_status(list.queue, position, status), ..list }
}

/// The number of tracks that a tracklist stands for: that of its album, else
/// that of its playlist, else the length of its queue (as 32 bits hold it).
pub open spec fn total_of(list: TracklistView) -> int {
    match list.album {
        Some(album) => album.total_tracks as int,
        None => match list.playlist {
            Some(playlist) => playlist.tracks_count as int,
            None => (list.queue.len() % 0x1_0000_0000) as int,
        },
    }
}

/// The album that is playing now: that of the playing track where it carries
/// one, else the album the list was loaded from.
pub open spec fn source_album(list: TracklistView) -> Option<Album> {
    match playing_track(list.queue) {
        Some(track) => match track.album {
            Some(album) => Some(album),
            None => list.album,
        },
        None => list.album,
    }
}

/// Strictly increasing.
pub open spec fn increasing(s: Seq<u32>) -> bool {
    forall|i: int, j: int| 0 <= i < j < s.len() ==> s[i] < s[j]
}

/// `positions_below` is increasing and holds exactly the occupied positions
/// under the bound.
pub proof fn lemma_positions_below(queue: Map<u32, Track>, bound: nat)
    requires
        bound <= 0x1_0000_0000,
    ensures
        increasing(positions_below(queue, bound)),
        forall|p: u32|
            #![trigger positions_below(queue, bound).contains(p)]
            #![trigger queue.contains_key(p)]
            positions_below(queue, bound).contains(p) <==> (queue.contains_key(p) && p < bound),
    decreases bound,
{
    if bound > 0 {
        let k = (bound - 1) as u32;
        let before = positions_below(queue, (bound - 1) as nat);
        lemma_positions_below(queue, (bound - 1) as nat);
        let now = positions_below(queue, bound);
        if queue.contains_key(k) {
            assert(now == before.push(k));
            assert forall|i: int, j: int| 0 <= i < j < now.len() implies now[i] < now[j] by {
                assert(now[i] == before[i]);
                assert(before.contains(before[i]));
                assert(before[i] < bound - 1);
                assert(k == bound - 1);
                if j < now.len() - 1 {
                    assert(now[j] == before[j]);
                    assert(before[i] < before[j]);
                } else {
                    assert(now[j] == k);
                }
            }
            assert forall|p: u32| now.contains(p) <==> (queue.contains_key(p) && p < bound) by {
                if now.contains(p) {
                    let i = choose|i: int| 0 <= i < now.len() && now[i] == p;
                    if i < before.len() {
                        assert(before.contains(before[i]));
                    }
                }
                if queue.contains_key(p) && p < bound {
                    if p == k {
                        assert(now[now.len() - 1] == k);
                    } else {
                        assert(before.contains(p));
                        let i = choose|i: int| 0 <= i < before.len() && before[i] == p;
                        assert(now[i] == p);
                    }
                }
            }
        } else {
            assert(now == before);
        }
    }
}

/// An increasing sequence that holds exactly the occupied positions under the
/// bound is `positions_below`.
pub proof fn lemma_playback_order_unique(queue: Map<u32, Track>, s: Seq<u32>, bound: nat)
    requires
        bound <= 0x1_0000_0000,
        increasing(s),
        forall|p: u32|
            #![trigger s.contains(p)]
            #![trigger queue.contains_key(p)]
            s.contains(p) <==> (queue.contains_key(p) && p < bound),
    ensures
        s == positions_below(queue, bound),
    decreases bound,
{
    if bound == 0 {
        if s.len() > 0 {
            assert(s.contains(s[0]));
        }
        assert(s =~= Seq::empty());
    } else {
        let k = (bound - 1) as u32;
        if queue.contains_key(k) {
            assert(s.contains(k));
            let i = choose|i: int| 0 <= i < s.len() && s[i] == k;
            if i < s.len() - 1 {
                assert(s.contains(s[i + 1]));
            }
            let front = s.drop_last();
            assert forall|p: u32| front.contains(p) <==> (queue.contains_key(p) && p < bound
                - 1) by {
                if front.contains(p) {
                    let j = choose|j: int| 0 <= j < front.len() && front[j] == p;
                    assert(s[j] == p);
                    assert(s.contains(p));
                }
                if queue.contains_key(p) && p < bound - 1 {
                    assert(s.contains(p));
                    let j = choose|j: int| 0 <= j < s.len() && s[j] == p;
                    assert(front[j] == p);
                }
            }
            lemma_playback_order_unique(queue, front, (bound - 1) as nat);
            assert(s =~= front.push(k));
        } else {
            assert forall|p: u32| s.contains(p) <==> (queue.contains_key(p) && p < bound - 1) by {
            }
            lemma_playback_order_unique(queue, s, (bound - 1) as nat);
        }
    }
}

/// Setting a status twice gives the tracklist that setting it once gives.
pub proof fn law_set_status_idempotent(list: TracklistView, position: u32, status: TrackStatus)
    ensures
        after_set_status(after_set_status(list, position, status), position, status)
            == after_set_status(list, position, status),
{
    let once = queue_with_status(list.queue, position, status);
    assert(queue_with_status(once, position, status) =~= once);
}

/// Setting the status of a vacant position changes nothing.
pub proof fn law_set_status_vacant(list: TracklistView, position: u32, status: TrackStatus)
    requires
        !list.queue.contains_key(position),
    ensures
        after_set_status(list, position, status) == list,
{
}

/// Setting a status touches no other position, and at the position itself
/// nothing but the status.
pub proof fn law_set_status_local(list: TracklistView, position: u32, status: TrackStatus)
    ensures
        after_set_status(list, position, status).queue.dom() == list.queue.dom(),
        forall|p: u32|
            list.queue.contains_key(p) && p != position ==> after_set_status(
                list,
                position,
                status,
            ).queue[p] == list.queue[p],
        list.queue.contains_key(position) ==> after_set_status(list, position, status).queue[position]
            == with_status(list.queue[position], status),
{
    assert(after_set_status(list, position, status).queue.dom() =~= list.queue.dom());
}

/// A queue with at most one playing track keeps that property when a status
/// other than playing is set, and when playing is set while no other position
/// is playing.
pub proof fn law_set_status_keeps_one_playing(
    queue: Map<u32, Track>,
    position: u32,
    status: TrackStatus,
)
    requires
        at_most_one_playing(queue),
        status == TrackStatus::Playing ==> forall|p: u32|
            queue.contains_key(p) && p != position ==> queue[p].status != TrackStatus::Playing,
    ensures
        at_most_one_playing(queue_with_status(queue, position, status)),
{
    let after = queue_with_status(queue, position, status);
    assert forall|p: u32, q: u32|
        after.contains_key(p) && after.contains_key(q) && after[p].status == TrackStatus::Playing
            && after[q].status == TrackStatus::Playing implies p == q by {
        if p != position && q != position {
            assert(queue.contains_key(p) && queue.contains_key(q));
        }
    }
}

/// An entry of a sequence passes the test where its filter has an item.
pub proof fn lemma_one_selected<A>(s: Seq<A>, pred: spec_fn(A) -> bool)
    requires
        s.filter(pred).len() >= 1,
    ensures
        exists|i: int| 0 <= i < s.len() && pred(s[i]),
    decreases s.len(),
{
    reveal(Seq::filter);
    if s.len() > 0 {
        let front = s.drop_last();
        if pred(s.last()) {
            assert(pred(s[s.len() - 1]));
        } else {
            lemma_one_selected(front, pred);
            let i = choose|i: int| 0 <= i < front.len() && pred(front[i]);
            assert(front[i] == s[i]);
        }
    }
}

/// Two entries of a sequence pass the test where its filter has two items.
proof fn lemma_two_selected<A>(s: Seq<A>, pred: spec_fn(A) -> bool)
    requires
        s.filter(pred).len() >= 2,
    ensures
        exists|i: int, j: int| 0 <= i < j < s.len() && pred(s[i]) && pred(s[j]),
    decreases s.len(),
{
    reveal(Seq::filter);
    if s.len() > 0 {
        let front = s.drop_last();
        if pred(s.last()) {
            lemma_one_selected(front, pred);
            let i = choose|i: int| 0 <= i < front.len() && pred(front[i]);
            assert(front[i] == s[i]);
            assert(pred(s[i]) && pred(s[s.len() - 1]));
        } else {
            lemma_two_selected(front, pred);
            let (i, j) = choose|i: int, j: int|
                0 <= i < j < front.len() && pred(front[i]) && pred(front[j]);
            assert(front[i] == s[i] && front[j] == s[j]);
            assert(pred(s[i]) && pred(s[j]));
        }
    }
}

/// In a queue where no two positions hold a playing track, the tracks that
/// are playing number one at most.
pub proof fn law_playing_count(queue: Map<u32, Track>)
    requires
        at_most_one_playing(queue),
    ensures
        tracks_with_status(queue, TrackStatus::Playing).len() <= 1,
{
    let tracks = tracks_in_order(queue);
    let pred = has_status(TrackStatus::Playing);
    if tracks.filter(pred).len() >= 2 {
        lemma_two_selected(tracks, pred);
        lemma_positions_below(queue, 0x1_0000_0000);
        let (i, j) = choose|i: int, j: int|
            0 <= i < j < tracks.len() && pred(tracks[i]) && pred(tracks[j]);
        let at = positions(queue);
        assert(at.contains(at[i]) && at.contains(at[j]));
        assert(at[i] < at[j]);
        assert(queue[at[i]].status == TrackStatus::Playing);
        assert(queue[at[j]].status == TrackStatus::Playing);
    }
}

impl View for Tracklist {
    type V = TracklistView;

    open spec fn view(&self) -> TracklistView {
        TracklistView {
            queue: self.queue@,
            album: self.album,
            playlist: match self.playlist {
                Some(playlist) => Some(playlist@),
                None => None,
            },
            list_type: self.list_type,
        }
    }
}

impl Default for Tracklist {
    fn default() -> (list: Tracklist)
        ensures
            list@.queue == Map::<u32, Track>::empty(),
            list.album is None,
            list.playlist is None,
            list.list_type == TrackListType::Unknown,
    {
        Tracklist::new(None)
    }
}

impl Clone for Tracklist {
    fn clone(&self) -> (copy: Tracklist)
        ensures
            copy@ == self@,
    {
        let album = match &self.album {
            Some(a) => Some(a.clone()),
            None => None,
        };
        let playlist = match &self.playlist {
            Some(p) => Some(p.clone()),
            None => None,
        };
        Tracklist { queue: self.queue.clone(), album, playlist, list_type: self.list_type }
    }
}

impl Tracklist {
    /// A tracklist over a copy of the given queue, or over an empty one, with
    /// no source and of unknown kind.
    pub fn new(queue: Option<&BTreeMap<u32, Track>>) -> (list: Tracklist)
        ensures
            list@.queue == match queue {
                Some(q) => q@,
                None => Map::<u32, Track>::empty(),
            },
            list.album is None,
            list.playlist is None,
            list.list_type == TrackListType::Unknown,
    {
        let queue = match queue {
            Some(q) => q.clone(),
            None => BTreeMap::new(),
        };
        Tracklist { queue, album: None, playlist: None, list_type: TrackListType::Unknown }
    }

    pub fn total(&self) -> (total: u32)
        ensures
            total == total_of(self@),
    {
        match &self.album {
            Some(album) => album.total_tracks,
            None => match &self.playlist {
                Some(list) => list.tracks_count,
                None => {
                    let len: u64 = self.queue.len() as u64;
                    (len % 0x1_0000_0000u64) as u32
                },
            },
        }
    }

    pub fn get_album(&self) -> (album: Option<&Album>)
        ensures
            match album {
                Some(a) => source_album(self@) == Some(*a),
                None => source_album(self@) is None,
            },
    {
        match self.current_track() {
            Some(track) => match &track.album {
                Some(album) => Some(album),
                None => self.album.as_ref(),
            },
            None => self.album.as_ref(),
        }
    }

    pub fn get_playlist(&self) -> (playlist: Option<&Playlist>)
        ensures
            match playlist {
                Some(p) => self.playlist == Some(*p),
                None => self.playlist is None,
            },
    {
        self.playlist.as_ref()
    }

    pub fn set_list_type(&mut self, list_type: TrackListType)
        ensures
            final(self)@ == (TracklistView { list_type, ..old(self)@ }),
    {
        self.list_type = list_type;
    }

    pub fn list_type(&self) -> (kind: &TrackListType)
        ensures
            *kind == self.list_type,
    {
        &self.list_type
    }

    /// Sets the status of the track at `position`; where the position is
    /// vacant nothing changes.
    pub fn set_track_status(&mut self, position: u32, status: TrackStatus)
        ensures
            final(self)@ == after_set_status(old(self)@, position, status),
    {
        match self.queue.remove(&position) {
            Some(track) => {
                let mut track = track;
                track.status = status;
                self.queue.insert(position, track);
            },
            None => {},
        }
        proof {
            assert(self.queue@ =~= queue_with_status(old(self).queue@, position, status));
        }
    }

    /// The tracks with the given status, in playback order.
    fn tracks_having(&self, status: TrackStatus) -> (tracks: Vec<&Track>)
        ensures
            tracks@.unref() == tracks_with_status(self.queue@, status),
    {
        let all = entries(&self.queue);
        let ghost ordered = tracks_in_order(self.queue@);
        let mut tracks: Vec<&Track> = Vec::new();
        let mut i: usize = 0;
        proof {
            reveal(Seq::filter);
            assert(ordered.take(0).filter(has_status(status)) =~= Seq::<Track>::empty());
            assert(tracks@.unref() =~= Seq::<Track>::empty());
        }
        while i < all.len()
            invariant
                0 <= i <= all.len(),
                ordered == tracks_in_order(self.queue@),
                ordered.len() == all.len(),
                forall|k: int| 0 <= k < all.len() ==> *(#[trigger] all@[k]).1 == ordered[k],
                tracks@.unref() == ordered.take(i as int).filter(has_status(status)),
            decreases all.len() - i,
        {
            let track: &Track = all[i].1;
            let ghost before = tracks@.unref();
            proof {
                assert(ordered.take(i + 1) =~= ordered.take(i as int).push(ordered[i as int]));
                ordered.take(i as int).lemma_filter_push(ordered[i as int], has_status(status));
            }
            if track.status == status {
                tracks.push(track);
                proof {
                    assert(tracks@.unref() =~= before.push(*track));
                }
            }
            i += 1;
        }
        proof {
            assert(ordered.take(all.len() as int) =~= ordered);
        }
        tracks
    }

    pub fn all_tracks(&self) -> (tracks: Vec<&Track>)
        ensures
            tracks@.unref() == tracks_in_order(self.queue@),
    {
        let all = entries(&self.queue);
        let mut tracks: Vec<&Track> = Vec::new();
        let mut i: usize = 0;
        while i < all.len()
            invariant
                0 <= i <= all.len(),
                all.len() == tracks_in_order(self.queue@).len(),
                forall|k: int|
                    0 <= k < all.len() ==> *(#[trigger] all@[k]).1 == tracks_in_order(
                        self.queue@,
                    )[k],
                tracks@.len() == i,
                forall|k: int| 0 <= k < i ==> *(#[trigger] tracks@[k]) == *all@[k].1,
            decreases all.len() - i,
        {
            tracks.push(all[i].1);
            i += 1;
        }
        proof {
            assert(tracks@.unref() =~= tracks_in_order(self.queue@));
        }
        tracks
    }

    /// The tracks that have not been played, the playing one left out.
    pub fn unplayed_tracks(&self) -> (tracks: Vec<&Track>)
        ensures
            tracks@.unref() == tracks_with_status(self.queue@, TrackStatus::Unplayed),
    {
        self.tracks_having(TrackStatus::Unplayed)
    }

    pub fn played_tracks(&self) -> (tracks: Vec<&Track>)
        ensures
            tracks@.unref() == tracks_with_status(self.queue@, TrackStatus::Played),
    {
        self.tracks_having(TrackStatus::Played)
    }

    /// The first track in playback order that is playing.
    pub fn current_track(&self) -> (track: Option<&Track>)
        ensures
            match track {
                Some(t) => playing_track(self.queue@) == Some(*t),
                None => playing_track(self.queue@) is None,
            },
    {
        let playing = self.tracks_having(TrackStatus::Playing);
        if playing.len() > 0 {
            let track: &Track = playing[0];
            proof {
                assert(playing@.unref()[0] == *track);
            }
            Some(track)
        } else {
            proof {
                assert(playing@.unref().len() == 0);
            }
            None
        }
    }

    /// Title and identifier of each track, in playback order.
    pub fn cursive_list(&self) -> (rows: Vec<(&str, i32)>)
        ensures
            rows@.len() == tracks_in_order(self.queue@).len(),
            forall|k: int|
                0 <= k < rows@.len() ==> {
                    &&& (#[trigger] rows@[k]).0@ == tracks_in_order(self.queue@)[k].title@
                    &&& rows@[k].1 == signed_id(tracks_in_order(self.queue@)[k].id)
                },
    {
        let all = entries(&self.queue);
        let mut rows: Vec<(&str, i32)> = Vec::new();
        let mut i: usize = 0;
        while i < all.len()
            invariant
                0 <= i <= all.len(),
                all.len() == tracks_in_order(self.queue@).len(),
                forall|k: int|
                    0 <= k < all.len() ==> *(#[trigger] all@[k]).1 == tracks_in_order(
                        self.queue@,
                    )[k],
                rows@.len() == i,
                forall|k: int|
                    0 <= k < i ==> {
                        &&& (#[trigger] rows@[k]).0@ == tracks_in_order(self.queue@)[k].title@
                        &&& rows@[k].1 == signed_id(tracks_in_order(self.queue@)[k].id)
                    },
            decreases all.len() - i,
        {
            let track: &Track = all[i].1;
            let id: i32 = if track.id < 0x8000_0000u32 {
                track.id as i32
            } else {
                (track.id as i64 - 0x1_0000_0000i64) as i32
            };
            rows.push((track.title.as_str(), id));
            i += 1;
        }
        rows
    }
}

} // verus!
