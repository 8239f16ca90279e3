//! The single writer of the playback session: it takes the commands of the
//! front ends and the reports of the audio backend one at a time, in one
//! stream, and answers each with the new state, the instruction for the
//! backend and the notifications to publish.
use crate::models::{Track, TrackStatus};
use crate::notification::{ClockTime, Notification, NotificationView};
use crate::state::{state_after, EngineSignal, State};
use crate::tracklist::{
    at_most_one_playing, has_status, law_playing_count, lemma_one_selected,
    lemma_positions_below, playing_track, positions, queue_with_status, total_of,
    tracks_in_order, tracks_with_status, TrackListType, Tracklist, TracklistView,
};
use crate::walk::entries;
use std::collections::BTreeMap;
use vstd::prelude::*;

verus! {

/// Why a command was turned down.
#[derive(Debug, Clone, Copy, PartialEq, Eq, Structural)]
pub enum Rejection {
    /// The session has quit.
    Stopped,
    /// No media is loaded.
    NotReady,
    /// No track is playing.
    NothingPlaying,
    /// The queue holds no track at the position.
    NoSuchPosition,
    /// The offset lies beyond the end of the playing track.
    SeekBeyondDuration,
    /// The volume is above 100.
    VolumeOutOfRange,
    /// The tracklist to load marks a track as playing already.
    InvalidSource,
}

/// What the audio backend is told to do.
#[derive(Debug, Clone, Copy, PartialEq, Eq, Structural)]
pub enum Instruction {
    Load { track_id: u32 },
    Play,
    Pause,
    Seek { seconds: u32 },
    SetVolume { volume: u32 },
}

/// One item of the writer's stream: a command of a front end or a report of
/// the audio backend.
#[derive(Debug, Clone, PartialEq)]
pub enum Input {
    Load { tracklist: Tracklist },
    Play,
    Pause,
    Next,
    Previous,
    Seek { seconds: u32 },
    SetVolume { volume: u32 },
    SkipTo { position: u32 },
    Quit,
    /// The backend changed its status.
    Signal { signal: EngineSignal },
    /// The backend advanced.
    Position { clock: ClockTime },
    /// The backend failed.
    Failure { message: String },
}

/// The answer to one input.
#[derive(Debug, PartialEq)]
pub struct Outcome {
    pub result: Result<(), Rejection>,
    pub instruction: Option<Instruction>,
    pub notifications: Vec<Notification>,
}

/// An answer as a mathematical value.
pub struct OutcomeView {
    pub result: Result<(), Rejection>,
    pub instruction: Option<Instruction>,
    pub notifications: Seq<NotificationView>,
}

/// The notifications of a sequence as mathematical values.
pub open spec fn views(notifications: Seq<Notification>) -> Seq<NotificationView> {
    notifications.map_values(|n: Notification| n@)
}

impl View for Outcome {
    type V = OutcomeView;

    open spec fn view(&self) -> OutcomeView {
        OutcomeView {
            result: self.result,
            instruction: self.instruction,
            notifications: views(self.notifications@),
        }
    }
}

/// The shared state of the session.
pub struct Player {
    tracklist: Tracklist,
    state: State,
    volume: u32,
    stopped: bool,
}

/// The session's state as a mathematical value.
pub struct PlayerView {
    pub tracklist: TracklistView,
    pub state: State,
    pub volume: u32,
    pub stopped: bool,
}

/// The index in `order`, from `i` on, of the first position whose track is
/// playing; the length of `order` where there is none.
pub open spec fn first_playing_from(queue: Map<u32, Track>, order: Seq<u32>, i: int) -> int
    decreases order.len() - i,
{
    if i < 0 || i >= order.len() {
        order.len() as int
    } else if queue[order[i]].status == TrackStatus::Playing {
        i
    } else {
        first_playing_from(queue, order, i + 1)
    }
}

/// The index in playback order of the playing track; the length of the queue
/// where none is playing.
pub open spec fn playing_index(queue: Map<u32, Track>) -> int {
    first_playing_from(queue, positions(queue), 0)
}

/// The position of the playing track.
pub open spec fn playing_position(queue: Map<u32, Track>) -> Option<u32> {
    let i = playing_index(queue);
    if i < positions(queue).len() {
        Some(positions(queue)[i])
    } else {
        None
    }
}

/// The position that follows the playing track's.
pub open spec fn next_position(queue: Map<u32, Track>) -> Option<u32> {
    let i = playing_index(queue);
    if i + 1 < positions(queue).len() {
        Some(positions(queue)[i + 1])
    } else {
        None
    }
}

/// The position that precedes the playing track's.
pub open spec fn previous_position(queue: Map<u32, Track>) -> Option<u32> {
    let i = playing_index(queue);
    if 1 <= i < positions(queue).len() {
        Some(positions(queue)[i - 1])
    } else {
        None
    }
}

/// The first position of the queue.
pub open spec fn first_position(queue: Map<u32, Track>) -> Option<u32> {
    if positions(queue).len() > 0 {
        Some(positions(queue)[0])
    } else {
        None
    }
}

/// The queue after playback moved to `to`: the track at `from`, if any, gets
/// `left_as`, then the track at `to` is playing.
pub open spec fn moved(
    queue: Map<u32, Track>,
    from: Option<u32>,
    left_as: TrackStatus,
    to: u32,
) -> Map<u32, Track> {
    let left = match from {
        Some(f) => queue_with_status(queue, f, left_as),
        None => queue,
    };
    queue_with_status(left, to, TrackStatus::Playing)
}

/// The status that the playing track at `from` is left with when playback
/// moves to `to`: played where it is not behind `to`, unplayed where it is.
pub open spec fn left_status(from: u32, to: u32) -> TrackStatus {
    if from <= to {
        TrackStatus::Played
    } else {
        TrackStatus::Unplayed
    }
}

/// An answer that changes nothing and publishes nothing.
pub open spec fn quiet(
    result: Result<(), Rejection>,
    instruction: Option<Instruction>,
) -> OutcomeView {
    OutcomeView { result, instruction, notifications: Seq::empty() }
}

/// State and answer after playback moved from the playing track to `to`:
/// the backend loads the track at `to` and the new tracklist is published.
pub open spec fn step_move(player: PlayerView, to: u32) -> (PlayerView, OutcomeView) {
    let queue = player.tracklist.queue;
    let from = playing_position(queue);
    let left_as = match from {
        Some(f) => left_status(f, to),
        None => TrackStatus::Played,
    };
    let tracklist = TracklistView { queue: moved(queue, from, left_as, to), ..player.tracklist };
    (
        PlayerView { tracklist, ..player },
        OutcomeView {
            result: Ok(()),
            instruction: Some(Instruction::Load { track_id: queue[to].id }),
            notifications: seq![NotificationView::CurrentTrackList { list: tracklist }],
        },
    )
}

/// State and answer after a tracklist was handed in to replace the current
/// one. A list that marks a track as playing is turned down. Otherwise it
/// replaces the current one whole, with its first track playing.
pub open spec fn step_load(player: PlayerView, loaded: TracklistView) -> (PlayerView, OutcomeView) {
    if playing_position(loaded.queue) is Some {
        (player, quiet(Err(Rejection::InvalidSource), None))
    } else {
        match first_position(loaded.queue) {
            Some(first) => step_move(PlayerView { tracklist: loaded, ..player }, first),
            None => (
                PlayerView { tracklist: loaded, ..player },
                OutcomeView {
                    result: Ok(()),
                    instruction: None,
                    notifications: seq![NotificationView::CurrentTrackList { list: loaded }],
                },
            ),
        }
    }
}

/// State and answer after one input.
///
/// Once the session has quit every input is turned down. Before that:
/// `Play` and `Pause` instruct the backend where its status calls for it, and
/// `Play` is turned down while no media is loaded; `Next` and `Previous` move
/// playback to the neighbouring position and do nothing at the ends of the
/// queue; `SkipTo` moves it to an occupied position; `Seek` is passed on up to
/// the playing track's duration; `SetVolume` takes 0 to 100; `Quit` publishes
/// the shutdown. A status signal publishes the new status where it differs
/// from the old one; a position is published as it is; a failure of the
/// backend is published and changes nothing.
pub open spec fn step(player: PlayerView, input: Input) -> (PlayerView, OutcomeView) {
    let queue = player.tracklist.queue;
    if player.stopped {
        (player, quiet(Err(Rejection::Stopped), None))
    } else {
        match input {
            Input::Load { tracklist } => step_load(player, tracklist@),
            Input::Play => match player.state {
                State::Ready | State::Paused => (player, quiet(Ok(()), Some(Instruction::Play))),
                State::Playing => (player, quiet(Ok(()), None)),
                _ => (player, quiet(Err(Rejection::NotReady), None)),
            },
            Input::Pause => if player.state == State::Playing {
                (player, quiet(Ok(()), Some(Instruction::Pause)))
            } else {
                (player, quiet(Ok(()), None))
            },
            Input::Next => match next_position(queue) {
                Some(to) => step_move(player, to),
                None => (player, quiet(Ok(()), None)),
            },
            Input::Previous => match previous_position(queue) {
                Some(to) => step_move(player, to),
                None => (player, quiet(Ok(()), None)),
            },
            Input::SkipTo { position } => if queue.contains_key(position) {
                step_move(player, position)
            } else {
                (player, quiet(Err(Rejection::NoSuchPosition), None))
            },
            Input::Seek { seconds } => match playing_position(queue) {
                Some(at) => if seconds <= queue[at].duration_seconds {
                    (player, quiet(Ok(()), Some(Instruction::Seek { seconds })))
                } else {
                    (player, quiet(Err(Rejection::SeekBeyondDuration), None))
                },
                None => (player, quiet(Err(Rejection::NothingPlaying), None)),
            },
            Input::SetVolume { volume } => if volume <= 100 {
                (
                    PlayerView { volume, ..player },
                    OutcomeView {
                        result: Ok(()),
                        instruction: Some(Instruction::SetVolume { volume }),
                        notifications: seq![NotificationView::Volume { volume }],
                    },
                )
            } else {
                (player, quiet(Err(Rejection::VolumeOutOfRange), None))
            },
            Input::Quit => (
                PlayerView { stopped: true, ..player },
                OutcomeView {
                    result: Ok(()),
                    instruction: None,
                    notifications: seq![NotificationView::Quit],
                },
            ),
            Input::Signal { signal } => {
                let status = state_after(player.state, signal);
                if status == player.state {
                    (player, quiet(Ok(()), None))
                } else {
                    (
                        PlayerView { state: status, ..player },
                        OutcomeView {
                            result: Ok(()),
                            instruction: None,
                            notifications: seq![NotificationView::Status { status }],
                        },
                    )
                }
            },
            Input::Position { clock } => (
                player,
                OutcomeView {
                    result: Ok(()),
                    instruction: None,
                    notifications: seq![NotificationView::Position { clock }],
                },
            ),
            Input::Failure { message } => (
                player,
                OutcomeView {
                    result: Ok(()),
                    instruction: None,
                    notifications: seq![NotificationView::Error { error: message@ }],
                },
            ),
        }
    }
}

/// The state after a sequence of inputs, taken one at a time.
pub open spec fn state_after_all(player: PlayerView, inputs: Seq<Input>) -> PlayerView
    decreases inputs.len(),
{
    if inputs.len() == 0 {
        player
    } else {
        state_after_all(step(player, inputs[0]).0, inputs.skip(1))
    }
}

/// The notifications that a sequence of inputs publishes, in order.
pub open spec fn published(player: PlayerView, inputs: Seq<Input>) -> Seq<NotificationView>
    decreases inputs.len(),
{
    if inputs.len() == 0 {
        Seq::empty()
    } else {
        step(player, inputs[0]).1.notifications + published(
            step(player, inputs[0]).0,
            inputs.skip(1),
        )
    }
}

/// The state that the writer keeps to: no two tracks are playing, and the
/// volume is at most 100.
pub open spec fn coherent(player: PlayerView) -> bool {
    at_most_one_playing(player.tracklist.queue) && player.volume <= 100
}

/// Where the playing track is found, with its neighbours.
struct Cursor {
    previous: Option<u32>,
    playing: Option<u32>,
    next: Option<u32>,
    first: Option<u32>,
    /// The playing track's duration in seconds.
    duration: u32,
}

/// `first_playing_from` gives an index from `i` to the length of `order`;
/// the track there is playing, and none between `i` and there is.
pub proof fn lemma_first_playing(queue: Map<u32, Track>, order: Seq<u32>, i: int)
    requires
        0 <= i <= order.len(),
    ensures
        i <= first_playing_from(queue, order, i) <= order.len(),
        first_playing_from(queue, order, i) < order.len() ==> queue[order[first_playing_from(
            queue,
            order,
            i,
        )]].status == TrackStatus::Playing,
        forall|j: int|
            i <= j < first_playing_from(queue, order, i) ==> queue[#[trigger] order[j]].status
                != TrackStatus::Playing,
    decreases order.len() - i,
{
    if i < order.len() && queue[order[i]].status != TrackStatus::Playing {
        lemma_first_playing(queue, order, i + 1);
    }
}

/// Where no two tracks are playing, moving playback from the playing track
/// (or from none) to an occupied position leaves no two tracks playing.
pub proof fn lemma_moved_one_playing(queue: Map<u32, Track>, left_as: TrackStatus, to: u32)
    requires
        at_most_one_playing(queue),
        left_as != TrackStatus::Playing,
    ensures
        at_most_one_playing(moved(queue, playing_position(queue), left_as, to)),
{
    let order = positions(queue);
    let from = playing_position(queue);
    lemma_positions_below(queue, 0x1_0000_0000);
    lemma_first_playing(queue, order, 0);
    let left = match from {
        Some(f) => queue_with_status(queue, f, left_as),
        None => queue,
    };
    assert forall|p: u32| left.contains_key(p) implies left[p].status
        != TrackStatus::Playing by {
        assert(queue.contains_key(p));
        match from {
            Some(f) => {
                assert(order.contains(f));
                assert(queue.contains_key(f));
            },
            None => {
                assert(order.contains(p));
                let j = choose|j: int| 0 <= j < order.len() && order[j] == p;
                assert(queue[order[j]].status != TrackStatus::Playing);
            },
        }
    }
}

/// The track that is playing is the one at the playing position.
pub proof fn law_playing_track_at_playing_position(queue: Map<u32, Track>)
    ensures
        playing_track(queue) == match playing_position(queue) {
            Some(at) => Some(queue[at]),
            None => None::<Track>,
        },
{
    let order = positions(queue);
    let tracks = tracks_in_order(queue);
    let pred = has_status(TrackStatus::Playing);
    lemma_first_playing(queue, order, 0);
    let i = playing_index(queue);
    let head = tracks.take(i);
    let tail = tracks.skip(i);
    assert(tracks =~= head + tail);
    Seq::filter_distributes_over_add(head, tail, pred);
    if head.filter(pred).len() >= 1 {
        lemma_one_selected(head, pred);
        let j = choose|j: int| 0 <= j < head.len() && pred(head[j]);
        assert(head[j] == queue[order[j]]);
    }
    assert(Seq::<Track>::empty().filter(pred) =~= Seq::<Track>::empty()) by {
        reveal(Seq::filter);
    }
    if i < order.len() {
        let one = Seq::<Track>::empty().push(tracks[i]);
        let rest = tracks.skip(i + 1);
        assert(tail =~= one + rest);
        Seq::filter_distributes_over_add(one, rest, pred);
        Seq::<Track>::empty().lemma_filter_push(tracks[i], pred);
        assert(tracks.filter(pred)[0] == tracks[i]);
    } else {
        assert(tail =~= Seq::<Track>::empty());
    }
}

/// Where no track is playing, no two are.
pub proof fn lemma_none_playing(queue: Map<u32, Track>)
    requires
        playing_position(queue) is None,
    ensures
        forall|p: u32| queue.contains_key(p) ==> queue[p].status != TrackStatus::Playing,
        at_most_one_playing(queue),
{
    let order = positions(queue);
    lemma_positions_below(queue, 0x1_0000_0000);
    lemma_first_playing(queue, order, 0);
    assert forall|p: u32| queue.contains_key(p) implies queue[p].status
        != TrackStatus::Playing by {
        assert(order.contains(p));
        let j = choose|j: int| 0 <= j < order.len() && order[j] == p;
        assert(queue[order[j]].status != TrackStatus::Playing);
    }
}

/// Every step keeps the state coherent.
pub proof fn law_step_keeps_coherent(player: PlayerView, input: Input)
    requires
        coherent(player),
    ensures
        coherent(step(player, input).0),
{
    let queue = player.tracklist.queue;
    lemma_positions_below(queue, 0x1_0000_0000);
    if !player.stopped {
        match input {
            Input::Load { tracklist } => {
                let loaded = tracklist@;
                if playing_position(loaded.queue) is None {
                    lemma_none_playing(loaded.queue);
                    match first_position(loaded.queue) {
                        Some(first) => {
                            lemma_moved_one_playing(loaded.queue, TrackStatus::Played, first);
                        },
                        None => {},
                    }
                }
            },
            Input::Next => match next_position(queue) {
                Some(to) => {
                    lemma_moved_one_playing(queue, TrackStatus::Played, to);
                    lemma_moved_one_playing(queue, TrackStatus::Unplayed, to);
                },
                None => {},
            },
            Input::Previous => match previous_position(queue) {
                Some(to) => {
                    lemma_moved_one_playing(queue, TrackStatus::Played, to);
                    lemma_moved_one_playing(queue, TrackStatus::Unplayed, to);
                },
                None => {},
            },
            Input::SkipTo { position } => {
                lemma_moved_one_playing(queue, TrackStatus::Played, position);
                lemma_moved_one_playing(queue, TrackStatus::Unplayed, position);
            },
            _ => {},
        }
    }
}

/// Every state that a coherent one reaches is coherent: at no time are two
/// tracks playing.
pub proof fn law_reachable_states_coherent(player: PlayerView, inputs: Seq<Input>)
    requires
        coherent(player),
    ensures
        coherent(state_after_all(player, inputs)),
    decreases inputs.len(),
{
    if inputs.len() > 0 {
        law_step_keeps_coherent(player, inputs[0]);
        law_reachable_states_coherent(step(player, inputs[0]).0, inputs.skip(1));
    }
}

/// In every state that a coherent one reaches, the tracks that are playing
/// number one at most.
pub proof fn law_one_playing_in_reachable_states(player: PlayerView, inputs: Seq<Input>)
    requires
        coherent(player),
    ensures
        tracks_with_status(
            state_after_all(player, inputs).tracklist.queue,
            TrackStatus::Playing,
        ).len() <= 1,
{
    law_reachable_states_coherent(player, inputs);
    law_playing_count(state_after_all(player, inputs).tracklist.queue);
}

/// The notifications of inputs taken earlier all come before those of inputs
/// taken later: what `first` followed by `second` publishes is what `first`
/// publishes, followed by what `second` publishes from the state that `first`
/// left.
pub proof fn law_notifications_in_order(player: PlayerView, first: Seq<Input>, second: Seq<Input>)
    ensures
        published(player, first + second) == published(player, first) + published(
            state_after_all(player, first),
            second,
        ),
        state_after_all(player, first + second) == state_after_all(
            state_after_all(player, first),
            second,
        ),
    decreases first.len(),
{
    if first.len() == 0 {
        assert(first + second =~= second);
        assert(published(player, first) + published(player, second) =~= published(
            player,
            second,
        ));
    } else {
        let next = step(player, first[0]).0;
        assert((first + second)[0] == first[0]);
        assert((first + second).skip(1) =~= first.skip(1) + second);
        law_notifications_in_order(next, first.skip(1), second);
        assert(published(player, first + second) =~= published(player, first) + published(
            state_after_all(player, first),
            second,
        ));
    }
}

/// Once the session has quit nothing changes and nothing is published.
pub proof fn law_nothing_after_quit(player: PlayerView, inputs: Seq<Input>)
    requires
        player.stopped,
    ensures
        state_after_all(player, inputs) == player,
        published(player, inputs) == Seq::<NotificationView>::empty(),
    decreases inputs.len(),
{
    if inputs.len() > 0 {
        law_nothing_after_quit(player, inputs.skip(1));
        assert(published(player, inputs) =~= Seq::<NotificationView>::empty());
    }
}

impl View for Player {
    type V = PlayerView;

    closed spec fn view(&self) -> PlayerView {
        PlayerView {
            tracklist: self.tracklist@,
            state: self.state,
            volume: self.volume,
            stopped: self.stopped,
        }
    }
}

/// Where the playing track of a queue is found.
fn locate(queue: &BTreeMap<u32, Track>) -> (cursor: Cursor)
    ensures
        cursor.previous == previous_position(queue@),
        cursor.playing == playing_position(queue@),
        cursor.next == next_position(queue@),
        cursor.first == first_position(queue@),
        cursor.playing matches Some(at) ==> queue@.contains_key(at) && cursor.duration
            == queue@[at].duration_seconds,
{
    let all = entries(queue);
    let ghost order = positions(queue@);
    let mut i: usize = 0;
    while i < all.len() && all[i].1.status != TrackStatus::Playing
        invariant
            0 <= i <= all.len(),
            order == positions(queue@),
            order.len() == all.len(),
            forall|k: int|
                0 <= k < all.len() ==> {
                    &&& (#[trigger] all@[k]).0 == order[k]
                    &&& queue@.contains_key(all@[k].0)
                    &&& *all@[k].1 == queue@[all@[k].0]
                },
            first_playing_from(queue@, order, 0) == first_playing_from(queue@, order, i as int),
        decreases all.len() - i,
    {
        i += 1;
    }
    let first = if all.len() > 0 {
        Some(all[0].0)
    } else {
        None
    };
    if i < all.len() {
        let previous = if i >= 1 {
            Some(all[i - 1].0)
        } else {
            None
        };
        let next = if i + 1 < all.len() {
            Some(all[i + 1].0)
        } else {
            None
        };
        Cursor {
            previous,
            playing: Some(all[i].0),
            next,
            first,
            duration: all[i].1.duration_seconds,
        }
    } else {
        Cursor { previous: None, playing: None, next: None, first, duration: 0 }
    }
}

/// An answer that publishes nothing.
fn quiet_outcome(result: Result<(), Rejection>, instruction: Option<Instruction>) -> (outcome:
    Outcome)
    ensures
        outcome@ == quiet(result, instruction),
{
    let outcome = Outcome { result, instruction, notifications: Vec::new() };
    proof {
        assert(outcome@.notifications =~= Seq::<NotificationView>::empty());
    }
    outcome
}

/// An answer that accepts the input and publishes one notification.
fn telling(instruction: Option<Instruction>, notification: Notification) -> (outcome: Outcome)
    ensures
        outcome@ == (OutcomeView {
            result: Ok(()),
            instruction,
            notifications: seq![notification@],
        }),
{
    let mut notifications: Vec<Notification> = Vec::new();
    notifications.push(notification);
    let outcome = Outcome { result: Ok(()), instruction, notifications };
    proof {
        assert(outcome@.notifications =~= seq![notification@]);
    }
    outcome
}

impl Player {
    /// A session that has just started: nothing queued, the backend being set
    /// up, full volume.
    pub fn new() -> (player: Player)
        ensures
            coherent(player@),
            player@.tracklist.queue == Map::<u32, Track>::empty(),
            player@.tracklist.album is None,
            player@.tracklist.playlist is None,
            player@.tracklist.list_type == TrackListType::Unknown,
            player@.state == State::VoidPending,
            player@.volume == 100,
            !player@.stopped,
    {
        Player {
            tracklist: Tracklist::new(None),
            state: State::VoidPending,
            volume: 100,
            stopped: false,
        }
    }

    /// Moves playback to the occupied position `to`.
    fn move_to(&mut self, playing: Option<u32>, to: u32) -> (outcome: Outcome)
        requires
            coherent(old(self)@),
            old(self)@.tracklist.queue.contains_key(to),
            playing == playing_position(old(self)@.tracklist.queue),
        ensures
            coherent(final(self)@),
            final(self)@ == step_move(old(self)@, to).0,
            outcome@ == step_move(old(self)@, to).1,
    {
        let left_as = match playing {
            Some(from) => if from <= to {
                TrackStatus::Played
            } else {
                TrackStatus::Unplayed
            },
            None => TrackStatus::Played,
        };
        let track_id = match self.tracklist.queue.get(&to) {
            Some(track) => track.id,
            None => 0,
        };
        match playing {
            Some(from) => {
                self.tracklist.set_track_status(from, left_as);
            },
            None => {},
        }
        self.tracklist.set_track_status(to, TrackStatus::Playing);
        proof {
            lemma_moved_one_playing(old(self)@.tracklist.queue, left_as, to);
        }
        let list = self.tracklist.clone();
        telling(Some(Instruction::Load { track_id }), Notification::CurrentTrackList { list })
    }

    /// Takes one input: changes the state as `step` says and answers with the
    /// instruction for the backend and the notifications to publish.
    pub fn handle(&mut self, input: &Input) -> (outcome: Outcome)
        requires
            coherent(old(self)@),
        ensures
            coherent(final(self)@),
            final(self)@ == step(old(self)@, *input).0,
            outcome@ == step(old(self)@, *input).1,
    {
        if self.stopped {
            return quiet_outcome(Err(Rejection::Stopped), None);
        }
        match input {
            Input::Load { tracklist } => {
                let cursor = locate(&tracklist.queue);
                if cursor.playing.is_some() {
                    quiet_outcome(Err(Rejection::InvalidSource), None)
                } else {
                    proof {
                        lemma_none_playing(tracklist@.queue);
                        lemma_positions_below(tracklist@.queue, 0x1_0000_0000);
                    }
                    self.tracklist = tracklist.clone();
                    match cursor.first {
                        Some(first) => {
                            proof {
                                assert(positions(tracklist@.queue).contains(
                                    positions(tracklist@.queue)[0],
                                ));
                            }
                            self.move_to(None, first)
                        },
                        None => {
                            let list = self.tracklist.clone();
                            telling(None, Notification::CurrentTrackList { list })
                        },
                    }
                }
            },
            Input::Play => match self.state {
                State::Ready | State::Paused => quiet_outcome(Ok(()), Some(Instruction::Play)),
                State::Playing => quiet_outcome(Ok(()), None),
                _ => quiet_outcome(Err(Rejection::NotReady), None),
            },
            Input::Pause => match self.state {
                State::Playing => quiet_outcome(Ok(()), Some(Instruction::Pause)),
                _ => quiet_outcome(Ok(()), None),
            },
            Input::Next => {
                let cursor = locate(&self.tracklist.queue);
                match cursor.next {
                    Some(to) => {
                        proof {
                            let order = positions(self.tracklist.queue@);
                            lemma_positions_below(self.tracklist.queue@, 0x1_0000_0000);
                            lemma_first_playing(self.tracklist.queue@, order, 0);
                            assert(order.contains(order[playing_index(self.tracklist.queue@) + 1]));
                        }
                        self.move_to(cursor.playing, to)
                    },
                    None => quiet_outcome(Ok(()), None),
                }
            },
            Input::Previous => {
                let cursor = locate(&self.tracklist.queue);
                match cursor.previous {
                    Some(to) => {
                        proof {
                            let order = positions(self.tracklist.queue@);
                            lemma_positions_below(self.tracklist.queue@, 0x1_0000_0000);
                            assert(order.contains(order[playing_index(self.tracklist.queue@) - 1]));
                        }
                        self.move_to(cursor.playing, to)
                    },
                    None => quiet_outcome(Ok(()), None),
                }
            },
            Input::SkipTo { position } => {
                if self.tracklist.queue.contains_key(position) {
                    let cursor = locate(&self.tracklist.queue);
                    self.move_to(cursor.playing, *position)
                } else {
                    quiet_outcome(Err(Rejection::NoSuchPosition), None)
                }
            },
            Input::Seek { seconds } => {
                let cursor = locate(&self.tracklist.queue);
                match cursor.playing {
                    Some(_) => if *seconds <= cursor.duration {
                        quiet_outcome(Ok(()), Some(Instruction::Seek { seconds: *seconds }))
                    } else {
                        quiet_outcome(Err(Rejection::SeekBeyondDuration), None)
                    },
                    None => quiet_outcome(Err(Rejection::NothingPlaying), None),
                }
            },
            Input::SetVolume { volume } => {
                if *volume <= 100 {
                    self.volume = *volume;
                    telling(
                        Some(Instruction::SetVolume { volume: *volume }),
                        Notification::Volume { volume: *volume },
                    )
                } else {
                    quiet_outcome(Err(Rejection::VolumeOutOfRange), None)
                }
            },
            Input::Quit => {
                self.stopped = true;
                telling(None, Notification::Quit)
            },
            Input::Signal { signal } => {
                let status = self.state.after(*signal);
                if status == self.state {
                    quiet_outcome(Ok(()), None)
                } else {
                    self.state = status;
                    telling(None, Notification::Status { status })
                }
            },
            Input::Position { clock } => telling(None, Notification::Position { clock: *clock }),
            Input::Failure { message } => telling(
                None,
                Notification::Error { error: message.clone() },
            ),
        }
    }

    /// Takes the inputs one at a time, in their order, and gives back all that
    /// they publish, in the order of publication.
    pub fn run(&mut self, inputs: &Vec<Input>) -> (notifications: Vec<Notification>)
        requires
            coherent(old(self)@),
        ensures
            coherent(final(self)@),
            final(self)@ == state_after_all(old(self)@, inputs@),
            views(notifications@) == published(old(self)@, inputs@),
    {
        let mut notifications: Vec<Notification> = Vec::new();
        let mut i: usize = 0;
        proof {
            assert(inputs@.skip(0) =~= inputs@);
            assert(views(notifications@) + published(self@, inputs@) =~= published(
                self@,
                inputs@,
            ));
        }
        while i < inputs.len()
            invariant
                0 <= i <= inputs.len(),
                coherent(self@),
                state_after_all(old(self)@, inputs@) == state_after_all(
                    self@,
                    inputs@.skip(i as int),
                ),
                published(old(self)@, inputs@) == views(notifications@) + published(
                    self@,
                    inputs@.skip(i as int),
                ),
            decreases inputs.len() - i,
        {
            let ghost before = self@;
            let ghost told = notifications@;
            let ghost rest = inputs@.skip(i as int);
            let mut outcome = self.handle(&inputs[i]);
            let ghost added = outcome.notifications@;
            notifications.append(&mut outcome.notifications);
            proof {
                assert(rest[0] == inputs@[i as int]);
                assert(rest.skip(1) =~= inputs@.skip(i + 1));
                assert(views(notifications@) =~= views(told) + views(added));
                assert(views(told) + published(before, rest) =~= views(notifications@)
                    + published(self@, inputs@.skip(i + 1)));
            }
            i += 1;
        }
        notifications
    }

    /// A copy of the tracklist as it is now.
    pub fn current_tracklist(&self) -> (list: Tracklist)
        ensures
            list@ == self@.tracklist,
    {
        self.tracklist.clone()
    }

    pub fn current_state(&self) -> (state: State)
        ensures
            state == self@.state,
    {
        self.state
    }

    /// A copy of the track that is playing.
    pub fn current_track(&self) -> (track: Option<Track>)
        ensures
            track == playing_track(self@.tracklist.queue),
    {
        match self.tracklist.current_track() {
            Some(track) => Some(track.clone()),
            None => None,
        }
    }

    pub fn total(&self) -> (total: u32)
        ensures
            total == total_of(self@.tracklist),
    {
        self.tracklist.total()
    }

    pub fn list_type(&self) -> (kind: TrackListType)
        ensures
            kind == self@.tracklist.list_type,
    {
        self.tracklist.list_type
    }

    pub fn volume(&self) -> (volume: u32)
        ensures
            volume == self@.volume,
    {
        self.volume
    }

    /// Whether the session has quit.
    pub fn is_stopped(&self) -> (stopped: bool)
        ensures
            stopped == self@.stopped,
    {
        self.stopped
    }
}

} // verus!
