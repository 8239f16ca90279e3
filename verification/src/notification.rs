//! What the player tells its front ends, and what a front end makes of it.
use crate::state::{wire_name_of, State};
use crate::text::{decimal, decimal_text};
use crate::tracklist::{Tracklist, TracklistView};
use vstd::prelude::*;
use vstd::string::StringExecFns;

verus! {

/// A span of playback time.
#[derive(Debug, Clone, Copy, PartialEq, Eq, Structural)]
pub struct ClockTime {
    pub nanoseconds: u64,
}

impl ClockTime {
    /// The whole seconds of the span.
    pub fn seconds(self) -> (seconds: u64)
        ensures
            seconds == self.nanoseconds / 1_000_000_000,
    {
        self.nanoseconds / 1_000_000_000
    }
}

/// A change of the playback session, as every front end is told of it.
#[derive(Debug, PartialEq)]
pub enum Notification {
    Status { status: State },
    Position { clock: ClockTime },
    CurrentTrackList { list: Tracklist },
    Quit,
    Error { error: String },
    Volume { volume: u32 },
}

/// A notification as a mathematical value.
pub enum NotificationView {
    Status { status: State },
    Position { clock: ClockTime },
    CurrentTrackList { list: TracklistView },
    Quit,
    Error { error: Seq<char> },
    Volume { volume: u32 },
}

impl View for Notification {
    type V = NotificationView;

    open spec fn view(&self) -> NotificationView {
        match *self {
            Notification::Status { status } => NotificationView::Status { status },
            Notification::Position { clock } => NotificationView::Position { clock },
            Notification::CurrentTrackList { list } => NotificationView::CurrentTrackList {
                list: list@,
            },
            Notification::Quit => NotificationView::Quit,
            Notification::Error { error } => NotificationView::Error { error: error@ },
            Notification::Volume { volume } => NotificationView::Volume { volume },
        }
    }
}

impl Clone for Notification {
    fn clone(&self) -> (copy: Notification)
        ensures
            copy@ == self@,
    {
        match self {
            Notification::Status { status } => Notification::Status { status: *status },
            Notification::Position { clock } => Notification::Position { clock: *clock },
            Notification::CurrentTrackList { list } => Notification::CurrentTrackList {
                list: list.clone(),
            },
            Notification::Quit => Notification::Quit,
            Notification::Error { error } => Notification::Error { error: error.clone() },
            Notification::Volume { volume } => Notification::Volume { volume: *volume },
        }
    }
}

/// An event as a browser's event stream carries it.
#[derive(Debug, Clone, PartialEq, Eq)]
pub struct ServerSentEvent {
    pub event_name: String,
    pub event_data: String,
}

/// Name and data of the event that stands for a notification on the wire;
/// `Quit` and `Error` have none. A new tracklist is announced without data:
/// the consumer fetches it.
pub open spec fn event_of(notification: NotificationView) -> Option<(Seq<char>, Seq<char>)> {
    match notification {
        NotificationView::Status { status } => Some(("status"@, wire_name_of(status))),
        NotificationView::Position { clock } => Some(
            ("position"@, decimal((clock.nanoseconds / 1_000_000_000) as nat)),
        ),
        NotificationView::CurrentTrackList { list } => Some(("tracklist"@, Seq::<char>::empty())),
        NotificationView::Volume { volume } => Some(("volume"@, decimal(volume as nat))),
        NotificationView::Quit => None,
        NotificationView::Error { error } => None,
    }
}

/// The event that stands for a notification on the wire.
pub fn server_sent_event(notification: &Notification) -> (event: Option<ServerSentEvent>)
    ensures
        match event_of(notification@) {
            Some((name, data)) => event matches Some(e) && e.event_name@ == name && e.event_data@
                == data,
            None => event is None,
        },
{
    match notification {
        Notification::Status { status } => Some(
            ServerSentEvent {
                event_name: String::from_str("status"),
                event_data: String::from_str(status.wire_name()),
            },
        ),
        Notification::Position { clock } => Some(
            ServerSentEvent {
                event_name: String::from_str("position"),
                event_data: decimal_text(clock.seconds()),
            },
        ),
        Notification::CurrentTrackList { list: _ } => Some(
            ServerSentEvent { event_name: String::from_str("tracklist"), event_data: String::new() },
        ),
        Notification::Quit => None,
        Notification::Error { error: _ } => None,
        Notification::Volume { volume } => Some(
            ServerSentEvent {
                event_name: String::from_str("volume"),
                event_data: decimal_text(*volume as u64),
            },
        ),
    }
}

/// What one receive on a subscription gave.
#[derive(Debug, PartialEq)]
pub enum Received {
    /// The next notification.
    Message { notification: Notification },
    /// The subscriber fell behind and this many notifications were dropped;
    /// the next receive gives the oldest that is still kept.
    Lagged { dropped: u64 },
    /// The producer is gone.
    Closed,
}

/// What a subscriber that forwards events does after a receive.
#[derive(Debug, PartialEq)]
pub enum Forwarding {
    /// Send the event on and receive again.
    Forward { event: ServerSentEvent },
    /// Receive again.
    Skip,
    /// Leave the loop.
    Stop,
}

/// Whether a receive ends the subscriber's loop: `Quit` does, and so does the
/// loss of the producer. Lag does not.
pub open spec fn ends_loop(received: Received) -> bool {
    match received {
        Received::Message { notification } => notification@ is Quit,
        Received::Lagged { dropped } => false,
        Received::Closed => true,
    }
}

/// Whether a receive ends the subscriber's loop.
pub fn is_last(received: &Received) -> (last: bool)
    ensures
        last == ends_loop(*received),
{
    match received {
        Received::Message { notification } => match notification {
            Notification::Quit => true,
            _ => false,
        },
        Received::Lagged { dropped: _ } => false,
        Received::Closed => true,
    }
}

/// What a forwarding subscriber does after a receive: it stops where the
/// receive ends the loop, forwards the event of a notification that has one,
/// and otherwise receives again.
pub fn forward(received: &Received) -> (step: Forwarding)
    ensures
        ends_loop(*received) <==> step is Stop,
        match *received {
            Received::Message { notification } => match event_of(notification@) {
                Some((name, data)) => step matches Forwarding::Forward { event }
                    && event.event_name@ == name && event.event_data@ == data,
                None => !(step is Forward),
            },
            _ => !(step is Forward),
        },
{
    if is_last(received) {
        Forwarding::Stop
    } else {
        match received {
            Received::Message { notification } => match server_sent_event(notification) {
                Some(event) => Forwarding::Forward { event },
                None => Forwarding::Skip,
            },
            _ => Forwarding::Skip,
        }
    }
}

} // verus!
