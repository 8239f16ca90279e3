use qobuz_player_controls::notification::{
    forward, is_last, server_sent_event, ClockTime, Forwarding, Notification, Received,
    ServerSentEvent,
};
use qobuz_player_controls::state::{EngineSignal, State};
use qobuz_player_controls::text::decimal_text;
use qobuz_player_controls::tracklist::Tracklist;

fn event(name: &str, data: &str) -> ServerSentEvent {
    ServerSentEvent { event_name: name.to_string(), event_data: data.to_string() }
}

#[test]
fn session_starts_void_pending() {
    assert_eq!(State::initial(), State::VoidPending);
}

#[test]
fn signals_decide_the_state() {
    let all = [State::VoidPending, State::Null, State::Ready, State::Paused, State::Playing];
    for s in all {
        assert_eq!(s.after(EngineSignal::LoadStarted), State::Null);
        assert_eq!(s.after(EngineSignal::LoadComplete), State::Ready);
        assert_eq!(s.after(EngineSignal::PlayStarted), State::Playing);
        assert_eq!(s.after(EngineSignal::Paused), State::Paused);
        assert_eq!(s.after(EngineSignal::Stopped), State::Null);
    }
}

#[test]
fn only_playing_is_shown_as_play() {
    assert!(State::Playing.is_playing());
    assert_eq!(State::Playing.wire_name(), "play");
    for s in [State::VoidPending, State::Null, State::Ready, State::Paused] {
        assert!(!s.is_playing());
        assert_eq!(s.wire_name(), "pause");
    }
}

#[test]
fn decimal_text_matches_std() {
    for n in [0u64, 1, 9, 10, 11, 99, 100, 101, 105, 1234567890, u32::MAX as u64, u64::MAX] {
        assert_eq!(decimal_text(n), n.to_string());
    }
    assert_eq!(decimal_text(4070), "4070");
}

#[test]
fn clock_time_gives_whole_seconds() {
    assert_eq!(ClockTime { nanoseconds: 0 }.seconds(), 0);
    assert_eq!(ClockTime { nanoseconds: 999_999_999 }.seconds(), 0);
    assert_eq!(ClockTime { nanoseconds: 1_000_000_000 }.seconds(), 1);
    assert_eq!(ClockTime { nanoseconds: 95_500_000_000 }.seconds(), 95);
    assert_eq!(ClockTime { nanoseconds: u64::MAX }.seconds(), 18_446_744_073);
}

#[test]
fn events_have_the_wire_shape() {
    assert_eq!(
        server_sent_event(&Notification::Status { status: State::Playing }),
        Some(event("status", "play"))
    );
    for s in [State::VoidPending, State::Null, State::Ready, State::Paused] {
        assert_eq!(
            server_sent_event(&Notification::Status { status: s }),
            Some(event("status", "pause"))
        );
    }
    assert_eq!(
        server_sent_event(&Notification::Position {
            clock: ClockTime { nanoseconds: 125_900_000_000 }
        }),
        Some(event("position", "125"))
    );
    assert_eq!(
        server_sent_event(&Notification::CurrentTrackList { list: Tracklist::new(None) }),
        Some(event("tracklist", ""))
    );
    assert_eq!(
        server_sent_event(&Notification::Volume { volume: 0 }),
        Some(event("volume", "0"))
    );
    assert_eq!(
        server_sent_event(&Notification::Volume { volume: 100 }),
        Some(event("volume", "100"))
    );
    assert_eq!(server_sent_event(&Notification::Quit), None);
    assert_eq!(server_sent_event(&Notification::Error { error: "boom".to_string() }), None);
}

#[test]
fn quit_and_closed_end_the_loop() {
    assert!(is_last(&Received::Message { notification: Notification::Quit }));
    assert!(is_last(&Received::Closed));
    assert!(!is_last(&Received::Lagged { dropped: 3 }));
    assert!(!is_last(&Received::Message { notification: Notification::Volume { volume: 3 } }));
    assert!(!is_last(&Received::Message {
        notification: Notification::Error { error: "x".to_string() }
    }));
}

#[test]
fn forwarding_steps() {
    assert_eq!(
        forward(&Received::Message { notification: Notification::Quit }),
        Forwarding::Stop
    );
    assert_eq!(forward(&Received::Closed), Forwarding::Stop);
    assert_eq!(forward(&Received::Lagged { dropped: 7 }), Forwarding::Skip);
    assert_eq!(
        forward(&Received::Message {
            notification: Notification::Error { error: "x".to_string() }
        }),
        Forwarding::Skip
    );
    assert_eq!(
        forward(&Received::Message { notification: Notification::Volume { volume: 42 } }),
        Forwarding::Forward { event: event("volume", "42") }
    );
}

#[test]
fn notification_clone_is_equal() {
    let all = vec![
        Notification::Status { status: State::Ready },
        Notification::Position { clock: ClockTime { nanoseconds: 5 } },
        Notification::CurrentTrackList { list: Tracklist::new(None) },
        Notification::Quit,
        Notification::Error { error: "e".to_string() },
        Notification::Volume { volume: 9 },
    ];
    for n in &all {
        assert_eq!(&n.clone(), n);
    }
}
