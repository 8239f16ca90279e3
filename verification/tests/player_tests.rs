use qobuz_player_controls::models::{Album, Artist, Track, TrackStatus};
use qobuz_player_controls::notification::{ClockTime, Notification};
use qobuz_player_controls::player::{Input, Instruction, Outcome, Player, Rejection};
use qobuz_player_controls::state::{EngineSignal, State};
use qobuz_player_controls::tracklist::{TrackListType, Tracklist};
use std::collections::BTreeMap;

fn song(id: u32, duration: u32) -> Track {
    Track {
        id,
        number: id,
        title: format!("song {id}"),
        album: None,
        artist: None,
        duration_seconds: duration,
        explicit: false,
        hires_available: false,
        cover_art: None,
        cover_art_small: None,
        status: TrackStatus::Unplayed,
    }
}

fn list_of(positions: &[u32]) -> Tracklist {
    let mut q = BTreeMap::new();
    for p in positions {
        q.insert(*p, song(1000 + p, 180));
    }
    Tracklist::new(Some(&q))
}

fn statuses(list: &Tracklist) -> Vec<(u32, TrackStatus)> {
    list.queue.iter().map(|(p, t)| (*p, t.status)).collect()
}

fn loaded(positions: &[u32]) -> Player {
    let mut player = Player::new();
    let outcome = player.handle(&Input::Load { tracklist: list_of(positions) });
    assert_eq!(outcome.result, Ok(()));
    player
}

fn quiet(result: Result<(), Rejection>, instruction: Option<Instruction>) -> Outcome {
    Outcome { result, instruction, notifications: vec![] }
}

fn playing_count(player: &Player) -> usize {
    player
        .current_tracklist()
        .all_tracks()
        .iter()
        .filter(|t| t.status == TrackStatus::Playing)
        .count()
}

#[test]
fn a_new_session() {
    let player = Player::new();
    assert_eq!(player.current_state(), State::VoidPending);
    assert_eq!(player.volume(), 100);
    assert!(!player.is_stopped());
    assert_eq!(player.current_tracklist(), Tracklist::new(None));
    assert_eq!(player.current_track(), None);
    assert_eq!(player.total(), 0);
    assert_eq!(player.list_type(), TrackListType::Unknown);
}

#[test]
fn load_starts_the_first_track() {
    let mut player = Player::new();
    let mut list = list_of(&[4, 2, 9]);
    list.set_list_type(TrackListType::Album);
    list.album = Some(Album {
        id: "a".to_string(),
        title: "t".to_string(),
        artist: Artist::default(),
        image: String::new(),
        total_tracks: 12,
    });
    let outcome = player.handle(&Input::Load { tracklist: list.clone() });
    let mut expected = list.clone();
    expected.set_track_status(2, TrackStatus::Playing);
    assert_eq!(
        outcome,
        Outcome {
            result: Ok(()),
            instruction: Some(Instruction::Load { track_id: 1002 }),
            notifications: vec![Notification::CurrentTrackList { list: expected.clone() }],
        }
    );
    assert_eq!(player.current_tracklist(), expected);
    assert_eq!(player.current_track().unwrap().id, 1002);
    assert_eq!(player.total(), 12);
    assert_eq!(player.list_type(), TrackListType::Album);
}

#[test]
fn load_of_an_empty_list() {
    let mut player = loaded(&[1, 2]);
    let outcome = player.handle(&Input::Load { tracklist: Tracklist::new(None) });
    assert_eq!(
        outcome,
        Outcome {
            result: Ok(()),
            instruction: None,
            notifications: vec![Notification::CurrentTrackList { list: Tracklist::new(None) }],
        }
    );
    assert_eq!(player.current_tracklist(), Tracklist::new(None));
}

#[test]
fn load_rejects_a_list_that_is_playing() {
    let mut player = loaded(&[1, 2]);
    let before = player.current_tracklist();
    let mut list = list_of(&[5, 6]);
    list.set_track_status(6, TrackStatus::Playing);
    let outcome = player.handle(&Input::Load { tracklist: list });
    assert_eq!(outcome, quiet(Err(Rejection::InvalidSource), None));
    assert_eq!(player.current_tracklist(), before);
}

#[test]
fn next_moves_forward_and_stops_at_the_end() {
    let mut player = loaded(&[1, 2, 3]);
    let outcome = player.handle(&Input::Next);
    assert_eq!(outcome.result, Ok(()));
    assert_eq!(outcome.instruction, Some(Instruction::Load { track_id: 1002 }));
    assert_eq!(
        outcome.notifications,
        vec![Notification::CurrentTrackList { list: player.current_tracklist() }]
    );
    assert_eq!(
        statuses(&player.current_tracklist()),
        vec![
            (1, TrackStatus::Played),
            (2, TrackStatus::Playing),
            (3, TrackStatus::Unplayed)
        ]
    );
    player.handle(&Input::Next);
    let at_end = player.current_tracklist();
    assert_eq!(
        statuses(&at_end),
        vec![(1, TrackStatus::Played), (2, TrackStatus::Played), (3, TrackStatus::Playing)]
    );
    assert_eq!(player.handle(&Input::Next), quiet(Ok(()), None));
    assert_eq!(player.current_tracklist(), at_end);
}

#[test]
fn previous_moves_back_and_stops_at_the_start() {
    let mut player = loaded(&[1, 2, 3]);
    assert_eq!(player.handle(&Input::Previous), quiet(Ok(()), None));
    player.handle(&Input::Next);
    player.handle(&Input::Next);
    let outcome = player.handle(&Input::Previous);
    assert_eq!(outcome.instruction, Some(Instruction::Load { track_id: 1002 }));
    assert_eq!(
        statuses(&player.current_tracklist()),
        vec![
            (1, TrackStatus::Played),
            (2, TrackStatus::Playing),
            (3, TrackStatus::Unplayed)
        ]
    );
}

#[test]
fn next_without_a_playing_track_does_nothing() {
    let mut player = Player::new();
    assert_eq!(player.handle(&Input::Next), quiet(Ok(()), None));
    assert_eq!(player.handle(&Input::Previous), quiet(Ok(()), None));
}

#[test]
fn skip_to_moves_playback() {
    let mut player = loaded(&[10, 20, 30, 40]);
    let outcome = player.handle(&Input::SkipTo { position: 30 });
    assert_eq!(outcome.result, Ok(()));
    assert_eq!(outcome.instruction, Some(Instruction::Load { track_id: 1030 }));
    assert_eq!(
        statuses(&player.current_tracklist()),
        vec![
            (10, TrackStatus::Played),
            (20, TrackStatus::Unplayed),
            (30, TrackStatus::Playing),
            (40, TrackStatus::Unplayed)
        ]
    );
    player.handle(&Input::SkipTo { position: 20 });
    assert_eq!(
        statuses(&player.current_tracklist()),
        vec![
            (10, TrackStatus::Played),
            (20, TrackStatus::Playing),
            (30, TrackStatus::Unplayed),
            (40, TrackStatus::Unplayed)
        ]
    );
    let same = player.handle(&Input::SkipTo { position: 20 });
    assert_eq!(same.instruction, Some(Instruction::Load { track_id: 1020 }));
    assert_eq!(player.current_track().unwrap().id, 1020);
    assert_eq!(playing_count(&player), 1);
}

#[test]
fn skip_to_a_vacant_position_is_rejected() {
    let mut player = loaded(&[10, 20]);
    let before = player.current_tracklist();
    assert_eq!(
        player.handle(&Input::SkipTo { position: 15 }),
        quiet(Err(Rejection::NoSuchPosition), None)
    );
    assert_eq!(player.current_tracklist(), before);
}

#[test]
fn seek_within_and_beyond_the_duration() {
    let mut player = loaded(&[1]);
    assert_eq!(
        player.handle(&Input::Seek { seconds: 0 }),
        quiet(Ok(()), Some(Instruction::Seek { seconds: 0 }))
    );
    assert_eq!(
        player.handle(&Input::Seek { seconds: 180 }),
        quiet(Ok(()), Some(Instruction::Seek { seconds: 180 }))
    );
    assert_eq!(
        player.handle(&Input::Seek { seconds: 181 }),
        quiet(Err(Rejection::SeekBeyondDuration), None)
    );
    let mut idle = Player::new();
    assert_eq!(
        idle.handle(&Input::Seek { seconds: 1 }),
        quiet(Err(Rejection::NothingPlaying), None)
    );
}

#[test]
fn volume_is_at_most_100() {
    let mut player = Player::new();
    assert_eq!(
        player.handle(&Input::SetVolume { volume: 100 }),
        Outcome {
            result: Ok(()),
            instruction: Some(Instruction::SetVolume { volume: 100 }),
            notifications: vec![Notification::Volume { volume: 100 }],
        }
    );
    assert_eq!(
        player.handle(&Input::SetVolume { volume: 0 }).notifications,
        vec![Notification::Volume { volume: 0 }]
    );
    assert_eq!(player.volume(), 0);
    assert_eq!(
        player.handle(&Input::SetVolume { volume: 101 }),
        quiet(Err(Rejection::VolumeOutOfRange), None)
    );
    assert_eq!(player.volume(), 0);
}

#[test]
fn play_and_pause_follow_the_state() {
    let mut player = Player::new();
    assert_eq!(player.handle(&Input::Play), quiet(Err(Rejection::NotReady), None));
    assert_eq!(player.handle(&Input::Pause), quiet(Ok(()), None));
    player.handle(&Input::Signal { signal: EngineSignal::LoadStarted });
    assert_eq!(player.current_state(), State::Null);
    assert_eq!(player.handle(&Input::Play), quiet(Err(Rejection::NotReady), None));
    player.handle(&Input::Signal { signal: EngineSignal::LoadComplete });
    assert_eq!(player.handle(&Input::Play), quiet(Ok(()), Some(Instruction::Play)));
    assert_eq!(player.current_state(), State::Ready);
    player.handle(&Input::Signal { signal: EngineSignal::PlayStarted });
    assert_eq!(player.handle(&Input::Play), quiet(Ok(()), None));
    assert_eq!(player.handle(&Input::Pause), quiet(Ok(()), Some(Instruction::Pause)));
    player.handle(&Input::Signal { signal: EngineSignal::Paused });
    assert_eq!(player.handle(&Input::Play), quiet(Ok(()), Some(Instruction::Play)));
}

#[test]
fn status_is_published_when_it_changes() {
    let mut player = Player::new();
    assert_eq!(
        player.handle(&Input::Signal { signal: EngineSignal::PlayStarted }),
        Outcome {
            result: Ok(()),
            instruction: None,
            notifications: vec![Notification::Status { status: State::Playing }],
        }
    );
    assert_eq!(
        player.handle(&Input::Signal { signal: EngineSignal::PlayStarted }),
        quiet(Ok(()), None)
    );
    assert_eq!(player.current_state(), State::Playing);
}

#[test]
fn position_and_failure_are_published() {
    let mut player = loaded(&[1, 2]);
    let before = player.current_tracklist();
    let clock = ClockTime { nanoseconds: 3_000_000_000 };
    assert_eq!(
        player.handle(&Input::Position { clock }).notifications,
        vec![Notification::Position { clock }]
    );
    let outcome = player.handle(&Input::Failure { message: "no device".to_string() });
    assert_eq!(
        outcome,
        Outcome {
            result: Ok(()),
            instruction: None,
            notifications: vec![Notification::Error { error: "no device".to_string() }],
        }
    );
    assert_eq!(player.current_tracklist(), before);
    assert_eq!(player.handle(&Input::Next).result, Ok(()));
}

#[test]
fn quit_ends_the_session() {
    let mut player = loaded(&[1, 2]);
    assert_eq!(
        player.handle(&Input::Quit),
        Outcome { result: Ok(()), instruction: None, notifications: vec![Notification::Quit] }
    );
    assert!(player.is_stopped());
    let before = player.current_tracklist();
    for input in [
        Input::Next,
        Input::Play,
        Input::Quit,
        Input::SetVolume { volume: 5 },
        Input::Signal { signal: EngineSignal::PlayStarted },
        Input::Position { clock: ClockTime { nanoseconds: 1 } },
        Input::Failure { message: "late".to_string() },
        Input::Load { tracklist: list_of(&[7]) },
    ] {
        assert_eq!(player.handle(&input), quiet(Err(Rejection::Stopped), None));
    }
    assert_eq!(player.current_tracklist(), before);
    assert_eq!(player.volume(), 100);
}

#[test]
fn run_publishes_in_input_order() {
    let inputs = vec![
        Input::SetVolume { volume: 30 },
        Input::Load { tracklist: list_of(&[1, 2]) },
        Input::Signal { signal: EngineSignal::LoadComplete },
        Input::Next,
        Input::SetVolume { volume: 500 },
        Input::Quit,
        Input::SetVolume { volume: 1 },
    ];
    let mut player = Player::new();
    let published = player.run(&inputs);

    let mut first = list_of(&[1, 2]);
    first.set_track_status(1, TrackStatus::Playing);
    let mut second = first.clone();
    second.set_track_status(1, TrackStatus::Played);
    second.set_track_status(2, TrackStatus::Playing);
    assert_eq!(
        published,
        vec![
            Notification::Volume { volume: 30 },
            Notification::CurrentTrackList { list: first },
            Notification::Status { status: State::Ready },
            Notification::CurrentTrackList { list: second },
            Notification::Quit,
        ]
    );

    let mut step_by_step = Player::new();
    let mut collected = Vec::new();
    for input in &inputs {
        collected.extend(step_by_step.handle(input).notifications);
    }
    assert_eq!(collected, published);

    let mut split = Player::new();
    let mut halves = split.run(&inputs[..3].to_vec());
    halves.extend(split.run(&inputs[3..].to_vec()));
    assert_eq!(halves, published);
    assert_eq!(split.current_tracklist(), player.current_tracklist());
}

#[test]
fn never_two_tracks_playing() {
    let mut player = Player::new();
    let inputs = vec![
        Input::Load { tracklist: list_of(&[3, 1, 2, 8]) },
        Input::Next,
        Input::SkipTo { position: 8 },
        Input::Previous,
        Input::SkipTo { position: 1 },
        Input::SkipTo { position: 99 },
        Input::Next,
        Input::Load { tracklist: list_of(&[5, 6]) },
        Input::Next,
        Input::Next,
        Input::Previous,
    ];
    for input in &inputs {
        player.handle(input);
        assert!(playing_count(&player) <= 1);
    }
    assert_eq!(player.current_track().unwrap().id, 1005);
}
