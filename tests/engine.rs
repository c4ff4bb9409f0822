use metalforge::engine::{BackendCall, Engine, EngineCommand, PlaybackState, Reaction};

const MS: u64 = 1_000;

#[test]
fn new_engine_is_idle_at_start() {
    let engine = Engine::new();
    assert_eq!(PlaybackState::Idle, engine.state());
    assert_eq!(0, engine.position(5_000 * MS));
    assert!(engine.is_running());
}

#[test]
fn play_song_rewinds_and_plays() {
    let mut engine = Engine::new();
    engine.handle_command(EngineCommand::PlaySong, 0);
    engine.handle_command(EngineCommand::Seek(40_000 * MS), 100 * MS);
    let r = engine.handle_command(EngineCommand::PlaySong, 200 * MS);
    assert_eq!(Reaction { call: Some(BackendCall::Play), keep_running: true }, r);
    assert_eq!(PlaybackState::Playing, engine.state());
    assert_eq!(0, engine.position(200 * MS));
    assert_eq!(750 * MS, engine.position(950 * MS));
}

#[test]
fn position_advances_only_while_playing() {
    let mut engine = Engine::new();
    engine.handle_command(EngineCommand::PlaySong, 1_000 * MS);
    assert_eq!(250 * MS, engine.position(1_250 * MS));
    engine.handle_command(EngineCommand::Pause, 1_500 * MS);
    assert_eq!(500 * MS, engine.position(1_500 * MS));
    assert_eq!(500 * MS, engine.position(9_000 * MS));
}

#[test]
fn seek_is_read_back_in_every_state() {
    let mut idle = Engine::new();
    idle.handle_command(EngineCommand::Seek(1_234 * MS), 10 * MS);
    assert_eq!(1_234 * MS, idle.position(10 * MS));
    assert_eq!(PlaybackState::Idle, idle.state());

    let mut playing = Engine::new();
    playing.handle_command(EngineCommand::PlaySong, 0);
    let r = playing.handle_command(EngineCommand::Seek(3 * MS), 700 * MS);
    assert_eq!(Some(BackendCall::Seek(3 * MS)), r.call);
    assert_eq!(3 * MS, playing.position(700 * MS));
    assert_eq!(PlaybackState::Playing, playing.state());

    let mut paused = Engine::new();
    paused.handle_command(EngineCommand::PlaySong, 0);
    paused.handle_command(EngineCommand::Pause, 100 * MS);
    paused.handle_command(EngineCommand::Seek(0), 200 * MS);
    assert_eq!(0, paused.position(200 * MS));
    assert_eq!(0, paused.position(900 * MS));
    assert_eq!(PlaybackState::Paused, paused.state());
}

#[test]
fn pause_and_resume_from_idle_never_play() {
    let mut engine = Engine::new();
    let commands = [
        EngineCommand::Resume,
        EngineCommand::Pause,
        EngineCommand::Resume,
        EngineCommand::Resume,
        EngineCommand::Pause,
    ];
    for (i, command) in commands.iter().enumerate() {
        let r = engine.handle_command(*command, i as u64 * MS);
        assert_eq!(None, r.call);
        assert_eq!(PlaybackState::Idle, engine.state());
    }
    assert_eq!(0, engine.position(100 * MS));
}

#[test]
fn pause_gap_is_not_counted() {
    let mut engine = Engine::new();
    engine.handle_command(EngineCommand::PlaySong, 0);
    engine.handle_command(EngineCommand::Pause, 1_000 * MS);
    engine.handle_command(EngineCommand::Resume, 5_000 * MS);
    assert_eq!(1_000 * MS, engine.position(5_000 * MS));
    assert_eq!(1_200 * MS, engine.position(5_200 * MS));
}

#[test]
fn repeated_pause_and_resume_are_no_ops() {
    let mut engine = Engine::new();
    engine.handle_command(EngineCommand::PlaySong, 0);
    assert_eq!(None, engine.handle_command(EngineCommand::Resume, 10 * MS).call);
    assert_eq!(50 * MS, engine.position(50 * MS));
    assert_eq!(Some(BackendCall::Pause), engine.handle_command(EngineCommand::Pause, 60 * MS).call);
    assert_eq!(None, engine.handle_command(EngineCommand::Pause, 90 * MS).call);
    assert_eq!(60 * MS, engine.position(90 * MS));
}

#[test]
fn pause_then_resume_at_once_keeps_position() {
    let mut engine = Engine::new();
    engine.handle_command(EngineCommand::PlaySong, 0);
    let before = engine.position(2_345 * MS);
    engine.handle_command(EngineCommand::Pause, 2_345 * MS);
    engine.handle_command(EngineCommand::Resume, 2_345 * MS);
    assert_eq!(before, engine.position(2_345 * MS));
    assert_eq!(PlaybackState::Playing, engine.state());
}

#[test]
fn quit_stops_backend_once_and_ends_loop() {
    let mut engine = Engine::new();
    engine.handle_command(EngineCommand::PlaySong, 0);
    let r = engine.handle_command(EngineCommand::Quit, 10 * MS);
    assert_eq!(Reaction { call: Some(BackendCall::Stop), keep_running: false }, r);
    assert!(!engine.is_running());
    let later = engine.handle_command(EngineCommand::PlaySong, 20 * MS);
    assert_eq!(Reaction { call: None, keep_running: false }, later);
    assert_eq!(None, engine.disconnect());
}

#[test]
fn disconnect_stops_backend() {
    let mut engine = Engine::new();
    engine.handle_command(EngineCommand::PlaySong, 0);
    assert_eq!(Some(BackendCall::Stop), engine.disconnect());
    assert!(!engine.is_running());
    assert_eq!(None, engine.disconnect());
}

#[test]
fn load_song_returns_to_idle_at_start() {
    let mut engine = Engine::new();
    engine.handle_command(EngineCommand::PlaySong, 0);
    let r = engine.handle_command(EngineCommand::LoadSong, 800 * MS);
    assert_eq!(Reaction { call: Some(BackendCall::Clear), keep_running: true }, r);
    assert_eq!(PlaybackState::Idle, engine.state());
    assert_eq!(0, engine.position(900 * MS));
}

#[test]
fn play_pause_seek_resume_scenario() {
    let mut engine = Engine::new();
    let commands = [
        (EngineCommand::PlaySong, 0),
        (EngineCommand::Pause, 400 * MS),
        (EngineCommand::Seek(1_500 * MS), 600 * MS),
        (EngineCommand::Resume, 700 * MS),
    ];
    let mut calls = Vec::new();
    for (command, now) in commands {
        let r = engine.handle_command(command, now);
        assert!(r.keep_running);
        calls.extend(r.call);
    }
    assert_eq!(
        vec![BackendCall::Play, BackendCall::Pause, BackendCall::Seek(1_500 * MS), BackendCall::Resume],
        calls
    );
    assert_eq!(PlaybackState::Playing, engine.state());
    assert_eq!(1_500 * MS, engine.position(700 * MS));
    assert_eq!(1_800 * MS, engine.position(1_000 * MS));
}

#[test]
fn clock_reading_before_start_counts_no_time() {
    let mut engine = Engine::new();
    engine.handle_command(EngineCommand::PlaySong, 500 * MS);
    assert_eq!(0, engine.position(100 * MS));
}

#[test]
fn position_saturates_instead_of_wrapping() {
    let mut engine = Engine::new();
    engine.handle_command(EngineCommand::PlaySong, 0);
    engine.handle_command(EngineCommand::Seek(u64::MAX - 5), 0);
    assert_eq!(u64::MAX, engine.position(100));
}
