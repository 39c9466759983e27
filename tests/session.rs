use firefly::cli::{Command, PlayArgs};
use firefly::format::{plan_load, CONVERTED_TRACK};
use firefly::session::{Action, App, Key, SinkState, Status, CONVERTING_INFO, INITIAL_VOLUME};
use firefly::transport::MAX_VOLUME;

fn sink(paused: bool, empty: bool, position_ms: u64) -> SinkState {
    SinkState { paused, empty, position_ms }
}

fn playing(track: &str, pos: u64, dur: Option<u64>) -> App {
    let mut app = App::new();
    app.track_path = Some(track.to_string());
    app.track_pos = Some(pos);
    app.track_duration = dur;
    app.plan = Some(plan_load(track, true));
    app.status = Status::Playing;
    app
}

#[test]
fn new_session_is_idle_and_empty() {
    let app = App::new();
    assert_eq!(app.status, Status::Idle);
    assert_eq!(app.info, vec![String::new()]);
    assert!(app.track_path.is_none());
    assert!(app.track_queue.is_empty());
    assert!(app.track_pos.is_none());
    assert!(app.track_duration.is_none());
    assert_eq!(app.volume, INITIAL_VOLUME);
    assert!(!app.looping);
    assert!(!app.exit);
}

#[test]
fn empty_sink_is_always_idle() {
    for status in [Status::Playing, Status::Paused, Status::Idle] {
        for paused in [false, true] {
            let mut app = playing("t.mp3", 10_000, Some(200_000));
            app.status = status;
            app.tick(sink(paused, true, 10_000));
            assert_eq!(app.status, Status::Idle);
        }
    }
}

#[test]
fn paused_sink_reads_paused_before_playing() {
    let mut app = playing("t.mp3", 10_000, Some(200_000));
    assert_eq!(app.tick(sink(true, false, 12_000)), Action::Nothing);
    assert_eq!(app.status, Status::Paused);
    assert_eq!(app.track_pos, Some(12_000));
    app.tick(sink(false, false, 13_000));
    assert_eq!(app.status, Status::Playing);
}

#[test]
fn position_is_refreshed_from_the_sink() {
    let mut app = playing("t.mp3", 10_000, Some(200_000));
    app.tick(sink(false, false, 42_000));
    assert_eq!(app.track_pos, Some(42_000));
    let mut idle = App::new();
    idle.tick(sink(false, false, 42_000));
    assert_eq!(idle.track_pos, None);
    assert_eq!(idle.status, Status::Idle);
}

#[test]
fn idle_tick_plays_the_front_of_the_queue() {
    let mut app = App::new();
    app.track_queue.push_back("A".to_string());
    app.track_queue.push_back("B".to_string());
    let action = app.tick(sink(false, true, 0));
    assert_eq!(action, Action::Convert("A".to_string()));
    assert_eq!(app.track_path.as_deref(), Some("A"));
    assert_eq!(app.track_queue, vec!["B"]);
}

#[test]
fn finished_track_without_looping_goes_idle() {
    let mut app = playing("T", 198_000, Some(200_000));
    let action = app.tick(sink(false, true, 198_000));
    assert_eq!(action, Action::Nothing);
    assert_eq!(app.status, Status::Idle);
    assert_eq!(app.track_pos, None);
    assert_eq!(app.track_duration, None);
}

#[test]
fn finished_track_moves_on_to_the_queue() {
    let mut app = playing("T", 198_000, Some(200_000));
    app.track_queue.push_back("N".to_string());
    let action = app.tick(sink(false, true, 199_000));
    assert_eq!(action, Action::Convert("N".to_string()));
    assert_eq!(app.track_path.as_deref(), Some("N"));
    assert_eq!(app.status, Status::Idle);
    assert_eq!(app.track_pos, None);
    assert_eq!(app.track_duration, None);
    assert!(app.track_queue.is_empty());
}

#[test]
fn finished_track_with_looping_is_reloaded() {
    let mut app = playing("T.flac", 198_000, Some(200_000));
    app.looping = true;
    app.track_queue.push_back("N".to_string());
    let action = app.tick(sink(false, true, 198_000));
    assert_eq!(action, Action::Reload("T.flac".to_string()));
    assert_eq!(app.track_path.as_deref(), Some("T.flac"));
    assert_eq!(app.track_duration, Some(200_000));
    assert_eq!(app.track_queue, vec!["N"]);
}

#[test]
fn end_window_is_three_seconds() {
    let mut app = playing("T", 0, Some(200_000));
    app.tick(sink(false, true, 197_000));
    assert_eq!(app.track_duration, Some(200_000));
    app.tick(sink(false, true, 197_001));
    assert_eq!(app.track_duration, None);
    let mut past = playing("T", 0, Some(200_000));
    past.tick(sink(false, true, 250_000));
    assert_eq!(past.track_duration, None);
}

#[test]
fn unknown_length_never_ends_by_itself() {
    let mut app = playing("T", 0, None);
    assert_eq!(app.tick(sink(false, true, 0)), Action::Nothing);
    assert_eq!(app.track_path.as_deref(), Some("T"));
    assert_eq!(app.track_pos, Some(0));
}

#[test]
fn draining_sink_with_time_left_is_not_finished() {
    let mut app = playing("T", 0, Some(200_000));
    app.looping = true;
    assert_eq!(app.tick(sink(false, false, 199_500)), Action::Nothing);
    assert_eq!(app.status, Status::Playing);
}

#[test]
fn unsupported_track_is_converted_then_the_result_opened() {
    let mut app = App::new();
    assert_eq!(app.load_now("/m/song.opus".to_string(), true), Action::Convert("/m/song.opus".to_string()));
    assert!(app.converting);
    assert_eq!(app.track_path.as_deref(), Some("/m/song.opus"));
    assert_eq!(app.info.last().map(String::as_str), Some(CONVERTING_INFO));
    assert_eq!(app.conversion_done(Ok(())), Action::Open(CONVERTED_TRACK.to_string()));
    assert!(!app.converting);
    app.finish_load(Some(90_000));
    assert_eq!(app.track_duration, Some(90_000));
    assert_eq!(app.info, vec![String::new(), CONVERTING_INFO.to_string(), String::new()]);
    assert_eq!(app.conversion_done(Ok(())), Action::Nothing);
}

#[test]
fn supported_track_opens_at_once() {
    let mut app = App::new();
    assert_eq!(app.load_now("/m/song.mp3".to_string(), true), Action::Open("/m/song.mp3".to_string()));
    assert!(!app.converting);
    assert_eq!(app.info, vec![String::new()]);
    assert_eq!(app.conversion_done(Ok(())), Action::Nothing);
    app.finish_load(None);
    assert_eq!(app.info, vec![String::new(), String::new()]);
    assert_eq!(app.track_duration, None);
}

#[test]
fn a_path_that_is_no_file_is_converted() {
    let mut app = App::new();
    assert_eq!(app.load_now("/m/song.mp3".to_string(), false), Action::Convert("/m/song.mp3".to_string()));
}

#[test]
fn advance_keeps_the_position_just_read() {
    let mut app = playing("T.mp3", 0, None);
    app.track_queue.push_back("N.mp3".to_string());
    assert_eq!(app.tick(sink(false, true, 5_000)), Action::Open("N.mp3".to_string()));
    assert_eq!(app.track_path.as_deref(), Some("N.mp3"));
    assert_eq!(app.track_pos, Some(5_000));
}

#[test]
fn failed_load_forgets_the_track() {
    let mut app = playing("T", 1_000, Some(5_000));
    app.load_failed("cannot convert T".to_string());
    assert!(app.track_path.is_none());
    assert!(app.track_pos.is_none());
    assert!(app.track_duration.is_none());
    assert!(app.plan.is_none());
    assert_eq!(app.status, Status::Idle);
    assert_eq!(app.info.last().map(String::as_str), Some("cannot convert T"));
}

#[test]
fn duration_needs_a_track() {
    let mut app = App::new();
    app.set_track_duration(Some(1_000));
    assert_eq!(app.track_duration, None);
    app.finish_load(Some(1_000));
    assert_eq!(app.track_duration, None);
}

#[test]
fn keys_map_to_actions() {
    let mut app = App::new();
    assert_eq!(app.handle_key_event(Key::Char('n')), Action::PickFile);
    assert_eq!(app.handle_key_event(Key::Char('q')), Action::PickFiles);
    assert_eq!(app.handle_key_event(Key::Char('d')), Action::PickFolder);
    assert_eq!(app.handle_key_event(Key::Char(' ')), Action::Resume);
    assert_eq!(app.handle_key_event(Key::Char('x')), Action::Nothing);
    assert_eq!(app.handle_key_event(Key::Other), Action::Nothing);
    assert_eq!(app.handle_key_event(Key::Right), Action::Nothing);
    assert_eq!(app.handle_key_event(Key::Left), Action::Nothing);
    assert_eq!(app.handle_key_event(Key::Char('s')), Action::Nothing);
    app.status = Status::Playing;
    assert_eq!(app.handle_key_event(Key::Char(' ')), Action::Pause);
    assert!(!app.exit);
    assert_eq!(app.handle_key_event(Key::Esc), Action::Exit);
    assert!(app.exit);
}

#[test]
fn loop_key_toggles() {
    let mut app = App::new();
    app.handle_key_event(Key::Char('l'));
    assert!(app.looping);
    app.handle_key_event(Key::Char('l'));
    assert!(!app.looping);
}

#[test]
fn volume_keys_clamp() {
    let mut app = App::new();
    assert_eq!(app.handle_key_event(Key::Up), Action::SetVolume(105));
    for _ in 0..40 {
        app.handle_key_event(Key::Up);
    }
    assert_eq!(app.volume, MAX_VOLUME);
    for _ in 0..50 {
        app.handle_key_event(Key::Down);
    }
    assert_eq!(app.volume, 0);
    assert_eq!(app.handle_key_event(Key::Down), Action::SetVolume(0));
}

#[test]
fn seek_keys() {
    let mut app = playing("T.mp3", 60_000, Some(200_000));
    assert_eq!(app.handle_key_event(Key::Right), Action::Seek(65_000));
    assert_eq!(
        app.handle_key_event(Key::Left),
        Action::Rewind { playable: "T.mp3".to_string(), target_ms: 55_000 }
    );
    let mut converted = playing("T.opus", 60_000, Some(200_000));
    assert_eq!(
        converted.handle_key_event(Key::Left),
        Action::Rewind { playable: CONVERTED_TRACK.to_string(), target_ms: 55_000 }
    );
    let mut near_end = playing("T", 197_000, Some(200_000));
    assert_eq!(near_end.handle_key_event(Key::Right), Action::Seek(199_000));
    let mut no_length = playing("T", 10_000, None);
    assert_eq!(no_length.handle_key_event(Key::Right), Action::Nothing);
}

#[test]
fn skip_key_plays_the_next_track() {
    let mut app = playing("T", 60_000, Some(200_000));
    app.track_queue.push_back("U.mp3".to_string());
    assert_eq!(app.handle_key_event(Key::Char('s')), Action::Open("U.mp3".to_string()));
    assert_eq!(app.track_path.as_deref(), Some("U.mp3"));
    assert!(app.track_duration.is_none());
    assert_eq!(app.track_pos, Some(60_000));
}

#[test]
fn play_command_loads_its_file() {
    let mut app = App::new();
    let command = Command::Play(PlayArgs { file: "/m/x.wav".to_string() });
    assert_eq!(command.execute(&mut app, true), Action::Open("/m/x.wav".to_string()));
    assert_eq!(app.track_path.as_deref(), Some("/m/x.wav"));
}

#[test]
fn failed_conversion_moves_on_to_the_queue() {
    let mut app = App::new();
    app.track_queue.push_back("bad.wma".to_string());
    app.track_queue.push_back("good.mp3".to_string());
    assert_eq!(app.tick(sink(false, true, 0)), Action::Convert("bad.wma".to_string()));
    assert_eq!(app.conversion_done(Err("Could not convert bad.wma".to_string())), Action::Nothing);
    assert!(app.track_path.is_none());
    assert_eq!(app.info.last().map(String::as_str), Some("Could not convert bad.wma"));
    assert_eq!(app.tick(sink(false, true, 0)), Action::Open("good.mp3".to_string()));
    assert_eq!(app.track_path.as_deref(), Some("good.mp3"));
    assert!(app.track_queue.is_empty());
}
