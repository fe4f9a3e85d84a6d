use sky_sheet_player::control::{ControlState, Mode};
use sky_sheet_player::hotkeys::{Action, HotkeyCapture, Hotkeys};
use sky_sheet_player::keys::KeyId;
use sky_sheet_player::status::Status;

fn fresh() -> ControlState {
    ControlState::new(Hotkeys::default())
}

fn with_song() -> ControlState {
    let mut state = fresh();
    state.select_song("song.txt".to_string());
    state
}

#[test]
fn a_fresh_state_has_the_defaults() {
    let state = fresh();
    assert_eq!(state.song_path(), None);
    assert!(!state.has_song());
    assert_eq!(state.speed().per_mille(), 1000);
    assert_eq!(state.mode(), Mode::Idle);
    assert!(!state.manual_mode());
    assert_eq!(state.manual_index(), 0);
    assert_eq!(state.progress(), 0);
    assert_eq!(state.total(), 0);
    assert_eq!(state.status(), Status::Ready);
    assert_eq!(state.hotkey_capture(), HotkeyCapture::Inactive);
    assert_eq!(state.hotkeys(), Hotkeys::default());
    assert!(!state.manual_key_down());
    assert!(!state.is_listening());
}

#[test]
fn selecting_a_song_resets_the_counters() {
    let mut state = fresh();
    state.report_manual_step(3, 6);
    state.select_song("a.txt".to_string());
    assert_eq!(state.song_path(), Some(&"a.txt".to_string()));
    assert_eq!(state.status(), Status::SongLoaded);
    assert_eq!(state.manual_index(), 0);
    assert_eq!(state.progress(), 0);
    assert_eq!(state.total(), 6);
    assert_eq!(state.mode(), Mode::Idle);
}

#[test]
fn selecting_a_song_in_manual_mode_makes_it_ready() {
    let mut state = with_song();
    state.toggle_manual_mode();
    state.halt(Status::Finished);
    state.select_song("b.txt".to_string());
    assert_eq!(state.mode(), Mode::Playing);
    assert!(state.manual_mode());
}

#[test]
fn selecting_a_song_supersedes_a_run() {
    let mut state = with_song();
    let token = state.start_playback().unwrap();
    assert_eq!(state.run(), token);
    state.select_song("c.txt".to_string());
    assert_ne!(state.run(), token);
    assert_eq!(state.mode(), Mode::Idle);
}

#[test]
fn manual_mode_needs_a_song() {
    let mut state = fresh();
    state.toggle_manual_mode();
    assert!(!state.manual_mode());
    assert_eq!(state.status(), Status::Ready);
    assert_eq!(state.mode(), Mode::Idle);
}

#[test]
fn manual_mode_toggles() {
    let mut state = with_song();
    state.report_manual_step(4, 6);
    state.toggle_manual_mode();
    assert!(state.manual_mode());
    assert_eq!(state.status(), Status::ManualEnabled);
    assert_eq!(state.manual_index(), 0);
    assert_eq!(state.mode(), Mode::Playing);
    state.report_manual_step(2, 6);
    state.toggle_manual_mode();
    assert!(!state.manual_mode());
    assert_eq!(state.status(), Status::ManualDisabled);
    assert_eq!(state.mode(), Mode::Idle);
    assert_eq!(state.manual_index(), 2);
}

#[test]
fn playback_starts_from_idle_with_a_song() {
    let mut state = with_song();
    let before = state.run();
    let token = state.start_playback();
    assert_eq!(token, Some(before + 1));
    assert_eq!(state.run(), before + 1);
    assert_eq!(state.mode(), Mode::Playing);
    assert_eq!(state.status(), Status::Starting);
    assert!(state.is_listening());
}

#[test]
fn playback_does_not_start_twice() {
    let mut state = with_song();
    let first = state.start_playback().unwrap();
    assert_eq!(state.start_playback(), None);
    assert_eq!(state.run(), first);
    state.pause();
    assert_eq!(state.start_playback(), None);
    assert_eq!(state.mode(), Mode::Paused);
    assert_eq!(state.run(), first);
}

#[test]
fn playback_without_a_song_says_so() {
    let mut state = fresh();
    assert_eq!(state.start_playback(), None);
    assert_eq!(state.mode(), Mode::Idle);
    assert_eq!(state.status(), Status::NoSong);
    assert_eq!(state.run(), 0);
}

#[test]
fn the_play_button_does_nothing_in_manual_mode() {
    let mut state = with_song();
    state.toggle_manual_mode();
    state.halt(Status::Finished);
    let run = state.run();
    assert_eq!(state.press_play(), None);
    assert_eq!(state.mode(), Mode::Idle);
    assert_eq!(state.status(), Status::Finished);
    assert_eq!(state.run(), run);
    state.toggle_manual_mode();
    assert!(state.press_play().is_some());
    assert_eq!(state.mode(), Mode::Playing);
}

#[test]
fn pause_and_resume() {
    let mut state = with_song();
    state.pause();
    assert_eq!(state.mode(), Mode::Idle);
    assert_eq!(state.status(), Status::SongLoaded);
    state.start_playback();
    state.resume();
    assert_eq!(state.mode(), Mode::Playing);
    assert_eq!(state.status(), Status::Starting);
    state.pause();
    assert_eq!(state.mode(), Mode::Paused);
    assert_eq!(state.status(), Status::Paused);
    state.pause();
    assert_eq!(state.mode(), Mode::Paused);
    state.resume();
    assert_eq!(state.mode(), Mode::Playing);
    assert_eq!(state.status(), Status::Resuming);
}

#[test]
fn toggle_pause_switches_between_playing_and_paused() {
    let mut state = with_song();
    state.toggle_pause();
    assert_eq!(state.mode(), Mode::Idle);
    state.start_playback();
    state.toggle_pause();
    assert_eq!(state.mode(), Mode::Paused);
    assert_eq!(state.status(), Status::Paused);
    state.toggle_pause();
    assert_eq!(state.mode(), Mode::Playing);
    assert_eq!(state.status(), Status::Playing);
}

#[test]
fn stop_leads_to_idle_and_keeps_the_counters() {
    let mut playing = with_song();
    playing.start_playback();
    playing.report_progress(3, 8);
    playing.stop();
    assert_eq!(playing.mode(), Mode::Idle);
    assert_eq!(playing.status(), Status::Stopped);
    assert_eq!(playing.progress(), 3);
    assert_eq!(playing.total(), 8);

    let mut paused = with_song();
    paused.start_playback();
    paused.report_progress(5, 8);
    paused.pause();
    paused.stop();
    assert_eq!(paused.mode(), Mode::Idle);
    assert_eq!(paused.status(), Status::Stopped);
    assert_eq!(paused.progress(), 5);
}

#[test]
fn stop_is_idempotent() {
    let mut state = with_song();
    state.start_playback();
    state.report_progress(3, 8);
    state.stop();
    let run = state.run();
    state.set_status(Status::Ready);
    state.stop();
    assert_eq!(state.mode(), Mode::Idle);
    assert_eq!(state.status(), Status::Ready);
    assert_eq!(state.progress(), 3);
    assert_eq!(state.total(), 8);
    assert_eq!(state.run(), run);
}

#[test]
fn speed_changes_by_steps_and_by_value() {
    let mut state = fresh();
    state.speed_up();
    assert_eq!(state.speed().per_mille(), 1100);
    assert_eq!(state.status(), Status::Ready);
    state.speed_down();
    state.speed_down();
    assert_eq!(state.speed().per_mille(), 900);
    state.set_speed(1730);
    assert_eq!(state.speed().per_mille(), 1730);
    state.set_speed(100);
    assert_eq!(state.speed().per_mille(), 500);
    state.set_speed(60000);
    assert_eq!(state.speed().per_mille(), 2000);
    state.speed_up();
    assert_eq!(state.speed().per_mille(), 2000);
    state.announce_speed();
    assert_eq!(state.status(), Status::Speed { per_mille: 2000 });
}

#[test]
fn a_rebind_waits_for_a_valid_key() {
    let mut state = fresh();
    state.request_rebind(Action::Stop);
    assert_eq!(state.hotkey_capture(), HotkeyCapture::AwaitingBindingFor(Action::Stop));
    assert_eq!(state.status(), Status::AwaitingKey(Action::Stop));
    state.capture_key(KeyId::CapsLock);
    state.capture_key(KeyId::RShift);
    state.capture_key(KeyId::Command);
    state.capture_key(KeyId::F20);
    assert_eq!(state.hotkey_capture(), HotkeyCapture::AwaitingBindingFor(Action::Stop));
    assert_eq!(state.hotkeys(), Hotkeys::default());
    assert_eq!(state.status(), Status::AwaitingKey(Action::Stop));
    state.capture_key(KeyId::X);
    assert_eq!(state.hotkey_capture(), HotkeyCapture::Inactive);
    assert_eq!(state.hotkeys().stop, KeyId::X);
    assert_eq!(state.hotkeys().play_pause, KeyId::Space);
    assert_eq!(state.status(), Status::HotkeySet(Action::Stop, KeyId::X));
}

#[test]
fn a_key_is_not_captured_without_a_rebind() {
    let mut state = fresh();
    state.capture_key(KeyId::X);
    assert_eq!(state.hotkeys(), Hotkeys::default());
    assert_eq!(state.status(), Status::Ready);
}

#[test]
fn progress_reports_keep_the_manual_index_within_the_total() {
    let mut state = fresh();
    state.report_manual_step(5, 6);
    assert_eq!(state.manual_index(), 5);
    assert_eq!(state.progress(), 5);
    assert_eq!(state.total(), 6);
    state.report_progress(1, 3);
    assert_eq!(state.progress(), 1);
    assert_eq!(state.total(), 3);
    assert_eq!(state.manual_index(), 3);
    state.report_progress(9, 9);
    assert_eq!(state.progress(), 9);
    assert_eq!(state.total(), 9);
    assert_eq!(state.manual_index(), 3);
    state.report_progress(0, 0);
    assert_eq!(state.manual_index(), 0);
}

#[test]
fn halt_ends_playback_with_a_status() {
    let mut state = with_song();
    state.start_playback();
    state.report_progress(2, 4);
    state.halt(Status::Finished);
    assert_eq!(state.mode(), Mode::Idle);
    assert_eq!(state.status(), Status::Finished);
    assert_eq!(state.progress(), 2);
    assert!(state.is_listening());
}

#[test]
fn the_hotkeys_listen_only_with_a_song_that_was_played() {
    let mut state = fresh();
    assert!(!state.is_listening());
    state.report_progress(1, 2);
    assert!(!state.is_listening());
    state.select_song("a.txt".to_string());
    assert!(!state.is_listening());
    state.report_progress(1, 2);
    assert!(state.is_listening());
    state.report_progress(0, 2);
    assert!(!state.is_listening());
    state.start_playback();
    assert!(state.is_listening());
}

#[test]
fn the_run_number_wraps_around() {
    let mut state = with_song();
    let start = state.run();
    for _ in 0..5 {
        state.start_playback();
        state.stop();
    }
    assert_eq!(state.run(), start + 5);
}

#[test]
fn a_state_never_starts_with_a_reserved_hotkey() {
    let given = Hotkeys {
        play_pause: KeyId::LShift,
        stop: KeyId::Q,
        speed_up: KeyId::F13,
        speed_down: KeyId::Tab,
    };
    let state = ControlState::new(given);
    assert_eq!(
        state.hotkeys(),
        Hotkeys {
            play_pause: KeyId::Space,
            stop: KeyId::Q,
            speed_up: KeyId::Equal,
            speed_down: KeyId::Minus,
        }
    );
    let custom = Hotkeys {
        play_pause: KeyId::Semicolon,
        stop: KeyId::Enter,
        speed_up: KeyId::Up,
        speed_down: KeyId::Down,
    };
    assert_eq!(ControlState::new(custom).hotkeys(), custom);
}
