use sky_sheet_player::hotkeys::Action;
use sky_sheet_player::keys::KeyId;
use sky_sheet_player::song::LoadError;
use sky_sheet_player::status::{label_of, Status};

#[test]
fn fixed_status_texts() {
    assert_eq!(Status::Ready.text(), "");
    assert_eq!(Status::SongLoaded.text(), "Song loaded!");
    assert_eq!(Status::Starting.text(), "Starting playback...");
    assert_eq!(Status::Playing.text(), "Playing...");
    assert_eq!(Status::Paused.text(), "Paused");
    assert_eq!(Status::Resuming.text(), "Resuming...");
    assert_eq!(Status::Stopped.text(), "Stopped");
    assert_eq!(Status::Finished.text(), "Song finished!");
    assert_eq!(Status::NoSong.text(), "No song file selected!");
    assert_eq!(Status::KeyboardUnavailable.text(), "Failed to initialize keyboard!");
    assert_eq!(
        Status::ManualEnabled.text(),
        "Manual rhythm mode enabled! Press ; or ' to advance."
    );
    assert_eq!(Status::ManualDisabled.text(), "Manual rhythm mode disabled.");
}

#[test]
fn load_failures_have_a_text() {
    assert_eq!(Status::LoadFailed(LoadError::Io).text(), "Failed to read the song file!");
    assert_eq!(
        Status::LoadFailed(LoadError::Format).text(),
        "Invalid song format! JSON must contain at least one Song object."
    );
}

#[test]
fn speed_is_shown_with_one_decimal() {
    assert_eq!(Status::Speed { per_mille: 1000 }.text(), "Speed: 1.0x");
    assert_eq!(Status::Speed { per_mille: 500 }.text(), "Speed: 0.5x");
    assert_eq!(Status::Speed { per_mille: 2000 }.text(), "Speed: 2.0x");
    assert_eq!(Status::Speed { per_mille: 1200 }.text(), "Speed: 1.2x");
    assert_eq!(Status::Speed { per_mille: 1249 }.text(), "Speed: 1.2x");
    assert_eq!(Status::Speed { per_mille: 1250 }.text(), "Speed: 1.3x");
    assert_eq!(Status::Speed { per_mille: 1960 }.text(), "Speed: 2.0x");
}

#[test]
fn manual_progress_is_shown_as_a_count() {
    assert_eq!(Status::Manual { done: 2, total: 6 }.text(), "Manual: 2/6 notes");
    assert_eq!(Status::Manual { done: 0, total: 0 }.text(), "Manual: 0/0 notes");
    assert_eq!(Status::Manual { done: 10, total: 1234 }.text(), "Manual: 10/1234 notes");
    assert_eq!(
        Status::Manual { done: 907, total: 100000 }.text(),
        "Manual: 907/100000 notes"
    );
}

#[test]
fn rebind_texts_name_the_action() {
    assert_eq!(
        Status::AwaitingKey(Action::PlayPause).text(),
        "Press any key to set Play/Pause hotkey..."
    );
    assert_eq!(Status::AwaitingKey(Action::Stop).text(), "Press any key to set Stop hotkey...");
    assert_eq!(
        Status::AwaitingKey(Action::SpeedUp).text(),
        "Press any key to set Speed Up hotkey..."
    );
    assert_eq!(
        Status::AwaitingKey(Action::SpeedDown).text(),
        "Press any key to set Speed Down hotkey..."
    );
    assert_eq!(Status::HotkeySet(Action::Stop, KeyId::X).text(), "Stop hotkey set to: X");
    assert_eq!(
        Status::HotkeySet(Action::PlayPause, KeyId::Escape).text(),
        "Play/Pause hotkey set to: Esc"
    );
    assert_eq!(
        Status::HotkeySet(Action::SpeedUp, KeyId::Equal).text(),
        "Speed Up hotkey set to: +"
    );
    assert_eq!(label_of(Action::SpeedDown), "Speed Down");
}
