//! The status line: what the control state last reported to the operator,
//! and the text that is shown for it.

use vstd::prelude::*;
use vstd::string::*;
use crate::hotkeys::Action;
use crate::keys::{format_key_description, KeyId};
use crate::song::LoadError;

verus! {

/// The last thing that happened, as the operator is told of it.
#[derive(Clone, Copy, Debug, PartialEq, Eq, Hash, Structural)]
pub enum Status {
    /// Nothing has happened yet.
    Ready,
    /// A song file was selected.
    SongLoaded,
    /// Playback was asked for and its task is about to start.
    Starting,
    /// Notes are being played.
    Playing,
    /// Playback is paused.
    Paused,
    /// Playback was told to go on after a pause.
    Resuming,
    /// Playback was stopped.
    Stopped,
    /// The song was played to its end.
    Finished,
    /// Playback was asked for with no song selected.
    NoSong,
    /// The song could not be loaded.
    LoadFailed(LoadError),
    /// The keys could not be typed because no keyboard could be opened.
    KeyboardUnavailable,
    /// A hotkey changed the speed to `per_mille` thousandths.
    Speed { per_mille: u16 },
    /// A manual step played the notes up to `done` of `total`.
    Manual { done: usize, total: usize },
    /// Manual mode was switched on.
    ManualEnabled,
    /// Manual mode was switched off.
    ManualDisabled,
    /// The next valid key press becomes the hotkey of the action.
    AwaitingKey(Action),
    /// The hotkey of the action was set to the key.
    HotkeySet(Action, KeyId),
}

/// The character that writes the digit `d`.
pub open spec fn digit_char(d: nat) -> char {
    if d == 0 {
        '0'
    } else if d == 1 {
        '1'
    } else if d == 2 {
        '2'
    } else if d == 3 {
        '3'
    } else if d == 4 {
        '4'
    } else if d == 5 {
        '5'
    } else if d == 6 {
        '6'
    } else if d == 7 {
        '7'
    } else if d == 8 {
        '8'
    } else {
        '9'
    }
}

/// The decimal numeral of `n`, without leading zeros.
pub open spec fn decimal(n: nat) -> Seq<char>
    decreases n,
{
    if n < 10 {
        seq![digit_char(n)]
    } else {
        decimal(n / 10).push(digit_char(n % 10))
    }
}

/// The speed of `per_mille` thousandths in tenths, rounded to the nearest
/// tenth, a half rounded up.
pub open spec fn tenths(per_mille: nat) -> nat {
    (per_mille + 50) / 100
}

/// The text of a speed: its whole part, a point, and one digit after it.
pub open spec fn speed_text(per_mille: nat) -> Seq<char> {
    decimal(tenths(per_mille) / 10) + seq!['.'] + seq![digit_char(tenths(per_mille) % 10)]
}

/// The words that stand for `action` in the status line.
pub open spec fn action_label(action: Action) -> Seq<char> {
    match action {
        Action::PlayPause => "Play/Pause"@,
        Action::Stop => "Stop"@,
        Action::SpeedUp => "Speed Up"@,
        Action::SpeedDown => "Speed Down"@,
    }
}

impl Status {
    /// The text that is shown for the status.
    pub open spec fn text_spec(self) -> Seq<char> {
        match self {
            Status::Ready => ""@,
            Status::SongLoaded => "Song loaded!"@,
            Status::Starting => "Starting playback..."@,
            Status::Playing => "Playing..."@,
            Status::Paused => "Paused"@,
            Status::Resuming => "Resuming..."@,
            Status::Stopped => "Stopped"@,
            Status::Finished => "Song finished!"@,
            Status::NoSong => "No song file selected!"@,
            Status::LoadFailed(LoadError::Io) => "Failed to read the song file!"@,
            Status::LoadFailed(LoadError::Format) =>
                "Invalid song format! JSON must contain at least one Song object."@,
            Status::KeyboardUnavailable => "Failed to initialize keyboard!"@,
            Status::Speed { per_mille } => "Speed: "@ + speed_text(per_mille as nat) + "x"@,
            Status::Manual { done, total } => "Manual: "@ + decimal(done as nat) + "/"@ + decimal(
                total as nat,
            ) + " notes"@,
            Status::ManualEnabled => "Manual rhythm mode enabled! Press ; or ' to advance."@,
            Status::ManualDisabled => "Manual rhythm mode disabled."@,
            Status::AwaitingKey(action) => "Press any key to set "@ + action_label(action)
                + " hotkey..."@,
            Status::HotkeySet(action, key) => action_label(action) + " hotkey set to: "@
                + key.description_spec(),
        }
    }

    /// The text that is shown for the status.
    pub fn text(&self) -> (text: String)
        ensures
            text@ == self.text_spec(),
    {
        match *self {
            Status::Ready => "".to_owned(),
            Status::SongLoaded => "Song loaded!".to_owned(),
            Status::Starting => "Starting playback...".to_owned(),
            Status::Playing => "Playing...".to_owned(),
            Status::Paused => "Paused".to_owned(),
            Status::Resuming => "Resuming...".to_owned(),
            Status::Stopped => "Stopped".to_owned(),
            Status::Finished => "Song finished!".to_owned(),
            Status::NoSong => "No song file selected!".to_owned(),
            Status::LoadFailed(LoadError::Io) => "Failed to read the song file!".to_owned(),
            Status::LoadFailed(LoadError::Format) =>
                "Invalid song format! JSON must contain at least one Song object.".to_owned(),
            Status::KeyboardUnavailable => "Failed to initialize keyboard!".to_owned(),
            Status::Speed { per_mille } => {
                let rounded: u64 = (per_mille as u64 + 50) / 100;
                let mut text = "Speed: ".to_owned();
                append_decimal(&mut text, rounded / 10);
                text.append(".");
                text.append(digit_text(rounded % 10));
                text.append("x");
                proof {
                    reveal_strlit(".");
                }
                text
            },
            Status::Manual { done, total } => {
                let mut text = "Manual: ".to_owned();
                append_decimal(&mut text, done as u64);
                text.append("/");
                append_decimal(&mut text, total as u64);
                text.append(" notes");
                text
            },
            Status::ManualEnabled => "Manual rhythm mode enabled! Press ; or ' to advance.".to_owned(),
            Status::ManualDisabled => "Manual rhythm mode disabled.".to_owned(),
            Status::AwaitingKey(action) => {
                let mut text = "Press any key to set ".to_owned();
                text.append(label_of(action));
                text.append(" hotkey...");
                text
            },
            Status::HotkeySet(action, key) => {
                let mut text = label_of(action).to_owned();
                text.append(" hotkey set to: ");
                let shown = format_key_description(key);
                text.append(shown.as_str());
                text
            },
        }
    }
}

/// The words that stand for `action` in the status line.
pub fn label_of(action: Action) -> (label: &'static str)
    ensures
        label@ == action_label(action),
{
    match action {
        Action::PlayPause => "Play/Pause",
        Action::Stop => "Stop",
        Action::SpeedUp => "Speed Up",
        Action::SpeedDown => "Speed Down",
    }
}

/// The text of the digit `d`.
fn digit_text(d: u64) -> (text: &'static str)
    requires
        d < 10,
    ensures
        text@ == seq![digit_char(d as nat)],
{
    proof {
        reveal_strlit("0");
        reveal_strlit("1");
        reveal_strlit("2");
        reveal_strlit("3");
        reveal_strlit("4");
        reveal_strlit("5");
        reveal_strlit("6");
        reveal_strlit("7");
        reveal_strlit("8");
        reveal_strlit("9");
    }
    match d {
        0 => "0",
        1 => "1",
        2 => "2",
        3 => "3",
        4 => "4",
        5 => "5",
        6 => "6",
        7 => "7",
        8 => "8",
        _ => "9",
    }
}

/// Appends the decimal numeral of `n` to `text`.
fn append_decimal(text: &mut String, n: u64)
    ensures
        final(text)@ == old(text)@ + decimal(n as nat),
    decreases n,
{
    if n >= 10 {
        append_decimal(text, n / 10);
    }
    text.append(digit_text(n % 10));
}

/// The text of a failed load is never empty.
pub proof fn lemma_failure_text_is_not_empty(error: LoadError)
    ensures
        Status::LoadFailed(error).text_spec().len() > 0,
{
    reveal_strlit("Failed to read the song file!");
    reveal_strlit("Invalid song format! JSON must contain at least one Song object.");
}

} // verus!
