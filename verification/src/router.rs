//! The hotkey router: what a global key event does to the control state.
//!
//! The router is a pure function of the key, the time, the control state and
//! its own memory of when each action last triggered. It never plays a note
//! itself: where a key press asks for playback or for a manual step, the
//! result says so and the caller starts the task.

use vstd::prelude::*;
use crate::control::{next_run, ControlModel, ControlState, Mode};
use crate::hotkeys::{Action, HotkeyCapture};
use crate::keys::KeyId;
use crate::speed::{in_range, stepped_down, stepped_up};

verus! {

/// The shortest time between two triggers of one action, in milliseconds. A
/// bound key that is pressed sooner after its action last triggered is
/// ignored, so that a key held down does not fire its command again and
/// again.
pub const COOLDOWN_MS: u64 = 200;

/// What the caller must do after a key press.
#[derive(Clone, Copy, Debug, PartialEq, Eq, Hash, Structural)]
pub enum Command {
    /// Nothing.
    Nothing,
    /// Start an automatic playback task and hand it the run number `token`.
    StartPlayback { token: u64 },
    /// Make one manual step.
    ManualStep,
}

/// The router's memory: when each action last triggered, on the caller's
/// monotonic clock, in milliseconds.
#[derive(Clone, Copy, Debug, PartialEq, Eq, Hash, Structural)]
pub struct HotkeyRouter {
    pub play_pause_ms: Option<u64>,
    pub stop_ms: Option<u64>,
    pub speed_up_ms: Option<u64>,
    pub speed_down_ms: Option<u64>,
}

impl HotkeyRouter {
    /// When `action` last triggered.
    pub open spec fn last_trigger(self, action: Action) -> Option<u64> {
        match action {
            Action::PlayPause => self.play_pause_ms,
            Action::Stop => self.stop_ms,
            Action::SpeedUp => self.speed_up_ms,
            Action::SpeedDown => self.speed_down_ms,
        }
    }

    /// This memory after `action` has triggered at `now_ms`.
    pub open spec fn triggered(self, action: Action, now_ms: u64) -> HotkeyRouter {
        match action {
            Action::PlayPause => HotkeyRouter { play_pause_ms: Some(now_ms), ..self },
            Action::Stop => HotkeyRouter { stop_ms: Some(now_ms), ..self },
            Action::SpeedUp => HotkeyRouter { speed_up_ms: Some(now_ms), ..self },
            Action::SpeedDown => HotkeyRouter { speed_down_ms: Some(now_ms), ..self },
        }
    }
}

/// Whether a trigger at `now_ms` comes too soon after one at
/// `last_trigger_ms`.
pub open spec fn cooling_down(last_trigger_ms: Option<u64>, now_ms: u64) -> bool {
    match last_trigger_ms {
        Some(last) => last <= now_ms && now_ms - last < COOLDOWN_MS,
        None => false,
    }
}

/// Whether a press of `key` is a manual advance: manual mode is on, a song is
/// playing, and the key is an advance key.
pub open spec fn is_manual_advance(control: ControlModel, key: KeyId) -> bool {
    control.manual_mode && control.mode == Mode::Playing && key.is_advance_key()
}

/// What the hotkey of `action` does to the control state, and what it asks
/// of the caller.
pub open spec fn trigger(control: ControlModel, action: Action) -> (ControlModel, Command) {
    match action {
        Action::PlayPause => if control.mode != Mode::Idle {
            (control.toggle_pause(), Command::Nothing)
        } else if control.song_path is Some {
            (control.start_playback(), Command::StartPlayback { token: next_run(control.run) })
        } else {
            (control, Command::Nothing)
        },
        Action::Stop => (control.stop(), Command::Nothing),
        Action::SpeedUp => (control.speed_up().announce_speed(), Command::Nothing),
        Action::SpeedDown => (control.speed_down().announce_speed(), Command::Nothing),
    }
}

/// What a key press does.
///
/// While a rebind is under way, the press is offered to it and does nothing
/// else. Otherwise the press counts only once the hotkeys are listening. It
/// is then a manual advance, which steps once per physical press, or it is
/// resolved against the bindings, where a trigger that comes within the
/// cooldown of the last trigger of the same action is dropped.
pub open spec fn press(router: HotkeyRouter, control: ControlModel, key: KeyId, now_ms: u64) -> (
    HotkeyRouter,
    ControlModel,
    Command,
) {
    if control.capture != HotkeyCapture::Inactive {
        (router, control.capture_key(key), Command::Nothing)
    } else if !control.listening() {
        (router, control, Command::Nothing)
    } else if is_manual_advance(control, key) {
        if control.manual_key_down {
            (router, control, Command::Nothing)
        } else {
            (router, control.with_key_down(true), Command::ManualStep)
        }
    } else {
        match control.hotkeys.action_of(key) {
            None => (router, control, Command::Nothing),
            Some(action) => if cooling_down(router.last_trigger(action), now_ms) {
                (router, control, Command::Nothing)
            } else {
                let (after, command) = trigger(control, action);
                (router.triggered(action, now_ms), after, command)
            },
        }
    }
}

/// What a key release does: in manual mode, the release of an advance key
/// makes the next press of one count again.
pub open spec fn release(control: ControlModel, key: KeyId) -> ControlModel {
    if control.manual_mode && key.is_advance_key() {
        control.with_key_down(false)
    } else {
        control
    }
}

/// A key press keeps the invariant of the control state, and it pauses only
/// a song that is playing.
pub proof fn lemma_press_keeps_invariant(
    router: HotkeyRouter,
    control: ControlModel,
    key: KeyId,
    now_ms: u64,
)
    requires
        control.wf(),
    ensures
        press(router, control, key, now_ms).1.wf(),
        release(control, key).wf(),
        press(router, control, key, now_ms).1.mode == Mode::Paused ==> control.mode
            == Mode::Playing || control.mode == Mode::Paused,
{
}

/// While a rebind is under way the hotkeys are suspended: a press is offered
/// to the rebind and does nothing else. A reserved key changes nothing at
/// all; a valid key becomes the binding that is waited for and ends the
/// rebind. Either way playback, speed and counters stay as they are and no
/// cooldown starts.
pub proof fn lemma_capture_suspends_hotkeys(
    router: HotkeyRouter,
    control: ControlModel,
    action: Action,
    key: KeyId,
    now_ms: u64,
)
    requires
        control.capture == HotkeyCapture::AwaitingBindingFor(action),
    ensures
        ({
            let after = press(router, control, key, now_ms);
            &&& after.0 == router
            &&& after.2 == Command::Nothing
            &&& key.is_reserved() ==> after.1 == control
            &&& !key.is_reserved() ==> after.1.hotkeys == control.hotkeys.rebound(action, key)
                && after.1.capture == HotkeyCapture::Inactive
            &&& after.1.mode == control.mode
            &&& after.1.speed == control.speed
            &&& after.1.progress == control.progress
            &&& after.1.manual_key_down == control.manual_key_down
            &&& after.1.run == control.run
        }),
{
}

/// Before a song was selected and played, the hotkeys do nothing.
pub proof fn lemma_hotkeys_wait_for_a_song(
    router: HotkeyRouter,
    control: ControlModel,
    key: KeyId,
    now_ms: u64,
)
    requires
        control.capture == HotkeyCapture::Inactive,
        !control.listening(),
    ensures
        press(router, control, key, now_ms) == (router, control, Command::Nothing),
{
}

/// An action triggers at most once per cooldown. A press that triggers an
/// action is remembered, and as long as the key stays bound to that action, a
/// press of it that comes within the cooldown of that trigger, and is no
/// manual advance, changes nothing.
pub proof fn lemma_cooldown_drops_repeats(
    router: HotkeyRouter,
    control: ControlModel,
    later: ControlModel,
    key: KeyId,
    action: Action,
    now_ms: u64,
    repeat_ms: u64,
)
    requires
        control.capture == HotkeyCapture::Inactive,
        control.listening(),
        !is_manual_advance(control, key),
        control.hotkeys.action_of(key) == Some(action),
        !cooling_down(router.last_trigger(action), now_ms),
        later.capture == HotkeyCapture::Inactive,
        !is_manual_advance(later, key),
        later.hotkeys.action_of(key) == Some(action),
        now_ms <= repeat_ms < now_ms + COOLDOWN_MS,
    ensures
        ({
            let after = press(router, control, key, now_ms);
            &&& after.0.last_trigger(action) == Some(now_ms)
            &&& (after.1, after.2) == trigger(control, action)
            &&& press(after.0, later, key, repeat_ms) == (after.0, later, Command::Nothing)
        }),
{
}

/// Stop is always within reach: while a song is playing or paused and no
/// rebind is under way, a press of the stop key that is not dropped by the
/// cooldown leads to idle.
pub proof fn lemma_stop_key_stops(
    router: HotkeyRouter,
    control: ControlModel,
    key: KeyId,
    now_ms: u64,
)
    requires
        control.capture == HotkeyCapture::Inactive,
        control.song_path is Some,
        control.mode != Mode::Idle,
        control.hotkeys.action_of(key) == Some(Action::Stop),
        !is_manual_advance(control, key),
        !cooling_down(router.stop_ms, now_ms),
    ensures
        press(router, control, key, now_ms).1 == control.stop(),
        press(router, control, key, now_ms).1.mode == Mode::Idle,
        press(router, control, key, now_ms).1.progress == control.progress,
{
}

/// The speed keys step the speed: while the hotkeys are listening and no
/// rebind is under way, a press of a speed key that is not dropped by the
/// cooldown moves the speed by one step, held at the limits, reports it in
/// the status and leaves playback as it is.
pub proof fn lemma_speed_keys_step(
    router: HotkeyRouter,
    control: ControlModel,
    key: KeyId,
    now_ms: u64,
)
    requires
        control.wf(),
        control.capture == HotkeyCapture::Inactive,
        control.listening(),
        !is_manual_advance(control, key),
    ensures
        control.hotkeys.action_of(key) == Some(Action::SpeedUp) && !cooling_down(
            router.speed_up_ms,
            now_ms,
        ) ==> press(router, control, key, now_ms).1 == control.speed_up().announce_speed() && press(
            router,
            control,
            key,
            now_ms,
        ).1.speed == stepped_up(control.speed),
        control.hotkeys.action_of(key) == Some(Action::SpeedDown) && !cooling_down(
            router.speed_down_ms,
            now_ms,
        ) ==> press(router, control, key, now_ms).1 == control.speed_down().announce_speed()
            && press(router, control, key, now_ms).1.speed == stepped_down(control.speed),
        in_range(press(router, control, key, now_ms).1.speed),
{
}

/// The play/pause key plays and pauses: while the hotkeys are listening and
/// no rebind is under way, a press of it that is not dropped by the cooldown
/// pauses a playing song, lets a paused one go on, and asks for a new run
/// where nothing is played.
pub proof fn lemma_play_pause_key_toggles(
    router: HotkeyRouter,
    control: ControlModel,
    key: KeyId,
    now_ms: u64,
)
    requires
        control.capture == HotkeyCapture::Inactive,
        control.listening(),
        !is_manual_advance(control, key),
        control.hotkeys.action_of(key) == Some(Action::PlayPause),
        !cooling_down(router.play_pause_ms, now_ms),
    ensures
        ({
            let after = press(router, control, key, now_ms);
            &&& control.mode == Mode::Playing ==> after.1.mode == Mode::Paused && after.2
                == Command::Nothing
            &&& control.mode == Mode::Paused ==> after.1.mode == Mode::Playing && after.2
                == Command::Nothing
            &&& control.mode == Mode::Idle ==> after.1.mode == Mode::Playing && after.2
                == (Command::StartPlayback { token: after.1.run }) && after.1.run != control.run
            &&& after.1.progress == control.progress
            &&& after.1.speed == control.speed
        }),
{
}

/// One manual step per physical press: once an advance key has asked for a
/// step, no press of an advance key asks for another until one is released.
pub proof fn lemma_one_step_per_press(
    router: HotkeyRouter,
    control: ControlModel,
    first: KeyId,
    second: KeyId,
    now_ms: u64,
    later_ms: u64,
)
    requires
        press(router, control, first, now_ms).2 == Command::ManualStep,
        second.is_advance_key(),
    ensures
        ({
            let after = press(router, control, first, now_ms);
            &&& after.1.manual_key_down
            &&& press(after.0, after.1, second, later_ms).2 == Command::Nothing
            &&& press(after.0, release(after.1, first), second, later_ms).2 == Command::ManualStep
        }),
{
}

impl HotkeyRouter {
    /// A router that has not triggered yet.
    pub fn new() -> (router: HotkeyRouter)
        ensures
            forall|action: Action| (#[trigger] router.last_trigger(action)) is None,
    {
        HotkeyRouter { play_pause_ms: None, stop_ms: None, speed_up_ms: None, speed_down_ms: None }
    }

    /// When `action` last triggered.
    pub fn last_trigger_of(&self, action: Action) -> (last: Option<u64>)
        ensures
            last == self.last_trigger(action),
    {
        match action {
            Action::PlayPause => self.play_pause_ms,
            Action::Stop => self.stop_ms,
            Action::SpeedUp => self.speed_up_ms,
            Action::SpeedDown => self.speed_down_ms,
        }
    }

    /// Whether a trigger of `action` at `now_ms` comes too soon after its
    /// last one.
    pub fn is_cooling_down(&self, action: Action, now_ms: u64) -> (yes: bool)
        ensures
            yes == cooling_down(self.last_trigger(action), now_ms),
    {
        match self.last_trigger_of(action) {
            Some(last) => last <= now_ms && now_ms - last < COOLDOWN_MS,
            None => false,
        }
    }

    /// Remembers that `action` triggered at `now_ms`.
    fn remember(&mut self, action: Action, now_ms: u64)
        ensures
            *final(self) == old(self).triggered(action, now_ms),
    {
        match action {
            Action::PlayPause => {
                self.play_pause_ms = Some(now_ms);
            },
            Action::Stop => {
                self.stop_ms = Some(now_ms);
            },
            Action::SpeedUp => {
                self.speed_up_ms = Some(now_ms);
            },
            Action::SpeedDown => {
                self.speed_down_ms = Some(now_ms);
            },
        }
    }

    /// Handles the press of `key` at `now_ms` on the caller's monotonic clock.
    pub fn on_key_press(&mut self, control: &mut ControlState, key: KeyId, now_ms: u64) -> (command:
        Command)
        ensures
            (*final(self), final(control)@, command) == press(
                *old(self),
                old(control)@,
                key,
                now_ms,
            ),
    {
        match control.hotkey_capture() {
            HotkeyCapture::AwaitingBindingFor(_) => {
                control.capture_key(key);
                return Command::Nothing;
            },
            HotkeyCapture::Inactive => {},
        }
        if !control.is_listening() {
            return Command::Nothing;
        }
        if control.manual_mode() && control.mode() == Mode::Playing && key.advances() {
            if control.manual_key_down() {
                return Command::Nothing;
            }
            control.set_manual_key_down(true);
            return Command::ManualStep;
        }
        match control.hotkeys().action_for(key) {
            None => Command::Nothing,
            Some(action) => {
                if self.is_cooling_down(action, now_ms) {
                    return Command::Nothing;
                }
                self.remember(action, now_ms);
                apply(control, action)
            },
        }
    }

    /// Handles the release of `key`.
    pub fn on_key_release(control: &mut ControlState, key: KeyId)
        ensures
            final(control)@ == release(old(control)@, key),
    {
        if control.manual_mode() && key.advances() {
            control.set_manual_key_down(false);
        }
    }
}

/// Carries out the hotkey of `action`.
pub fn apply(control: &mut ControlState, action: Action) -> (command: Command)
    ensures
        (final(control)@, command) == trigger(old(control)@, action),
{
    match action {
        Action::PlayPause => {
            if control.mode() != Mode::Idle {
                control.toggle_pause();
                Command::Nothing
            } else if control.has_song() {
                match control.start_playback() {
                    Some(token) => Command::StartPlayback { token },
                    None => Command::Nothing,
                }
            } else {
                Command::Nothing
            }
        },
        Action::Stop => {
            control.stop();
            Command::Nothing
        },
        Action::SpeedUp => {
            control.speed_up();
            control.announce_speed();
            Command::Nothing
        },
        Action::SpeedDown => {
            control.speed_down();
            control.announce_speed();
            Command::Nothing
        },
    }
}

} // verus!
