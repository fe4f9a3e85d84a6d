//! The control state: the one record that the hotkey router, the playback
//! tasks and the presentation layer share, and every transition that any of
//! them may make on it.
//!
//! The record is meant to live behind one lock. Each method here is one
//! transition, to be made while the lock is held.

use vstd::prelude::*;
use crate::hotkeys::{Action, HotkeyCapture, Hotkeys};
use crate::keys::{is_valid_hotkey, KeyId};
use crate::speed::{clamped, in_range, stepped_down, stepped_up, Speed, NORMAL_PER_MILLE};
use crate::status::Status;

verus! {

/// Whether a song is being played.
#[derive(Clone, Copy, Debug, PartialEq, Eq, Hash, Structural)]
pub enum Mode {
    /// Nothing is played.
    Idle,
    /// A song is played.
    Playing,
    /// A song is played and held where it is.
    Paused,
}

/// The control state as a mathematical record.
pub struct ControlModel {
    /// The selected song file, if one was selected.
    pub song_path: Option<Seq<char>>,
    /// The speed in thousandths.
    pub speed: int,
    pub mode: Mode,
    /// Whether the operator steps through the song by hand.
    pub manual_mode: bool,
    /// The note at which the next manual step starts.
    pub manual_index: nat,
    /// The number of notes played so far.
    pub progress: nat,
    /// The number of notes of the song last played.
    pub total: nat,
    pub status: Status,
    pub capture: HotkeyCapture,
    pub hotkeys: Hotkeys,
    /// Whether an advance key is held down.
    pub manual_key_down: bool,
    /// The number of the automatic run that owns playback. A task that holds
    /// another number has been superseded.
    pub run: u64,
}

/// The run number after `run`.
pub open spec fn next_run(run: u64) -> u64 {
    if run == u64::MAX {
        0
    } else {
        (run + 1) as u64
    }
}

impl ControlModel {
    /// The invariant of the control state: the speed is within its limits,
    /// neither the progress nor the manual index passes the total, and no
    /// reserved key is bound to an action.
    pub open spec fn wf(self) -> bool {
        &&& in_range(self.speed)
        &&& self.progress <= self.total
        &&& self.manual_index <= self.total
        &&& self.hotkeys.valid()
    }

    /// The state that a process starts with, given its hotkeys. A reserved
    /// key among them gives way to the default of its action.
    pub open spec fn initial(hotkeys: Hotkeys) -> ControlModel {
        ControlModel {
            song_path: None,
            speed: NORMAL_PER_MILLE as int,
            mode: Mode::Idle,
            manual_mode: false,
            manual_index: 0,
            progress: 0,
            total: 0,
            status: Status::Ready,
            capture: HotkeyCapture::Inactive,
            hotkeys: hotkeys.sanitized(),
            manual_key_down: false,
            run: 0,
        }
    }

    /// Whether the global hotkeys act at all: a song is selected, and
    /// playback was started or has made progress.
    pub open spec fn listening(self) -> bool {
        self.song_path is Some && (self.mode != Mode::Idle || self.progress > 0)
    }

    /// Whether the automatic run numbered `token` still owns playback.
    pub open spec fn owned_by(self, token: u64) -> bool {
        self.run == token
    }

    /// This state with `status` as its status.
    pub open spec fn with_status(self, status: Status) -> ControlModel {
        ControlModel { status, ..self }
    }

    /// A song file is selected: the counters start over, any automatic run is
    /// superseded, and manual mode, where it is on, is ready for its first
    /// step.
    pub open spec fn select_song(self, path: Seq<char>) -> ControlModel {
        ControlModel {
            song_path: Some(path),
            status: Status::SongLoaded,
            manual_index: 0,
            progress: 0,
            mode: if self.manual_mode {
                Mode::Playing
            } else {
                Mode::Idle
            },
            run: next_run(self.run),
            ..self
        }
    }

    /// Manual mode is switched: on, it starts at the first note and is ready
    /// for a step; off, playback is idle. Either way any automatic run is
    /// superseded. Without a selected song nothing changes.
    pub open spec fn toggle_manual(self) -> ControlModel {
        if self.song_path is None {
            self
        } else if self.manual_mode {
            ControlModel {
                manual_mode: false,
                status: Status::ManualDisabled,
                mode: Mode::Idle,
                run: next_run(self.run),
                ..self
            }
        } else {
            ControlModel {
                manual_mode: true,
                status: Status::ManualEnabled,
                manual_index: 0,
                mode: Mode::Playing,
                run: next_run(self.run),
                ..self
            }
        }
    }

    /// Whether a request for automatic playback is granted: nothing is
    /// played, and a song is selected.
    pub open spec fn may_start(self) -> bool {
        self.mode == Mode::Idle && self.song_path is Some
    }

    /// Automatic playback is asked for. From idle with a song selected, a new
    /// run takes ownership; from idle without a song, the status says so;
    /// while a song is played nothing changes.
    pub open spec fn start_playback(self) -> ControlModel {
        if self.mode != Mode::Idle {
            self
        } else if self.song_path is None {
            ControlModel { status: Status::NoSong, ..self }
        } else {
            ControlModel {
                mode: Mode::Playing,
                status: Status::Starting,
                run: next_run(self.run),
                ..self
            }
        }
    }

    /// Playback is paused. Only a playing song can be.
    pub open spec fn pause(self) -> ControlModel {
        if self.mode == Mode::Playing {
            ControlModel { mode: Mode::Paused, status: Status::Paused, ..self }
        } else {
            self
        }
    }

    /// Playback goes on after a pause.
    pub open spec fn resume(self) -> ControlModel {
        if self.mode == Mode::Paused {
            ControlModel { mode: Mode::Playing, status: Status::Resuming, ..self }
        } else {
            self
        }
    }

    /// The play/pause hotkey while a song is played: playing becomes paused
    /// and paused becomes playing.
    pub open spec fn toggle_pause(self) -> ControlModel {
        match self.mode {
            Mode::Playing => ControlModel { mode: Mode::Paused, status: Status::Paused, ..self },
            Mode::Paused => ControlModel { mode: Mode::Playing, status: Status::Playing, ..self },
            Mode::Idle => self,
        }
    }

    /// Playback is stopped. The counters stay as they are.
    pub open spec fn stop(self) -> ControlModel {
        if self.mode == Mode::Idle {
            self
        } else {
            ControlModel { mode: Mode::Idle, status: Status::Stopped, ..self }
        }
    }

    /// The speed goes up by one step, held at the upper limit.
    pub open spec fn speed_up(self) -> ControlModel {
        ControlModel { speed: stepped_up(self.speed), ..self }
    }

    /// The speed goes down by one step, held at the lower limit.
    pub open spec fn speed_down(self) -> ControlModel {
        ControlModel { speed: stepped_down(self.speed), ..self }
    }

    /// The speed is set to `per_mille` thousandths, brought within the limits.
    pub open spec fn set_speed(self, per_mille: int) -> ControlModel {
        ControlModel { speed: clamped(per_mille), ..self }
    }

    /// The status reports the speed.
    pub open spec fn announce_speed(self) -> ControlModel {
        ControlModel { status: Status::Speed { per_mille: self.speed as u16 }, ..self }
    }

    /// A rebind of `action` begins.
    pub open spec fn request_rebind(self, action: Action) -> ControlModel {
        ControlModel {
            capture: HotkeyCapture::AwaitingBindingFor(action),
            status: Status::AwaitingKey(action),
            ..self
        }
    }

    /// A key is pressed while a rebind may be under way. A valid key becomes
    /// the binding that is waited for and ends the rebind; a reserved key, or
    /// any key while no rebind is under way, changes nothing.
    pub open spec fn capture_key(self, key: KeyId) -> ControlModel {
        match self.capture {
            HotkeyCapture::AwaitingBindingFor(action) => if key.is_reserved() {
                self
            } else {
                ControlModel {
                    hotkeys: self.hotkeys.rebound(action, key),
                    status: Status::HotkeySet(action, key),
                    capture: HotkeyCapture::Inactive,
                    ..self
                }
            },
            HotkeyCapture::Inactive => self,
        }
    }

    /// An advance key went down or up.
    pub open spec fn with_key_down(self, down: bool) -> ControlModel {
        ControlModel { manual_key_down: down, ..self }
    }

    /// A playback task reports that `progress` of `total` notes are played.
    /// A manual index left beyond the new total is brought back to it.
    pub open spec fn report(self, progress: nat, total: nat) -> ControlModel {
        ControlModel {
            progress,
            total,
            manual_index: if self.manual_index <= total {
                self.manual_index
            } else {
                total
            },
            ..self
        }
    }

    /// A manual step reports that the notes before `index` of `total` are
    /// played.
    pub open spec fn manual_report(self, index: nat, total: nat) -> ControlModel {
        ControlModel { progress: index, manual_index: index, total, ..self }
    }

    /// Playback ends with `status`.
    pub open spec fn halt(self, status: Status) -> ControlModel {
        ControlModel { mode: Mode::Idle, status, ..self }
    }
}

/// Every transition keeps the invariant of the control state.
pub proof fn lemma_transitions_keep_invariant(
    control: ControlModel,
    path: Seq<char>,
    per_mille: int,
    action: Action,
    key: KeyId,
    down: bool,
    status: Status,
    progress: nat,
    total: nat,
)
    requires
        control.wf(),
        progress <= total,
    ensures
        control.with_status(status).wf(),
        control.select_song(path).wf(),
        control.toggle_manual().wf(),
        control.start_playback().wf(),
        control.pause().wf(),
        control.resume().wf(),
        control.toggle_pause().wf(),
        control.stop().wf(),
        control.speed_up().wf(),
        control.speed_down().wf(),
        control.set_speed(per_mille).wf(),
        control.announce_speed().wf(),
        control.request_rebind(action).wf(),
        control.capture_key(key).wf(),
        control.with_key_down(down).wf(),
        control.report(progress, total).wf(),
        control.manual_report(progress, total).wf(),
        control.halt(status).wf(),
{
}

/// No transition of the operator pauses a song that is not playing: a state
/// that is paused after one of them was playing or paused before.
pub proof fn lemma_paused_only_after_playing(
    control: ControlModel,
    path: Seq<char>,
    per_mille: int,
    action: Action,
    key: KeyId,
)
    ensures
        control.select_song(path).mode == Mode::Paused ==> control.mode == Mode::Paused,
        control.toggle_manual().mode == Mode::Paused ==> control.mode == Mode::Paused,
        control.start_playback().mode == Mode::Paused ==> control.mode == Mode::Paused,
        control.pause().mode == Mode::Paused ==> control.mode == Mode::Playing || control.mode
            == Mode::Paused,
        control.resume().mode != Mode::Paused,
        control.toggle_pause().mode == Mode::Paused ==> control.mode == Mode::Playing,
        control.stop().mode != Mode::Paused,
        control.speed_up().mode == control.mode,
        control.speed_down().mode == control.mode,
        control.set_speed(per_mille).mode == control.mode,
        control.announce_speed().mode == control.mode,
        control.request_rebind(action).mode == control.mode,
        control.capture_key(key).mode == control.mode,
{
}

/// Stop always works and works once: from playing or paused it leads to
/// idle, it leaves the counters as they are, and a second stop changes
/// nothing more.
pub proof fn lemma_stop_is_idempotent(control: ControlModel)
    ensures
        control.stop().mode == Mode::Idle,
        control.stop().progress == control.progress,
        control.stop().total == control.total,
        control.stop().manual_index == control.manual_index,
        control.stop().stop() == control.stop(),
        control.mode == Mode::Idle ==> control.stop() == control,
{
}

/// A rebind takes the first valid key and nothing else: a reserved key
/// leaves the bindings and the rebind as they are; a valid key becomes the
/// binding of the action that was waited for, leaves the other three
/// bindings alone and ends the rebind.
pub proof fn lemma_capture_takes_first_valid_key(control: ControlModel, action: Action, key: KeyId)
    requires
        control.capture == HotkeyCapture::AwaitingBindingFor(action),
    ensures
        key.is_reserved() ==> control.capture_key(key) == control,
        !key.is_reserved() ==> control.capture_key(key).hotkeys.key_of(action) == key,
        !key.is_reserved() ==> control.capture_key(key).capture == HotkeyCapture::Inactive,
        forall|other: Action|
            other != action ==> #[trigger] control.capture_key(key).hotkeys.key_of(other)
                == control.hotkeys.key_of(other),
{
}

/// The one shared control state. Its fields are read through the getters and
/// changed through the transitions. The invariant [`ControlModel::wf`] holds
/// of its view at every moment.
pub struct ControlState {
    song_path: Option<String>,
    speed: Speed,
    mode: Mode,
    manual_mode: bool,
    manual_index: usize,
    progress: usize,
    total: usize,
    status: Status,
    capture: HotkeyCapture,
    hotkeys: Hotkeys,
    manual_key_down: bool,
    run: u64,
}

/// The characters of an optional string.
pub open spec fn path_model(path: Option<String>) -> Option<Seq<char>> {
    match path {
        Some(p) => Some(p@),
        None => None,
    }
}

impl View for ControlState {
    type V = ControlModel;

    closed spec fn view(&self) -> ControlModel {
        ControlModel {
            song_path: path_model(self.song_path),
            speed: self.speed@,
            mode: self.mode,
            manual_mode: self.manual_mode,
            manual_index: self.manual_index as nat,
            progress: self.progress as nat,
            total: self.total as nat,
            status: self.status,
            capture: self.capture,
            hotkeys: self.hotkeys,
            manual_key_down: self.manual_key_down,
            run: self.run,
        }
    }
}

impl ControlState {
    /// The invariant of the control state, which holds of every control
    /// state there is.
    #[verifier::type_invariant]
    pub open spec fn well_formed(self) -> bool {
        self@.wf()
    }

    /// The state that a process starts with: no song, normal speed, idle, the
    /// given hotkeys, but for reserved keys among them, which give way to
    /// the defaults of their actions.
    pub fn new(hotkeys: Hotkeys) -> (state: ControlState)
        ensures
            state@ == ControlModel::initial(hotkeys),
    {
        ControlState {
            song_path: None,
            speed: Speed::normal(),
            mode: Mode::Idle,
            manual_mode: false,
            manual_index: 0,
            progress: 0,
            total: 0,
            status: Status::Ready,
            capture: HotkeyCapture::Inactive,
            hotkeys: hotkeys.without_reserved(),
            manual_key_down: false,
            run: 0,
        }
    }

    /// The selected song file.
    pub fn song_path(&self) -> (path: Option<&String>)
        ensures
            path is Some <==> self@.song_path is Some,
            path is Some ==> path->Some_0@ == self@.song_path->Some_0,
    {
        self.song_path.as_ref()
    }

    /// Whether a song file is selected.
    pub fn has_song(&self) -> (yes: bool)
        ensures
            yes == self@.song_path is Some,
    {
        self.song_path.is_some()
    }

    /// The speed.
    pub fn speed(&self) -> (speed: Speed)
        ensures
            speed@ == self@.speed,
    {
        self.speed
    }

    /// The playback mode.
    pub fn mode(&self) -> (mode: Mode)
        ensures
            mode == self@.mode,
    {
        self.mode
    }

    /// Whether manual mode is on.
    pub fn manual_mode(&self) -> (on: bool)
        ensures
            on == self@.manual_mode,
    {
        self.manual_mode
    }

    /// The note at which the next manual step starts.
    pub fn manual_index(&self) -> (index: usize)
        ensures
            index == self@.manual_index,
            index <= self@.total,
    {
        proof {
            use_type_invariant(self);
        }
        self.manual_index
    }

    /// The number of notes played so far.
    pub fn progress(&self) -> (progress: usize)
        ensures
            progress == self@.progress,
            progress <= self@.total,
    {
        proof {
            use_type_invariant(self);
        }
        self.progress
    }

    /// The number of notes of the song last played.
    pub fn total(&self) -> (total: usize)
        ensures
            total == self@.total,
    {
        self.total
    }

    /// The status.
    pub fn status(&self) -> (status: Status)
        ensures
            status == self@.status,
    {
        self.status
    }

    /// The capture state.
    pub fn hotkey_capture(&self) -> (capture: HotkeyCapture)
        ensures
            capture == self@.capture,
    {
        self.capture
    }

    /// The hotkeys. None of them is a reserved key.
    pub fn hotkeys(&self) -> (hotkeys: Hotkeys)
        ensures
            hotkeys == self@.hotkeys,
            hotkeys.valid(),
    {
        proof {
            use_type_invariant(self);
        }
        self.hotkeys
    }

    /// Whether an advance key is held down.
    pub fn manual_key_down(&self) -> (down: bool)
        ensures
            down == self@.manual_key_down,
    {
        self.manual_key_down
    }

    /// The number of the automatic run that owns playback.
    pub fn run(&self) -> (run: u64)
        ensures
            run == self@.run,
    {
        self.run
    }

    /// Whether the global hotkeys act at all.
    pub fn is_listening(&self) -> (yes: bool)
        ensures
            yes == self@.listening(),
    {
        self.song_path.is_some() && (self.mode != Mode::Idle || self.progress > 0)
    }

    /// Gives playback to a new run, which supersedes every earlier one.
    fn supersede(&mut self)
        ensures
            final(self)@ == (ControlModel { run: next_run(old(self)@.run), ..old(self)@ }),
    {
        proof {
            use_type_invariant(&*self);
        }
        if self.run == u64::MAX {
            self.run = 0;
        } else {
            self.run = self.run + 1;
        }
    }

    /// Selects the song file at `path`.
    pub fn select_song(&mut self, path: String)
        ensures
            final(self)@ == old(self)@.select_song(path@),
    {
        proof {
            use_type_invariant(&*self);
        }
        self.song_path = Some(path);
        self.status = Status::SongLoaded;
        self.manual_index = 0;
        self.progress = 0;
        if self.manual_mode {
            self.mode = Mode::Playing;
        } else {
            self.mode = Mode::Idle;
        }
        self.supersede();
    }

    /// Switches manual mode on or off.
    pub fn toggle_manual_mode(&mut self)
        ensures
            final(self)@ == old(self)@.toggle_manual(),
    {
        proof {
            use_type_invariant(&*self);
        }
        if self.song_path.is_none() {
            return ;
        }
        if self.manual_mode {
            self.manual_mode = false;
            self.status = Status::ManualDisabled;
            self.mode = Mode::Idle;
        } else {
            self.manual_mode = true;
            self.status = Status::ManualEnabled;
            self.manual_index = 0;
            self.mode = Mode::Playing;
        }
        self.supersede();
    }

    /// Asks for automatic playback. Where the request is granted, the result
    /// is the number of the new run: the caller starts a playback task and
    /// hands it that number.
    pub fn start_playback(&mut self) -> (token: Option<u64>)
        ensures
            final(self)@ == old(self)@.start_playback(),
            token == if old(self)@.may_start() {
                Some(final(self)@.run)
            } else {
                None
            },
    {
        proof {
            use_type_invariant(&*self);
        }
        if self.mode != Mode::Idle {
            return None;
        }
        if self.song_path.is_none() {
            self.status = Status::NoSong;
            return None;
        }
        self.mode = Mode::Playing;
        self.status = Status::Starting;
        self.supersede();
        Some(self.run)
    }

    /// The play button: asks for automatic playback unless manual mode is on,
    /// in which the button does nothing.
    pub fn press_play(&mut self) -> (token: Option<u64>)
        ensures
            final(self)@ == if old(self)@.manual_mode {
                old(self)@
            } else {
                old(self)@.start_playback()
            },
            token == if !old(self)@.manual_mode && old(self)@.may_start() {
                Some(final(self)@.run)
            } else {
                None
            },
    {
        if self.manual_mode {
            None
        } else {
            self.start_playback()
        }
    }

    /// Pauses a playing song.
    pub fn pause(&mut self)
        ensures
            final(self)@ == old(self)@.pause(),
    {
        proof {
            use_type_invariant(&*self);
        }
        if self.mode == Mode::Playing {
            self.mode = Mode::Paused;
            self.status = Status::Paused;
        }
    }

    /// Lets a paused song go on.
    pub fn resume(&mut self)
        ensures
            final(self)@ == old(self)@.resume(),
    {
        proof {
            use_type_invariant(&*self);
        }
        if self.mode == Mode::Paused {
            self.mode = Mode::Playing;
            self.status = Status::Resuming;
        }
    }

    /// Pauses a playing song, or lets a paused one go on.
    pub fn toggle_pause(&mut self)
        ensures
            final(self)@ == old(self)@.toggle_pause(),
    {
        proof {
            use_type_invariant(&*self);
        }
        match self.mode {
            Mode::Playing => {
                self.mode = Mode::Paused;
                self.status = Status::Paused;
            },
            Mode::Paused => {
                self.mode = Mode::Playing;
                self.status = Status::Playing;
            },
            Mode::Idle => {},
        }
    }

    /// Stops playback.
    pub fn stop(&mut self)
        ensures
            final(self)@ == old(self)@.stop(),
    {
        proof {
            use_type_invariant(&*self);
        }
        if self.mode != Mode::Idle {
            self.mode = Mode::Idle;
            self.status = Status::Stopped;
        }
    }

    /// Raises the speed by one step.
    pub fn speed_up(&mut self)
        ensures
            final(self)@ == old(self)@.speed_up(),
    {
        proof {
            use_type_invariant(&*self);
        }
        self.speed = self.speed.faster();
    }

    /// Lowers the speed by one step.
    pub fn speed_down(&mut self)
        ensures
            final(self)@ == old(self)@.speed_down(),
    {
        proof {
            use_type_invariant(&*self);
        }
        self.speed = self.speed.slower();
    }

    /// Sets the speed to `per_mille` thousandths, brought within the limits.
    pub fn set_speed(&mut self, per_mille: u16)
        ensures
            final(self)@ == old(self)@.set_speed(per_mille as int),
    {
        proof {
            use_type_invariant(&*self);
        }
        self.speed = Speed::from_per_mille(per_mille);
    }

    /// Reports the speed in the status.
    pub fn announce_speed(&mut self)
        ensures
            final(self)@ == old(self)@.announce_speed(),
    {
        proof {
            use_type_invariant(&*self);
        }
        self.status = Status::Speed { per_mille: self.speed.per_mille() };
    }

    /// Begins a rebind of `action`.
    pub fn request_rebind(&mut self, action: Action)
        ensures
            final(self)@ == old(self)@.request_rebind(action),
    {
        proof {
            use_type_invariant(&*self);
        }
        self.capture = HotkeyCapture::AwaitingBindingFor(action);
        self.status = Status::AwaitingKey(action);
    }

    /// Offers a pressed key to the rebind under way, if there is one.
    pub fn capture_key(&mut self, key: KeyId)
        ensures
            final(self)@ == old(self)@.capture_key(key),
    {
        proof {
            use_type_invariant(&*self);
        }
        match self.capture {
            HotkeyCapture::AwaitingBindingFor(action) => {
                if is_valid_hotkey(key) {
                    let mut hotkeys = self.hotkeys;
                    hotkeys.rebind(action, key);
                    self.hotkeys = hotkeys;
                    self.status = Status::HotkeySet(action, key);
                    self.capture = HotkeyCapture::Inactive;
                }
            },
            HotkeyCapture::Inactive => {},
        }
    }

    /// Records that an advance key went down or up.
    pub fn set_manual_key_down(&mut self, down: bool)
        ensures
            final(self)@ == old(self)@.with_key_down(down),
    {
        proof {
            use_type_invariant(&*self);
        }
        self.manual_key_down = down;
    }

    /// Sets the status.
    pub fn set_status(&mut self, status: Status)
        ensures
            final(self)@ == old(self)@.with_status(status),
    {
        proof {
            use_type_invariant(&*self);
        }
        self.status = status;
    }

    /// Records that `progress` of `total` notes are played.
    pub fn report_progress(&mut self, progress: usize, total: usize)
        requires
            progress <= total,
        ensures
            final(self)@ == old(self)@.report(progress as nat, total as nat),
    {
        proof {
            use_type_invariant(&*self);
        }
        self.progress = 0;
        if self.manual_index > total {
            self.manual_index = 0;
            self.total = total;
            self.manual_index = total;
        } else {
            self.total = total;
        }
        self.progress = progress;
    }

    /// Records that a manual step played the notes before `index` of `total`.
    pub fn report_manual_step(&mut self, index: usize, total: usize)
        requires
            index <= total,
        ensures
            final(self)@ == old(self)@.manual_report(index as nat, total as nat),
    {
        proof {
            use_type_invariant(&*self);
        }
        self.progress = 0;
        self.manual_index = 0;
        self.total = total;
        self.manual_index = index;
        self.progress = index;
    }

    /// Ends playback with `status`.
    pub fn halt(&mut self, status: Status)
        ensures
            final(self)@ == old(self)@.halt(status),
    {
        proof {
            use_type_invariant(&*self);
        }
        self.mode = Mode::Idle;
        self.status = status;
    }
}

} // verus!
