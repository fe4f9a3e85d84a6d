//! The playback scheduler: which note is due next, when, and how it is
//! struck.
//!
//! Automatic playback is a state machine. The playback task owns a
//! [`Playback`] and asks it, while holding the lock on the control state,
//! what to do next; it then lets the lock go and does it: it waits and types
//! a key, or sleeps through a pause, or ends. Manual playback is one call per
//! step.

use vstd::prelude::*;
use rand::Rng;
use crate::control::{ControlModel, ControlState, Mode};
use crate::hotkeys::Action;
use crate::keys::KeyId;
use crate::keymap::{map_key, mapped_key};
use crate::song::{injected_keys, LoadError, NoteModel, Song};
use crate::speed::{in_range, Speed};
use crate::status::Status;

verus! {

/// How long a paused task sleeps before it looks at the mode again, in
/// milliseconds.
pub const PAUSE_POLL_MS: u64 = 100;

/// How long a key is held down in manual mode, in milliseconds.
pub const MANUAL_HOLD_MS: u64 = 40;

/// How long an accented note is held before jitter, in milliseconds.
pub const ACCENT_HOLD_MS: i64 = 55;

/// How long a melodic peak is held before jitter, in milliseconds.
pub const PEAK_HOLD_MS: i64 = 50;

/// How long any other note is held before jitter, in milliseconds.
pub const PLAIN_HOLD_MS: i64 = 35;

/// The most that jitter adds to or takes off a hold, in milliseconds.
pub const JITTER_MS: i64 = 5;

/// The silence after an accented note, in milliseconds.
pub const ACCENT_GAP_MS: u64 = 5;

/// The silence after any other note, in milliseconds.
pub const PLAIN_GAP_MS: u64 = 10;

/// How a key is struck: held down for `hold_ms`, let go, then `gap_ms` of
/// silence.
#[derive(Clone, Copy, Debug, PartialEq, Eq, Hash, Structural)]
pub struct Press {
    pub key: char,
    pub hold_ms: u64,
    pub gap_ms: u64,
}

/// One note of an automatic run, ready to be played: wait until `target_ms`
/// have passed since the run began, then strike the key, if the note has one.
#[derive(Clone, Copy, Debug, PartialEq, Eq, Hash, Structural)]
pub struct Cue {
    /// The note's place in the song.
    pub index: usize,
    /// When the note is due, in milliseconds from the start of the run.
    pub target_ms: u64,
    /// The key to strike. A note whose symbol names no key strikes none.
    pub press: Option<Press>,
}

/// How an automatic run ended.
#[derive(Clone, Copy, Debug, PartialEq, Eq, Hash, Structural)]
pub enum Outcome {
    /// Every note was played.
    Finished,
    /// Playback was stopped from outside.
    Stopped,
    /// Another run has taken over.
    Superseded,
}

/// What the playback task does next.
#[derive(Clone, Copy, Debug, PartialEq, Eq, Hash, Structural)]
pub enum Step {
    /// Play a note, then ask again.
    Play(Cue),
    /// Sleep for [`PAUSE_POLL_MS`], then ask again.
    Poll,
    /// End the task.
    End(Outcome),
}

/// Whether the note at `index` is accented: every fourth note is, starting
/// with the first.
pub open spec fn is_accent(index: int) -> bool {
    index % 4 == 0
}

/// Whether the note at `index` is a melodic peak: it has a neighbour on
/// either side and is due strictly later than both.
pub open spec fn is_peak(notes: Seq<NoteModel>, index: int) -> bool {
    &&& 0 < index < notes.len() - 1
    &&& notes[index].offset_ms > notes[index - 1].offset_ms
    &&& notes[index].offset_ms > notes[index + 1].offset_ms
}

/// How long the note at `index` is held before jitter. An accent counts
/// before a peak.
pub open spec fn base_hold_ms(notes: Seq<NoteModel>, index: int) -> int {
    if is_accent(index) {
        ACCENT_HOLD_MS as int
    } else if is_peak(notes, index) {
        PEAK_HOLD_MS as int
    } else {
        PLAIN_HOLD_MS as int
    }
}

/// The silence after the note at `index`.
pub open spec fn gap_ms(index: int) -> int {
    if is_accent(index) {
        ACCENT_GAP_MS as int
    } else {
        PLAIN_GAP_MS as int
    }
}

/// When a note written for `offset_ms` is due at a speed of `speed`
/// thousandths: the offset divided by the speed, rounded down, and held at
/// the largest time that can be told.
pub open spec fn target_ms(offset_ms: u64, speed: int) -> int {
    let exact = (offset_ms * 1000) / speed;
    if exact > u64::MAX {
        u64::MAX as int
    } else {
        exact
    }
}

/// How long to wait for a note due at `target_ms` when `elapsed_micros`
/// microseconds of the run have passed, in microseconds. A note that is
/// already late is not waited for.
pub open spec fn wait_micros(target_ms: u64, elapsed_micros: u64) -> int {
    let target = if target_ms * 1000 > u64::MAX {
        u64::MAX as int
    } else {
        target_ms * 1000
    };
    if elapsed_micros < target {
        target - elapsed_micros
    } else {
        0
    }
}

/// The cue of the note at `index`, with `jitter` added to its hold.
pub open spec fn cue_of(notes: Seq<NoteModel>, speed: int, index: int, jitter: int) -> Cue {
    Cue {
        index: index as usize,
        target_ms: target_ms(notes[index].offset_ms, speed) as u64,
        press: match mapped_key(notes[index].symbol) {
            Some(key) => Some(
                Press {
                    key,
                    hold_ms: (base_hold_ms(notes, index) + jitter) as u64,
                    gap_ms: gap_ms(index) as u64,
                },
            ),
            None => None,
        },
    }
}

/// An automatic run as a mathematical record.
pub struct PlaybackModel {
    /// The notes of the song, in the order in which they were written.
    pub notes: Seq<NoteModel>,
    /// The speed of the run in thousandths, fixed when the run began.
    pub speed: int,
    /// The run's number.
    pub token: u64,
    /// The number of notes handed out to be played.
    pub next: nat,
    /// Whether the run is held by a pause at note `next`, which it has
    /// already counted as progress.
    pub waiting: bool,
    /// How the run ended, once it has.
    pub outcome: Option<Outcome>,
}

impl PlaybackModel {
    /// The invariant of a run.
    pub open spec fn wf(self) -> bool {
        &&& in_range(self.speed)
        &&& self.next <= self.notes.len()
        &&& self.waiting ==> self.next < self.notes.len()
        &&& self.notes.len() <= usize::MAX
    }

    /// The number of notes that the run has counted as progress.
    pub open spec fn position(self) -> nat {
        if self.waiting {
            self.next + 1
        } else {
            self.next
        }
    }

    /// This run, ended with `outcome`.
    pub open spec fn ended(self, outcome: Outcome) -> PlaybackModel {
        PlaybackModel { outcome: Some(outcome), ..self }
    }

    /// This run after it has handed out the note at `next`.
    pub open spec fn played(self) -> PlaybackModel {
        PlaybackModel { next: self.next + 1, waiting: false, ..self }
    }

    /// This run, held by a pause.
    pub open spec fn held(self) -> PlaybackModel {
        PlaybackModel { waiting: true, ..self }
    }

    /// The run numbered `token` over `notes` as it begins, at the speed that
    /// the control state holds at that moment. A run that does not own
    /// playback has ended before it began.
    pub open spec fn begun(control: ControlModel, token: u64, notes: Seq<NoteModel>) -> PlaybackModel {
        PlaybackModel {
            notes,
            speed: control.speed,
            token,
            next: 0,
            waiting: false,
            outcome: if control.owned_by(token) {
                None
            } else {
                Some(Outcome::Superseded)
            },
        }
    }
}

/// The control state after the run numbered `token` has begun on a song of
/// `total` notes: the counters are set and, unless playback was stopped
/// meanwhile, the status says that the song is playing. A run that does not
/// own playback changes nothing.
pub open spec fn control_begun(control: ControlModel, token: u64, total: nat) -> ControlModel {
    if !control.owned_by(token) {
        control
    } else if control.mode == Mode::Idle {
        control.report(0, total)
    } else {
        control.report(0, total).with_status(Status::Playing)
    }
}

/// The control state after the run numbered `token` has failed to load its
/// song: playback is idle and the status names the failure. A run that does
/// not own playback changes nothing.
pub open spec fn control_abandoned(control: ControlModel, token: u64, status: Status) -> ControlModel {
    if control.owned_by(token) {
        control.halt(status)
    } else {
        control
    }
}

/// One step of an automatic run: the run and the control state after it, and
/// what the task does next. `jitter` is added to the hold of the key, where
/// the step plays a note that has one.
///
/// A run that has ended stays ended. A run that no longer owns playback ends
/// without a trace. A run held by a pause ends when playback is stopped,
/// sleeps on while the pause lasts, and plays the note it was held at when
/// the pause is over. A run that has handed out its last note finishes. Any
/// other run ends if playback was stopped; else it counts the next note as
/// progress and then either plays it or, if playback is paused, holds.
pub open spec fn step_model(run: PlaybackModel, control: ControlModel, jitter: int) -> (
    PlaybackModel,
    ControlModel,
    Step,
) {
    let total = run.notes.len();
    if run.outcome is Some {
        (run, control, Step::End(run.outcome->Some_0))
    } else if !control.owned_by(run.token) {
        (run.ended(Outcome::Superseded), control, Step::End(Outcome::Superseded))
    } else if run.waiting {
        match control.mode {
            Mode::Idle => (run.ended(Outcome::Stopped), control, Step::End(Outcome::Stopped)),
            Mode::Paused => (run, control, Step::Poll),
            Mode::Playing => (
                run.played(),
                control.with_status(Status::Playing),
                Step::Play(cue_of(run.notes, run.speed, run.next as int, jitter)),
            ),
        }
    } else if run.next >= total {
        (run.ended(Outcome::Finished), control.halt(Status::Finished), Step::End(Outcome::Finished))
    } else if control.mode == Mode::Idle {
        (
            run.ended(Outcome::Stopped),
            control.with_status(Status::Stopped),
            Step::End(Outcome::Stopped),
        )
    } else if control.mode == Mode::Paused {
        (run.held(), control.report(run.next + 1, total).with_status(Status::Paused), Step::Poll)
    } else {
        (
            run.played(),
            control.report(run.next + 1, total),
            Step::Play(cue_of(run.notes, run.speed, run.next as int, jitter)),
        )
    }
}

/// Where the chord that starts with a note at `offset_ms` ends, given that
/// all notes before `from` belong to it: at the first note from `from` on
/// that is due at another time, or at the end of the song.
pub open spec fn run_end(notes: Seq<NoteModel>, offset_ms: u64, from: int) -> int
    decreases notes.len() - from,
{
    if 0 <= from < notes.len() && notes[from].offset_ms == offset_ms {
        run_end(notes, offset_ms, from + 1)
    } else {
        from
    }
}

/// Where the chord that starts at `start` ends: the index after the last of
/// the consecutive notes that are due at exactly the time of the note at
/// `start`.
pub open spec fn chord_end(notes: Seq<NoteModel>, start: int) -> int {
    run_end(notes, notes[start].offset_ms, start + 1)
}

/// One manual step over `notes`: the control state after it, and the keys it
/// types, in order.
///
/// Where the manual index has reached the end of the song, the step types
/// nothing and playback is finished. Else it types the chord at the manual
/// index, moves the index and the progress past it, and finishes playback if
/// that was the last chord.
pub open spec fn manual_step_model(control: ControlModel, notes: Seq<NoteModel>) -> (
    ControlModel,
    Seq<char>,
) {
    let total = notes.len();
    let start = control.manual_index as int;
    if start >= total {
        (control.halt(Status::Finished), Seq::empty())
    } else {
        let end = chord_end(notes, start);
        let reported = control.manual_report(end as nat, total);
        let keys = injected_keys(notes.subrange(start, end));
        if end >= total {
            (reported.halt(Status::Finished), keys)
        } else {
            (reported.with_status(Status::Manual { done: end as usize, total: total as usize }), keys)
        }
    }
}

/// The chord that starts at `start` is not empty, ends within the song, holds
/// only notes due at the time of its first, and stops at the end of the song
/// or before a note due at another time.
pub proof fn lemma_chord_end(notes: Seq<NoteModel>, start: int)
    requires
        0 <= start < notes.len(),
    ensures
        start < chord_end(notes, start) <= notes.len(),
        forall|k: int|
            start <= k < chord_end(notes, start) ==> (#[trigger] notes[k]).offset_ms
                == notes[start].offset_ms,
        chord_end(notes, start) < notes.len() ==> notes[chord_end(notes, start)].offset_ms
            != notes[start].offset_ms,
{
    lemma_run_end(notes, notes[start].offset_ms, start, start + 1);
}

/// A manual step that starts within the song plays exactly one chord: the
/// manual index moves to the end of the chord at which it stood, which is
/// further on; the progress follows it; the total is the number of notes;
/// the keys typed are the keys of the notes of that chord, in order; and
/// playback is finished exactly if the chord was the last.
pub proof fn lemma_manual_step_plays_one_chord(control: ControlModel, notes: Seq<NoteModel>)
    requires
        control.wf(),
        control.manual_index < notes.len(),
    ensures
        ({
            let after = manual_step_model(control, notes);
            let end = chord_end(notes, control.manual_index as int);
            &&& after.0.wf()
            &&& control.manual_index < after.0.manual_index <= notes.len()
            &&& after.0.manual_index == end
            &&& after.0.progress == end
            &&& after.0.total == notes.len()
            &&& after.1 == injected_keys(notes.subrange(control.manual_index as int, end))
            &&& end == notes.len() ==> after.0.mode == Mode::Idle && after.0.status
                == Status::Finished
            &&& end < notes.len() ==> after.0.mode == control.mode
        }),
{
    lemma_chord_end(notes, control.manual_index as int);
}

/// The scan for the end of a chord, from any point that the chord reaches.
proof fn lemma_run_end(notes: Seq<NoteModel>, offset_ms: u64, start: int, from: int)
    requires
        0 <= start < from <= notes.len(),
        forall|k: int| start <= k < from ==> (#[trigger] notes[k]).offset_ms == offset_ms,
    ensures
        from <= run_end(notes, offset_ms, from) <= notes.len(),
        forall|k: int|
            start <= k < run_end(notes, offset_ms, from) ==> (#[trigger] notes[k]).offset_ms
                == offset_ms,
        run_end(notes, offset_ms, from) < notes.len() ==> notes[run_end(
            notes,
            offset_ms,
            from,
        )].offset_ms != offset_ms,
    decreases notes.len() - from,
{
    if from < notes.len() && notes[from].offset_ms == offset_ms {
        lemma_run_end(notes, offset_ms, start, from + 1);
    }
}

/// The keys that a step types: the key of the note it plays, if the note has
/// one.
pub open spec fn keys_of_step(step: Step) -> Seq<char> {
    match step {
        Step::Play(cue) => match cue.press {
            Some(press) => seq![press.key],
            None => Seq::empty(),
        },
        _ => Seq::empty(),
    }
}

/// The run, the control state and the keys typed so far after `steps` steps
/// that nothing from outside came between. Step `k` draws the jitter
/// `jitters(k)`.
pub open spec fn undisturbed(
    run: PlaybackModel,
    control: ControlModel,
    jitters: spec_fn(nat) -> int,
    steps: nat,
) -> (PlaybackModel, ControlModel, Seq<char>)
    decreases steps,
{
    if steps == 0 {
        (run, control, Seq::empty())
    } else {
        let before = undisturbed(run, control, jitters, (steps - 1) as nat);
        let after = step_model(before.0, before.1, jitters((steps - 1) as nat));
        (after.0, after.1, before.2 + keys_of_step(after.2))
    }
}

/// Notes are handed out in the order in which they were written, whatever
/// their offsets: a step that plays a note plays the one at `next`, with the
/// key of its symbol, and moves `next` on by one.
pub proof fn lemma_notes_play_in_written_order(
    run: PlaybackModel,
    control: ControlModel,
    jitter: int,
)
    requires
        run.wf(),
    ensures
        step_model(run, control, jitter).2 matches Step::Play(cue) ==> {
            &&& cue.index == run.next
            &&& run.next < run.notes.len()
            &&& step_model(run, control, jitter).0.next == run.next + 1
            &&& mapped_key(run.notes[run.next as int].symbol) == match cue.press {
                Some(press) => Some(press.key),
                None => None,
            }
        },
{
}

/// Progress counts notes one by one and never passes the total: a step
/// either leaves the number of counted notes as it is or raises it by
/// exactly one, and when it raises it, the control state shows that number
/// as the progress, out of the number of notes of the song.
pub proof fn lemma_progress_counts_notes(run: PlaybackModel, control: ControlModel, jitter: int)
    requires
        run.wf(),
        control.wf(),
    ensures
        ({
            let after = step_model(run, control, jitter);
            &&& after.0.wf()
            &&& after.1.wf()
            &&& after.0.position() <= run.notes.len()
            &&& after.0.position() == run.position() || after.0.position() == run.position() + 1
            &&& after.0.position() == run.position() + 1 ==> after.1.progress
                == after.0.position() && after.1.total == run.notes.len()
            &&& after.0.position() == run.position() ==> after.1.progress == control.progress
        }),
{
}

/// A stopped run makes no progress: once playback is idle, the next step of
/// any run ends that run and leaves the progress where it was.
pub proof fn lemma_stop_freezes_progress(run: PlaybackModel, control: ControlModel, jitter: int)
    requires
        control.mode == Mode::Idle,
    ensures
        step_model(run, control, jitter).2 is End,
        step_model(run, control, jitter).1.progress == control.progress,
        step_model(run, control, jitter).1.mode == Mode::Idle,
{
}

/// The scheduler keeps the invariant of the control state, and it never
/// pauses a song: whatever it does, a state that is paused afterwards was
/// paused before.
pub proof fn lemma_scheduler_keeps_invariant(
    run: PlaybackModel,
    control: ControlModel,
    jitter: int,
    token: u64,
    status: Status,
    notes: Seq<NoteModel>,
)
    requires
        run.wf(),
        control.wf(),
    ensures
        control_begun(control, token, notes.len()).wf(),
        control_abandoned(control, token, status).wf(),
        step_model(run, control, jitter).1.wf(),
        manual_step_model(control, notes).0.wf(),
        control_begun(control, token, notes.len()).mode == control.mode,
        control_abandoned(control, token, status).mode != Mode::Paused || control.mode
            == Mode::Paused,
        step_model(run, control, jitter).1.mode != Mode::Paused || control.mode == Mode::Paused,
        manual_step_model(control, notes).0.mode != Mode::Paused || control.mode == Mode::Paused,
{
    if control.manual_index < notes.len() {
        lemma_chord_end(notes, control.manual_index as int);
    }
}

/// At most one run owns playback: a request for playback that is granted
/// takes ownership from whatever run held it, and a run without ownership
/// ends at its next step and leaves the control state as it found it.
pub proof fn lemma_single_owner(run: PlaybackModel, control: ControlModel, jitter: int)
    ensures
        control.may_start() ==> !control.start_playback().owned_by(control.run),
        !control.select_song(Seq::empty()).owned_by(control.run),
        run.outcome is None && !control.owned_by(run.token) ==> step_model(run, control, jitter)
            == (run.ended(Outcome::Superseded), control, Step::End(Outcome::Superseded)),
{
}

/// While nothing comes between, a run plays one note per step: after `steps`
/// steps, for any number of steps up to the number of notes, that many notes
/// are handed out, the progress is that number, which equals the total only
/// once every note is played, and the keys typed are the keys of those notes
/// in the order in which they were written.
pub proof fn lemma_undisturbed_run(
    control: ControlModel,
    token: u64,
    notes: Seq<NoteModel>,
    jitters: spec_fn(nat) -> int,
    steps: nat,
)
    requires
        control.wf(),
        control.mode == Mode::Playing,
        control.owned_by(token),
        steps <= notes.len(),
    ensures
        ({
            let after = undisturbed(
                PlaybackModel::begun(control, token, notes),
                control_begun(control, token, notes.len()),
                jitters,
                steps,
            );
            &&& after.0 == PlaybackModel { next: steps, ..PlaybackModel::begun(control, token, notes) }
            &&& after.1.progress == steps
            &&& after.1.total == notes.len()
            &&& after.1.mode == Mode::Playing
            &&& after.1.owned_by(token)
            &&& (after.1.progress == after.1.total <==> steps == notes.len())
            &&& after.2 == injected_keys(notes.take(steps as int))
        }),
    decreases steps,
{
    if steps > 0 {
        let k = (steps - 1) as nat;
        lemma_undisturbed_run(control, token, notes, jitters, k);
        assert(notes.take(steps as int).drop_last() =~= notes.take(k as int));
    }
}

/// A run that nothing comes between plays its song to the end: one step
/// after the last note it has finished, playback is idle, the progress
/// equals the total, and the keys typed are exactly the keys of the notes
/// whose symbols name one, in the order in which they were written.
pub proof fn lemma_run_to_completion(
    control: ControlModel,
    token: u64,
    notes: Seq<NoteModel>,
    jitters: spec_fn(nat) -> int,
)
    requires
        control.wf(),
        control.mode == Mode::Playing,
        control.owned_by(token),
    ensures
        ({
            let after = undisturbed(
                PlaybackModel::begun(control, token, notes),
                control_begun(control, token, notes.len()),
                jitters,
                notes.len() + 1,
            );
            &&& after.0.outcome == Some(Outcome::Finished)
            &&& after.1.mode == Mode::Idle
            &&& after.1.status == Status::Finished
            &&& after.1.progress == notes.len()
            &&& after.1.total == notes.len()
            &&& after.2 == injected_keys(notes)
        }),
{
    lemma_undisturbed_run(control, token, notes, jitters, notes.len());
    assert(notes.take(notes.len() as int) =~= notes);
}

/// Whether the move from `before` to `after` leaves a run alone: it keeps the
/// invariant, takes ownership from no run, leaves the counters as they are
/// and does not stop playback. Pausing and resuming are such moves.
pub open spec fn quiet(before: ControlModel, after: ControlModel) -> bool {
    &&& after.wf()
    &&& after.run == before.run
    &&& after.progress == before.progress
    &&& after.total == before.total
    &&& before.mode != Mode::Idle ==> after.mode != Mode::Idle
}

/// Whether every move of `moves` leaves a run alone. `moves(k, control)` is
/// what the operator makes of `control` before step `k` of the run.
pub open spec fn all_quiet(moves: spec_fn(nat, ControlModel) -> ControlModel) -> bool {
    forall|k: nat, control: ControlModel|
        control.wf() ==> quiet(control, #[trigger] moves(k, control))
}

/// The run, the control state and the keys typed so far after `steps` steps,
/// where the operator makes the move `moves(k, ..)` on the control state
/// before step `k` and step `k` draws the jitter `jitters(k)`.
pub open spec fn interleaved(
    run: PlaybackModel,
    control: ControlModel,
    jitters: spec_fn(nat) -> int,
    moves: spec_fn(nat, ControlModel) -> ControlModel,
    steps: nat,
) -> (PlaybackModel, ControlModel, Seq<char>)
    decreases steps,
{
    if steps == 0 {
        (run, control, Seq::empty())
    } else {
        let k = (steps - 1) as nat;
        let before = interleaved(run, control, jitters, moves, k);
        let after = step_model(before.0, moves(k, before.1), jitters(k));
        (after.0, after.1, before.2 + keys_of_step(after.2))
    }
}

/// What the operator does to a song that is played, short of stopping it,
/// leaves its run alone: pausing, resuming, changing the speed, rebinding a
/// hotkey, pressing and releasing an advance key, and asking for playback
/// that is already under way.
pub proof fn lemma_operator_moves_are_quiet(
    control: ControlModel,
    per_mille: int,
    action: Action,
    key: KeyId,
    down: bool,
    status: Status,
)
    requires
        control.wf(),
    ensures
        quiet(control, control.pause()),
        quiet(control, control.resume()),
        quiet(control, control.toggle_pause()),
        quiet(control, control.speed_up()),
        quiet(control, control.speed_down()),
        quiet(control, control.set_speed(per_mille)),
        quiet(control, control.announce_speed()),
        quiet(control, control.request_rebind(action)),
        quiet(control, control.capture_key(key)),
        quiet(control, control.with_key_down(down)),
        quiet(control, control.with_status(status)),
        control.mode != Mode::Idle ==> quiet(control, control.start_playback()),
{
}

/// A run that is paused and resumed at will, but neither stopped nor
/// superseded, counts every note once and ends only by finishing.
///
/// After any number of steps, with any moves of the operator between them
/// that leave the run alone: the total is the number of notes; the progress
/// is the number of notes that the run has counted, never more than the
/// total, and equal to it only from the last note on; the keys typed are the
/// keys of the notes handed out, in the order in which they were written;
/// and the run has either not ended or has finished. The step at which it
/// ends leaves playback idle with the status of a finished song, the
/// progress equal to the total, and every key of the song typed.
pub proof fn lemma_run_with_pauses(
    control: ControlModel,
    token: u64,
    notes: Seq<NoteModel>,
    jitters: spec_fn(nat) -> int,
    moves: spec_fn(nat, ControlModel) -> ControlModel,
    steps: nat,
)
    requires
        control.wf(),
        control.mode != Mode::Idle,
        control.owned_by(token),
        all_quiet(moves),
    ensures
        ({
            let after = interleaved(
                PlaybackModel::begun(control, token, notes),
                control_begun(control, token, notes.len()),
                jitters,
                moves,
                steps,
            );
            &&& after.0.notes == notes
            &&& after.0.token == token
            &&& after.0.next <= notes.len()
            &&& after.0.waiting ==> after.0.next < notes.len()
            &&& after.1.wf()
            &&& after.1.total == notes.len()
            &&& after.1.progress <= after.1.total
            &&& (after.1.progress == after.1.total <==> after.0.position() == notes.len())
            &&& after.2 == injected_keys(notes.take(after.0.next as int))
            &&& after.0.outcome is None || after.0.outcome == Some(Outcome::Finished)
            &&& after.0.outcome is None ==> {
                &&& after.1.progress == after.0.position()
                &&& after.1.owned_by(token)
                &&& after.1.mode != Mode::Idle
            }
            &&& after.0.outcome is Some ==> after.0.next == notes.len() && !after.0.waiting
            &&& steps > 0 && after.0.outcome is Some && interleaved(
                PlaybackModel::begun(control, token, notes),
                control_begun(control, token, notes.len()),
                jitters,
                moves,
                (steps - 1) as nat,
            ).0.outcome is None ==> {
                &&& after.1.mode == Mode::Idle
                &&& after.1.status == Status::Finished
                &&& after.1.progress == notes.len()
                &&& after.2 == injected_keys(notes)
            }
        }),
    decreases steps,
{
    if steps > 0 {
        let k = (steps - 1) as nat;
        lemma_run_with_pauses(control, token, notes, jitters, moves, k);
        let run = PlaybackModel::begun(control, token, notes);
        let started = control_begun(control, token, notes.len());
        let before = interleaved(run, started, jitters, moves, k);
        let moved = moves(k, before.1);
        let after = step_model(before.0, moved, jitters(k));
        if after.0.next == before.0.next + 1 {
            assert(notes.take(after.0.next as int).drop_last() =~= notes.take(before.0.next as int));
        }
        assert(notes.take(notes.len() as int) =~= notes);
    }
}

/// A number drawn at random between `low` and `high`, both included.
///
/// Trusted: the body calls `rand::Rng::random_range` on the generator of the
/// current thread, `rand::rng()`. The contract claims what holds of every
/// draw from a range that is not empty: the number lies within the bounds.
#[verifier::external_body]
fn random_between(low: i64, high: i64) -> (drawn: i64)
    requires
        low <= high,
    ensures
        low <= drawn <= high,
{
    rand::rng().random_range(low..=high)
}

/// When a note written for `offset_ms` is due at `speed`.
pub fn due_at(offset_ms: u64, speed: Speed) -> (due: u64)
    ensures
        due == target_ms(offset_ms, speed@),
{
    let per_mille: u128 = speed.per_mille() as u128;
    let scaled: u128 = (offset_ms as u128) * 1000;
    let exact: u128 = scaled / per_mille;
    if exact > u64::MAX as u128 {
        u64::MAX
    } else {
        exact as u64
    }
}

/// How long to wait for a note due at `target_ms` when `elapsed_micros`
/// microseconds of the run have passed, in microseconds.
pub fn wait_before(target_ms: u64, elapsed_micros: u64) -> (wait: u64)
    ensures
        wait == wait_micros(target_ms, elapsed_micros),
{
    let target: u64 = if target_ms > u64::MAX / 1000 {
        u64::MAX
    } else {
        target_ms * 1000
    };
    if elapsed_micros < target {
        target - elapsed_micros
    } else {
        0
    }
}

/// How the key of the note at `index` is struck, before jitter: how long it
/// is held and how long the silence after it lasts.
pub fn articulation(song: &Song, index: usize) -> (held_and_gap: (i64, u64))
    requires
        index < song@.notes.len(),
    ensures
        held_and_gap.0 == base_hold_ms(song@.notes, index as int),
        held_and_gap.1 == gap_ms(index as int),
{
    let n = song.notes.len();
    if index % 4 == 0 {
        (ACCENT_HOLD_MS, ACCENT_GAP_MS)
    } else {
        let peak = index > 0 && index < n - 1 && song.notes[index].offset_ms > song.notes[index
            - 1].offset_ms && song.notes[index].offset_ms > song.notes[index + 1].offset_ms;
        if peak {
            (PEAK_HOLD_MS, PLAIN_GAP_MS)
        } else {
            (PLAIN_HOLD_MS, PLAIN_GAP_MS)
        }
    }
}

/// The cue of the note at `index` of `song` at `speed`, with `jitter` added
/// to the hold of its key.
pub fn cue_for(song: &Song, speed: Speed, index: usize, jitter: i64) -> (cue: Cue)
    requires
        index < song@.notes.len(),
        -JITTER_MS <= jitter <= JITTER_MS,
    ensures
        cue == cue_of(song@.notes, speed@, index as int, jitter as int),
{
    let note = &song.notes[index];
    let target = due_at(note.offset_ms, speed);
    let press = match map_key(note.symbol.as_str()) {
        Some(key) => {
            let (hold, gap) = articulation(song, index);
            Some(Press { key, hold_ms: (hold + jitter) as u64, gap_ms: gap })
        },
        None => None,
    };
    Cue { index, target_ms: target, press }
}

/// An automatic run: the song it plays, the speed it began with, and how far
/// it has come.
pub struct Playback {
    song: Song,
    speed: Speed,
    token: u64,
    next: usize,
    waiting: bool,
    outcome: Option<Outcome>,
}

impl View for Playback {
    type V = PlaybackModel;

    closed spec fn view(&self) -> PlaybackModel {
        PlaybackModel {
            notes: self.song@.notes,
            speed: self.speed@,
            token: self.token,
            next: self.next as nat,
            waiting: self.waiting,
            outcome: self.outcome,
        }
    }
}

impl Playback {
    /// The invariant of a run, which holds of every run there is.
    #[verifier::type_invariant]
    pub open spec fn well_formed(self) -> bool {
        self@.wf()
    }

    /// Begins the run numbered `token` over `song`: the speed is read once,
    /// for the whole run, and the counters of the control state are set.
    pub fn begin(control: &mut ControlState, token: u64, song: Song) -> (run: Playback)
        ensures
            run@ == PlaybackModel::begun(old(control)@, token, song@.notes),
            final(control)@ == control_begun(old(control)@, token, song@.notes.len()),
    {
        let speed = control.speed();
        proof {
            use_type_invariant(&speed);
        }
        let owned = control.run() == token;
        let total = song.notes.len();
        if owned {
            control.report_progress(0, total);
            if control.mode() != Mode::Idle {
                control.set_status(Status::Playing);
            }
        }
        Playback {
            song,
            speed,
            token,
            next: 0,
            waiting: false,
            outcome: if owned {
                None
            } else {
                Some(Outcome::Superseded)
            },
        }
    }

    /// The song of the run.
    pub fn song(&self) -> (song: &Song)
        ensures
            song@.notes == self@.notes,
    {
        &self.song
    }

    /// How the run ended, once it has.
    pub fn outcome(&self) -> (outcome: Option<Outcome>)
        ensures
            outcome == self@.outcome,
    {
        self.outcome
    }

    /// The number of notes handed out to be played.
    pub fn position(&self) -> (next: usize)
        ensures
            next == self@.next,
            next <= self@.notes.len(),
    {
        proof {
            use_type_invariant(self);
        }
        self.next
    }

    /// Ends the run.
    fn end(&mut self, outcome: Outcome) -> (step: Step)
        ensures
            final(self)@ == old(self)@.ended(outcome),
            step == Step::End(outcome),
    {
        proof {
            use_type_invariant(&*self);
        }
        self.outcome = Some(outcome);
        Step::End(outcome)
    }

    /// Hands out the note at `next`.
    fn play(&mut self, jitter: i64) -> (step: Step)
        requires
            old(self)@.next < old(self)@.notes.len(),
            -JITTER_MS <= jitter <= JITTER_MS,
        ensures
            final(self)@ == old(self)@.played(),
            step == Step::Play(
                cue_of(old(self)@.notes, old(self)@.speed, old(self)@.next as int, jitter as int),
            ),
    {
        proof {
            use_type_invariant(&*self);
        }
        let cue = cue_for(&self.song, self.speed, self.next, jitter);
        self.waiting = false;
        self.next = self.next + 1;
        Step::Play(cue)
    }

    /// Makes one step of the run with `jitter` as the jitter of the hold,
    /// and says what the task does next. To be called with the lock on the
    /// control state held.
    pub fn advance_with(&mut self, control: &mut ControlState, jitter: i64) -> (step: Step)
        requires
            -JITTER_MS <= jitter <= JITTER_MS,
        ensures
            (final(self)@, final(control)@, step) == step_model(
                old(self)@,
                old(control)@,
                jitter as int,
            ),
    {
        proof {
            use_type_invariant(&*self);
        }
        let total = self.song.notes.len();
        if let Some(outcome) = self.outcome {
            return Step::End(outcome);
        }
        if control.run() != self.token {
            return self.end(Outcome::Superseded);
        }
        let mode = control.mode();
        if self.waiting {
            match mode {
                Mode::Idle => self.end(Outcome::Stopped),
                Mode::Paused => Step::Poll,
                Mode::Playing => {
                    control.set_status(Status::Playing);
                    self.play(jitter)
                },
            }
        } else if self.next >= total {
            control.halt(Status::Finished);
            self.end(Outcome::Finished)
        } else if mode == Mode::Idle {
            control.set_status(Status::Stopped);
            self.end(Outcome::Stopped)
        } else if mode == Mode::Paused {
            control.report_progress(self.next + 1, total);
            control.set_status(Status::Paused);
            self.waiting = true;
            Step::Poll
        } else {
            control.report_progress(self.next + 1, total);
            self.play(jitter)
        }
    }

    /// Makes one step of the run and says what the task does next. The
    /// jitter of the hold is drawn at random; whatever is drawn, the step is
    /// the step of [`step_model`] for some jitter within the limits.
    pub fn advance(&mut self, control: &mut ControlState) -> (step: Step)
        ensures
            exists|jitter: int|
                -JITTER_MS <= jitter <= JITTER_MS && (final(self)@, final(control)@, step)
                    == #[trigger] step_model(old(self)@, old(control)@, jitter),
    {
        let jitter = random_between(-JITTER_MS, JITTER_MS);
        self.advance_with(control, jitter)
    }
}

/// Gives up the run numbered `token` because its song could not be loaded or
/// its keys cannot be typed: playback returns to idle with `status`, unless
/// another run has taken over meanwhile.
pub fn abandon(control: &mut ControlState, token: u64, status: Status)
    ensures
        final(control)@ == control_abandoned(old(control)@, token, status),
{
    if control.run() == token {
        control.halt(status);
    }
}

/// The keys that playing `song` from first note to last types, in order.
pub fn keys_of(song: &Song) -> (keys: Vec<char>)
    ensures
        keys@ == injected_keys(song@.notes),
{
    assert(song@.notes.subrange(0, song@.notes.len() as int) =~= song@.notes);
    chord_keys(song, 0, song.notes.len())
}

/// The keys that the notes of `song` from `start` up to `end` type, in order.
pub fn chord_keys(song: &Song, start: usize, end: usize) -> (keys: Vec<char>)
    requires
        start <= end <= song@.notes.len(),
    ensures
        keys@ == injected_keys(song@.notes.subrange(start as int, end as int)),
{
    let mut keys: Vec<char> = Vec::new();
    let mut k: usize = start;
    let ghost notes = song@.notes;
    while k < end
        invariant
            start <= k <= end <= song.notes.len(),
            notes == song@.notes,
            notes.len() == song.notes.len(),
            keys@ == injected_keys(notes.subrange(start as int, k as int)),
        decreases end - k,
    {
        proof {
            let shorter = notes.subrange(start as int, k as int);
            let longer = notes.subrange(start as int, k + 1);
            assert(longer.drop_last() =~= shorter);
        }
        match map_key(song.notes[k].symbol.as_str()) {
            Some(key) => {
                keys.push(key);
            },
            None => {},
        }
        k = k + 1;
    }
    keys
}

/// Where the chord that starts at `start` ends.
pub fn end_of_chord(song: &Song, start: usize) -> (end: usize)
    requires
        start < song@.notes.len(),
    ensures
        end == chord_end(song@.notes, start as int),
        start < end <= song@.notes.len(),
{
    let n = song.notes.len();
    let offset = song.notes[start].offset_ms;
    let ghost notes = song@.notes;
    let mut end: usize = start + 1;
    proof {
        lemma_chord_end(notes, start as int);
    }
    while end < n && song.notes[end].offset_ms == offset
        invariant
            start < end <= n,
            n == song.notes.len(),
            notes == song@.notes,
            notes.len() == n,
            offset == notes[start as int].offset_ms,
            run_end(notes, offset, end as int) == chord_end(notes, start as int),
        decreases n - end,
    {
        end = end + 1;
    }
    end
}

/// Makes one manual step over `song`, which the caller has just loaded, and
/// returns the keys to type, in order, each held for [`MANUAL_HOLD_MS`]. To
/// be called once per counted press of an advance key.
pub fn manual_tick(control: &mut ControlState, song: &Song) -> (keys: Vec<char>)
    ensures
        (final(control)@, keys@) == manual_step_model(old(control)@, song@.notes),
{
    let total = song.notes.len();
    let start = control.manual_index();
    if start >= total {
        control.halt(Status::Finished);
        return Vec::new();
    }
    let end = end_of_chord(song, start);
    let keys = chord_keys(song, start, end);
    control.report_manual_step(end, total);
    if end >= total {
        control.halt(Status::Finished);
    } else {
        control.set_status(Status::Manual { done: end, total });
    }
    keys
}

/// Gives up a manual step because its song could not be loaded: playback
/// returns to idle and the status names the failure.
pub fn manual_tick_failed(control: &mut ControlState, error: LoadError)
    ensures
        final(control)@ == old(control)@.halt(Status::LoadFailed(error)),
{
    control.halt(Status::LoadFailed(error));
}

} // verus!
