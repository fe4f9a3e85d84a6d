use sky_sheet_player::control::{ControlState, Mode};
use sky_sheet_player::hotkeys::Hotkeys;
use sky_sheet_player::keymap::map_key;
use sky_sheet_player::scheduler::{
    abandon, articulation, chord_keys, cue_for, due_at, end_of_chord, keys_of, manual_tick,
    manual_tick_failed, wait_before, Cue, Outcome, Playback, Press, Step, ACCENT_GAP_MS,
    ACCENT_HOLD_MS, JITTER_MS, MANUAL_HOLD_MS, PAUSE_POLL_MS, PEAK_HOLD_MS, PLAIN_GAP_MS,
    PLAIN_HOLD_MS,
};
use sky_sheet_player::song::{LoadError, Note, Song};
use sky_sheet_player::speed::Speed;
use sky_sheet_player::status::Status;

fn song_of(notes: &[(&str, u64)]) -> Song {
    Song {
        name: "test".to_string(),
        bpm: 120,
        bits_per_page: 16,
        pitch_level: 0,
        help_text: "".to_string(),
        notes: notes
            .iter()
            .map(|(symbol, offset_ms)| Note { symbol: symbol.to_string(), offset_ms: *offset_ms })
            .collect(),
    }
}

fn started() -> (ControlState, u64) {
    let mut control = ControlState::new(Hotkeys::default());
    control.select_song("song.txt".to_string());
    let token = control.start_playback().unwrap();
    (control, token)
}

fn manual_state() -> ControlState {
    let mut control = ControlState::new(Hotkeys::default());
    control.select_song("song.txt".to_string());
    control.toggle_manual_mode();
    control
}

fn play_to_end(control: &mut ControlState, run: &mut Playback) -> (Vec<usize>, Vec<char>, Outcome) {
    let mut indices = Vec::new();
    let mut keys = Vec::new();
    loop {
        match run.advance(control) {
            Step::Play(cue) => {
                indices.push(cue.index);
                if let Some(press) = cue.press {
                    keys.push(press.key);
                }
            }
            Step::Poll => panic!("a run that is not paused does not poll"),
            Step::End(outcome) => return (indices, keys, outcome),
        }
    }
}

#[test]
fn the_constants_of_articulation() {
    assert_eq!(PAUSE_POLL_MS, 100);
    assert_eq!(MANUAL_HOLD_MS, 40);
    assert_eq!(ACCENT_HOLD_MS, 55);
    assert_eq!(PEAK_HOLD_MS, 50);
    assert_eq!(PLAIN_HOLD_MS, 35);
    assert_eq!(JITTER_MS, 5);
    assert_eq!(ACCENT_GAP_MS, 5);
    assert_eq!(PLAIN_GAP_MS, 10);
}

#[test]
fn a_note_is_due_at_its_offset_divided_by_the_speed() {
    assert_eq!(due_at(1000, Speed::normal()), 1000);
    assert_eq!(due_at(1000, Speed::from_per_mille(2000)), 500);
    assert_eq!(due_at(1000, Speed::from_per_mille(500)), 2000);
    assert_eq!(due_at(1000, Speed::from_per_mille(1200)), 833);
    assert_eq!(due_at(100000, Speed::from_per_mille(1500)), 66666);
    assert_eq!(due_at(7, Speed::from_per_mille(1100)), 6);
    assert_eq!(due_at(0, Speed::from_per_mille(700)), 0);
    assert_eq!(due_at(1, Speed::from_per_mille(2000)), 0);
}

#[test]
fn a_due_time_beyond_the_largest_is_held_at_the_largest() {
    assert_eq!(due_at(u64::MAX, Speed::normal()), u64::MAX);
    assert_eq!(due_at(u64::MAX, Speed::from_per_mille(500)), u64::MAX);
    assert_eq!(due_at(u64::MAX, Speed::from_per_mille(2000)), u64::MAX / 2);
    assert_eq!(due_at(u64::MAX / 2 + 1, Speed::from_per_mille(500)), u64::MAX);
    assert_eq!(due_at(u64::MAX / 2, Speed::from_per_mille(500)), u64::MAX - 1);
}

#[test]
fn a_late_note_is_not_waited_for() {
    assert_eq!(wait_before(100, 0), 100_000);
    assert_eq!(wait_before(100, 99_999), 1);
    assert_eq!(wait_before(100, 100_000), 0);
    assert_eq!(wait_before(100, 250_000), 0);
    assert_eq!(wait_before(0, 0), 0);
    assert_eq!(wait_before(u64::MAX, 5), u64::MAX - 5);
    assert_eq!(wait_before(u64::MAX / 1000, 0), (u64::MAX / 1000) * 1000);
    assert_eq!(wait_before(u64::MAX / 1000 + 1, 0), u64::MAX);
}

#[test]
fn every_fourth_note_is_accented() {
    let song = song_of(&[
        ("1Key0", 0),
        ("1Key1", 100),
        ("1Key2", 200),
        ("1Key3", 300),
        ("1Key4", 400),
        ("1Key5", 500),
    ]);
    assert_eq!(articulation(&song, 0), (55, 5));
    assert_eq!(articulation(&song, 1), (35, 10));
    assert_eq!(articulation(&song, 2), (35, 10));
    assert_eq!(articulation(&song, 3), (35, 10));
    assert_eq!(articulation(&song, 4), (55, 5));
    assert_eq!(articulation(&song, 5), (35, 10));
}

#[test]
fn a_peak_is_later_than_both_neighbours() {
    let song = song_of(&[
        ("1Key0", 0),
        ("1Key1", 300),
        ("1Key2", 200),
        ("1Key3", 200),
        ("1Key4", 900),
        ("1Key5", 100),
        ("1Key6", 500),
    ]);
    assert_eq!(articulation(&song, 1), (50, 10));
    assert_eq!(articulation(&song, 2), (35, 10));
    assert_eq!(articulation(&song, 3), (35, 10));
    // An accent counts before a peak.
    assert_eq!(articulation(&song, 4), (55, 5));
    assert_eq!(articulation(&song, 5), (35, 10));
    // The last note has no neighbour after it.
    assert_eq!(articulation(&song, 6), (35, 10));
    let two = song_of(&[("1Key0", 0), ("1Key1", 50)]);
    assert_eq!(articulation(&two, 1), (35, 10));
    let one = song_of(&[("1Key0", 7)]);
    assert_eq!(articulation(&one, 0), (55, 5));
}

#[test]
fn a_cue_says_when_and_how_to_strike() {
    let song = song_of(&[("1Key0", 0), ("1Key9", 600), ("rest", 300), ("1Key14", 300)]);
    let speed = Speed::from_per_mille(1500);
    assert_eq!(
        cue_for(&song, speed, 0, -5),
        Cue { index: 0, target_ms: 0, press: Some(Press { key: 'y', hold_ms: 50, gap_ms: 5 }) }
    );
    assert_eq!(
        cue_for(&song, speed, 1, 5),
        Cue { index: 1, target_ms: 400, press: Some(Press { key: ';', hold_ms: 55, gap_ms: 10 }) }
    );
    assert_eq!(cue_for(&song, speed, 2, 3), Cue { index: 2, target_ms: 200, press: None });
    assert_eq!(
        cue_for(&song, speed, 3, 0),
        Cue { index: 3, target_ms: 200, press: Some(Press { key: '/', hold_ms: 35, gap_ms: 10 }) }
    );
}

#[test]
fn a_run_begins_with_the_counters_set() {
    let (mut control, token) = started();
    control.report_manual_step(5, 9);
    let song = song_of(&[("1Key0", 0), ("1Key1", 10), ("1Key2", 20)]);
    let run = Playback::begin(&mut control, token, song);
    assert_eq!(run.outcome(), None);
    assert_eq!(run.position(), 0);
    assert_eq!(run.song().notes.len(), 3);
    assert_eq!(control.total(), 3);
    assert_eq!(control.progress(), 0);
    assert_eq!(control.manual_index(), 3);
    assert_eq!(control.status(), Status::Playing);
    assert_eq!(control.mode(), Mode::Playing);
}

#[test]
fn progress_rises_by_one_per_note_and_reaches_the_total_at_the_end() {
    let (mut control, token) = started();
    let song = song_of(&[("1Key0", 0), ("x", 10), ("1Key2", 5), ("1Key3", 5), ("1Key4", 40)]);
    let mut run = Playback::begin(&mut control, token, song);
    let mut times_at_total = 0;
    for i in 0..5 {
        assert_eq!(control.progress(), i);
        match run.advance_with(&mut control, 0) {
            Step::Play(cue) => assert_eq!(cue.index, i),
            other => panic!("expected a note, got {:?}", other),
        }
        assert_eq!(control.progress(), i + 1);
        assert_eq!(control.total(), 5);
        assert!(control.progress() <= control.total());
        if control.progress() == control.total() {
            times_at_total += 1;
        }
        assert_eq!(run.position(), i + 1);
        assert_eq!(control.mode(), Mode::Playing);
    }
    assert_eq!(times_at_total, 1);
    assert_eq!(run.advance_with(&mut control, 0), Step::End(Outcome::Finished));
    assert_eq!(control.progress(), 5);
    assert_eq!(control.total(), 5);
    assert_eq!(control.mode(), Mode::Idle);
    assert_eq!(control.status(), Status::Finished);
    assert_eq!(control.status().text(), "Song finished!");
    assert_eq!(run.outcome(), Some(Outcome::Finished));
    assert_eq!(run.advance_with(&mut control, 0), Step::End(Outcome::Finished));
}

#[test]
fn notes_play_in_written_order_whatever_their_offsets() {
    let (mut control, token) = started();
    let song = song_of(&[
        ("1Key3", 500),
        ("1Key1", 0),
        ("1Key1", 0),
        ("1Key7", 9000),
        ("1Key0", 20),
        ("1Key14", 20),
    ]);
    let mut run = Playback::begin(&mut control, token, song);
    let (indices, keys, outcome) = play_to_end(&mut control, &mut run);
    assert_eq!(indices, vec![0, 1, 2, 3, 4, 5]);
    assert_eq!(keys, vec!['o', 'u', 'u', 'k', 'y', '/']);
    assert_eq!(outcome, Outcome::Finished);
}

#[test]
fn a_full_run_types_the_keys_of_the_mappable_notes() {
    let (mut control, token) = started();
    let song = song_of(&[
        ("1Key0", 0),
        ("2Key0", 10),
        ("1Key5", 20),
        ("", 30),
        ("1Key15", 40),
        ("1Key+9", 50),
        ("1Key12", 50),
        ("1Key13", 45),
    ]);
    let expected: Vec<char> =
        song.notes.iter().filter_map(|note| map_key(&note.symbol)).collect();
    assert_eq!(expected, vec!['y', 'h', ';', '.', ',']);
    assert_eq!(keys_of(&song), expected);
    let mut run = Playback::begin(&mut control, token, song);
    let (indices, keys, outcome) = play_to_end(&mut control, &mut run);
    assert_eq!(keys, expected);
    assert_eq!(indices.len(), 8);
    assert_eq!(outcome, Outcome::Finished);
    assert_eq!(control.progress(), 8);
    assert_eq!(control.total(), 8);
}

#[test]
fn an_empty_song_finishes_at_once() {
    let (mut control, token) = started();
    let mut run = Playback::begin(&mut control, token, song_of(&[]));
    assert_eq!(control.total(), 0);
    assert_eq!(run.advance(&mut control), Step::End(Outcome::Finished));
    assert_eq!(control.mode(), Mode::Idle);
    assert_eq!(control.status(), Status::Finished);
    assert_eq!(control.progress(), 0);
}

#[test]
fn the_speed_of_a_run_is_fixed_when_it_begins() {
    let (mut control, token) = started();
    control.set_speed(2000);
    let song = song_of(&[("1Key0", 1000), ("1Key1", 2000)]);
    let mut run = Playback::begin(&mut control, token, song);
    control.set_speed(500);
    match run.advance_with(&mut control, 0) {
        Step::Play(cue) => assert_eq!(cue.target_ms, 500),
        other => panic!("expected a note, got {:?}", other),
    }
    control.speed_up();
    match run.advance_with(&mut control, 0) {
        Step::Play(cue) => assert_eq!(cue.target_ms, 1000),
        other => panic!("expected a note, got {:?}", other),
    }
}

#[test]
fn the_jitter_is_added_to_the_hold() {
    let (mut control, token) = started();
    let song = song_of(&[("1Key0", 0), ("1Key1", 10), ("1Key2", 5)]);
    let mut run = Playback::begin(&mut control, token, song);
    assert_eq!(
        run.advance_with(&mut control, 5),
        Step::Play(Cue {
            index: 0,
            target_ms: 0,
            press: Some(Press { key: 'y', hold_ms: 60, gap_ms: 5 }),
        })
    );
    assert_eq!(
        run.advance_with(&mut control, -5),
        Step::Play(Cue {
            index: 1,
            target_ms: 10,
            press: Some(Press { key: 'u', hold_ms: 45, gap_ms: 10 }),
        })
    );
    assert_eq!(
        run.advance_with(&mut control, 2),
        Step::Play(Cue {
            index: 2,
            target_ms: 5,
            press: Some(Press { key: 'i', hold_ms: 37, gap_ms: 10 }),
        })
    );
}

#[test]
fn drawn_jitter_stays_within_five_milliseconds_and_varies() {
    let notes: Vec<(&str, u64)> = (0..400).map(|i| ("1Key1", i as u64)).collect();
    let (mut control, token) = started();
    let mut run = Playback::begin(&mut control, token, song_of(&notes));
    let mut seen = std::collections::BTreeSet::new();
    loop {
        match run.advance(&mut control) {
            Step::Play(cue) => {
                let press = cue.press.unwrap();
                let (base, gap) = if cue.index % 4 == 0 { (55, 5) } else { (35, 10) };
                assert_eq!(press.gap_ms, gap);
                assert!(press.hold_ms >= base - 5 && press.hold_ms <= base + 5);
                seen.insert(press.hold_ms as i64 - base as i64);
            }
            Step::Poll => panic!("a run that is not paused does not poll"),
            Step::End(outcome) => {
                assert_eq!(outcome, Outcome::Finished);
                break;
            }
        }
    }
    assert!(seen.len() > 1);
    assert!(seen.iter().all(|j| -5 <= *j && *j <= 5));
}

#[test]
fn a_paused_run_polls_until_it_may_go_on() {
    let (mut control, token) = started();
    let song = song_of(&[("1Key0", 0), ("1Key1", 10), ("1Key2", 20)]);
    let mut run = Playback::begin(&mut control, token, song);
    assert!(matches!(run.advance_with(&mut control, 0), Step::Play(_)));
    control.pause();
    assert_eq!(run.advance_with(&mut control, 0), Step::Poll);
    assert_eq!(control.progress(), 2);
    assert_eq!(control.status(), Status::Paused);
    assert_eq!(run.position(), 1);
    assert_eq!(run.advance_with(&mut control, 0), Step::Poll);
    assert_eq!(run.advance_with(&mut control, 0), Step::Poll);
    assert_eq!(control.progress(), 2);
    control.resume();
    match run.advance_with(&mut control, 0) {
        Step::Play(cue) => assert_eq!(cue.index, 1),
        other => panic!("expected a note, got {:?}", other),
    }
    assert_eq!(control.status(), Status::Playing);
    assert_eq!(control.progress(), 2);
    assert_eq!(run.position(), 2);
    match run.advance_with(&mut control, 0) {
        Step::Play(cue) => assert_eq!(cue.index, 2),
        other => panic!("expected a note, got {:?}", other),
    }
    assert_eq!(control.progress(), 3);
}

#[test]
fn a_run_stopped_during_a_pause_ends_without_a_word() {
    let (mut control, token) = started();
    let song = song_of(&[("1Key0", 0), ("1Key1", 10)]);
    let mut run = Playback::begin(&mut control, token, song);
    control.pause();
    assert_eq!(run.advance_with(&mut control, 0), Step::Poll);
    control.stop();
    control.set_status(Status::Ready);
    assert_eq!(run.advance_with(&mut control, 0), Step::End(Outcome::Stopped));
    assert_eq!(control.status(), Status::Ready);
    assert_eq!(control.progress(), 1);
    assert_eq!(control.mode(), Mode::Idle);
}

#[test]
fn stop_freezes_the_progress_of_a_run() {
    let (mut control, token) = started();
    let song = song_of(&[("1Key0", 0), ("1Key1", 10), ("1Key2", 20)]);
    let mut run = Playback::begin(&mut control, token, song);
    assert!(matches!(run.advance_with(&mut control, 0), Step::Play(_)));
    assert!(matches!(run.advance_with(&mut control, 0), Step::Play(_)));
    control.stop();
    assert_eq!(control.mode(), Mode::Idle);
    assert_eq!(control.progress(), 2);
    control.stop();
    assert_eq!(control.mode(), Mode::Idle);
    assert_eq!(control.progress(), 2);
    assert_eq!(run.advance_with(&mut control, 0), Step::End(Outcome::Stopped));
    assert_eq!(control.progress(), 2);
    assert_eq!(control.status(), Status::Stopped);
    assert_eq!(run.advance_with(&mut control, 0), Step::End(Outcome::Stopped));
    assert_eq!(control.progress(), 2);
}

#[test]
fn a_superseded_run_ends_without_a_trace() {
    let (mut control, token) = started();
    let song = song_of(&[("1Key0", 0), ("1Key1", 10), ("1Key2", 20)]);
    let mut old = Playback::begin(&mut control, token, song.clone());
    assert!(matches!(old.advance_with(&mut control, 0), Step::Play(_)));
    control.stop();
    let second = control.start_playback().unwrap();
    assert_ne!(second, token);
    let mut new = Playback::begin(&mut control, second, song);
    assert_eq!(control.progress(), 0);
    assert_eq!(old.advance_with(&mut control, 0), Step::End(Outcome::Superseded));
    assert_eq!(control.progress(), 0);
    assert_eq!(control.mode(), Mode::Playing);
    assert_eq!(control.status(), Status::Playing);
    assert!(matches!(new.advance_with(&mut control, 0), Step::Play(_)));
    assert_eq!(control.progress(), 1);
}

#[test]
fn a_run_that_lost_ownership_before_it_began_changes_nothing() {
    let (mut control, token) = started();
    control.select_song("other.txt".to_string());
    let song = song_of(&[("1Key0", 0)]);
    let mut run = Playback::begin(&mut control, token, song);
    assert_eq!(run.outcome(), Some(Outcome::Superseded));
    assert_eq!(control.total(), 0);
    assert_eq!(control.status(), Status::SongLoaded);
    assert_eq!(run.advance(&mut control), Step::End(Outcome::Superseded));
    assert_eq!(control.status(), Status::SongLoaded);
}

#[test]
fn a_failed_load_returns_to_idle_with_a_status() {
    let (mut control, token) = started();
    abandon(&mut control, token, Status::LoadFailed(LoadError::Io));
    assert_eq!(control.mode(), Mode::Idle);
    assert_eq!(control.status(), Status::LoadFailed(LoadError::Io));
    assert!(!control.status().text().is_empty());

    let (mut control, token) = started();
    control.stop();
    let second = control.start_playback().unwrap();
    abandon(&mut control, token, Status::LoadFailed(LoadError::Format));
    assert_eq!(control.mode(), Mode::Playing);
    assert_eq!(control.status(), Status::Starting);
    abandon(&mut control, second, Status::KeyboardUnavailable);
    assert_eq!(control.mode(), Mode::Idle);
    assert_eq!(control.status(), Status::KeyboardUnavailable);
}

#[test]
fn a_chord_is_a_run_of_notes_due_at_one_time() {
    let song = song_of(&[
        ("1Key0", 0),
        ("1Key1", 0),
        ("1Key2", 5),
        ("1Key3", 5),
        ("1Key4", 5),
        ("1Key5", 10),
        ("1Key6", 5),
    ]);
    assert_eq!(end_of_chord(&song, 0), 2);
    assert_eq!(end_of_chord(&song, 1), 2);
    assert_eq!(end_of_chord(&song, 2), 5);
    assert_eq!(end_of_chord(&song, 3), 5);
    assert_eq!(end_of_chord(&song, 4), 5);
    assert_eq!(end_of_chord(&song, 5), 6);
    assert_eq!(end_of_chord(&song, 6), 7);
    assert_eq!(chord_keys(&song, 2, 5), vec!['i', 'o', 'p']);
    assert_eq!(chord_keys(&song, 3, 3), Vec::<char>::new());
}

#[test]
fn manual_steps_play_chord_by_chord() {
    let song = song_of(&[
        ("1Key0", 0),
        ("1Key1", 0),
        ("1Key2", 5),
        ("1Key3", 5),
        ("1Key4", 5),
        ("1Key5", 10),
    ]);
    let mut control = manual_state();
    assert_eq!(control.manual_index(), 0);

    assert_eq!(manual_tick(&mut control, &song), vec!['y', 'u']);
    assert_eq!(control.manual_index(), 2);
    assert_eq!(control.progress(), 2);
    assert_eq!(control.total(), 6);
    assert_eq!(control.mode(), Mode::Playing);
    assert_eq!(control.status(), Status::Manual { done: 2, total: 6 });

    assert_eq!(manual_tick(&mut control, &song), vec!['i', 'o', 'p']);
    assert_eq!(control.manual_index(), 5);
    assert_eq!(control.progress(), 5);
    assert_eq!(control.mode(), Mode::Playing);
    assert_eq!(control.status().text(), "Manual: 5/6 notes");

    assert_eq!(manual_tick(&mut control, &song), vec!['h']);
    assert_eq!(control.manual_index(), 6);
    assert_eq!(control.progress(), 6);
    assert_eq!(control.total(), 6);
    assert_eq!(control.mode(), Mode::Idle);
    assert_eq!(control.status(), Status::Finished);
}

#[test]
fn a_manual_step_at_the_end_types_nothing() {
    let song = song_of(&[("1Key0", 0), ("1Key1", 0)]);
    let mut control = manual_state();
    assert_eq!(manual_tick(&mut control, &song), vec!['y', 'u']);
    assert_eq!(control.mode(), Mode::Idle);
    control.toggle_manual_mode();
    control.toggle_manual_mode();
    control.report_manual_step(2, 2);
    assert_eq!(control.mode(), Mode::Playing);
    assert_eq!(manual_tick(&mut control, &song), Vec::<char>::new());
    assert_eq!(control.mode(), Mode::Idle);
    assert_eq!(control.status(), Status::Finished);
    assert_eq!(control.manual_index(), 2);

    let mut control = manual_state();
    assert_eq!(manual_tick(&mut control, &song_of(&[])), Vec::<char>::new());
    assert_eq!(control.mode(), Mode::Idle);
    assert_eq!(control.status(), Status::Finished);
}

#[test]
fn a_manual_step_skips_notes_without_a_key() {
    let song = song_of(&[("rest", 0), ("1Key1", 0), ("1Key99", 0), ("1Key2", 1)]);
    let mut control = manual_state();
    assert_eq!(manual_tick(&mut control, &song), vec!['u']);
    assert_eq!(control.manual_index(), 3);
    assert_eq!(control.progress(), 3);
    assert_eq!(control.status(), Status::Manual { done: 3, total: 4 });
}

#[test]
fn a_manual_step_whose_song_cannot_be_loaded_returns_to_idle() {
    let mut control = manual_state();
    manual_tick_failed(&mut control, LoadError::Format);
    assert_eq!(control.mode(), Mode::Idle);
    assert_eq!(control.status(), Status::LoadFailed(LoadError::Format));
    assert!(!control.status().text().is_empty());
}

#[test]
fn a_run_with_pauses_counts_every_note_once_and_finishes() {
    let notes: Vec<(&str, u64)> =
        vec![("1Key0", 0), ("x", 5), ("1Key2", 5), ("1Key3", 1), ("1Key4", 9), ("1Key5", 9)];
    let expected = vec!['y', 'i', 'o', 'p', 'h'];
    let total = notes.len();
    // Every way of pausing before some of the steps: bit `k` of `plan` says
    // whether the operator toggles the pause before step `k`.
    for plan in 0u32..(1 << 10) {
        let (mut control, token) = started();
        let mut run = Playback::begin(&mut control, token, song_of(&notes));
        let mut keys = Vec::new();
        let mut counted = 0;
        let mut step_number = 0;
        let outcome = loop {
            if step_number < 10 && plan & (1 << step_number) != 0 {
                control.toggle_pause();
                control.speed_up();
            } else if control.mode() == Mode::Paused {
                control.resume();
            }
            step_number += 1;
            let before = control.progress();
            match run.advance(&mut control) {
                Step::Play(cue) => {
                    assert_eq!(cue.index, keys_index(&keys, &notes, cue.index));
                    if let Some(press) = cue.press {
                        keys.push(press.key);
                    }
                }
                Step::Poll => assert_eq!(control.mode(), Mode::Paused),
                Step::End(outcome) => break outcome,
            }
            let after = control.progress();
            assert!(after == before || after == before + 1);
            if after == before + 1 {
                counted += 1;
            }
            assert_eq!(after, counted);
            assert_eq!(control.total(), total);
            assert!(after <= total);
            assert_eq!(after == total, counted == total);
            assert!(step_number < 100);
        };
        assert_eq!(outcome, Outcome::Finished, "plan {}", plan);
        assert_eq!(counted, total);
        assert_eq!(control.progress(), total);
        assert_eq!(control.total(), total);
        assert_eq!(control.mode(), Mode::Idle);
        assert_eq!(control.status(), Status::Finished);
        assert_eq!(control.status().text(), "Song finished!");
        assert_eq!(keys, expected, "plan {}", plan);
    }
}

fn keys_index(keys: &[char], notes: &[(&str, u64)], index: usize) -> usize {
    let typed_before: usize =
        notes[..index].iter().filter(|(symbol, _)| map_key(symbol).is_some()).count();
    assert_eq!(keys.len(), typed_before);
    index
}
