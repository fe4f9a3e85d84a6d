//! The song model: an ordered sequence of timed notes with its metadata.

use vstd::prelude::*;
use crate::keymap::mapped_key;

verus! {

/// One timed key event of a song.
#[derive(Clone, Debug, PartialEq, Eq)]
pub struct Note {
    /// The symbol that names the key.
    pub symbol: String,
    /// The time at which the note is due, in milliseconds from the start of
    /// the song.
    pub offset_ms: u64,
}

/// What a [`Note`] holds, with its symbol as a sequence of characters.
pub struct NoteModel {
    pub symbol: Seq<char>,
    pub offset_ms: u64,
}

impl View for Note {
    type V = NoteModel;

    open spec fn view(&self) -> NoteModel {
        NoteModel { symbol: self.symbol@, offset_ms: self.offset_ms }
    }
}

/// A song: its notes in the order in which they were written, and metadata
/// that playback does not use.
#[derive(Clone, Debug, PartialEq, Eq)]
pub struct Song {
    pub name: String,
    pub bpm: u32,
    pub bits_per_page: u32,
    pub pitch_level: i32,
    pub help_text: String,
    pub notes: Vec<Note>,
}

/// What a [`Song`] holds, over sequences.
pub struct SongModel {
    pub name: Seq<char>,
    pub bpm: u32,
    pub bits_per_page: u32,
    pub pitch_level: i32,
    pub help_text: Seq<char>,
    pub notes: Seq<NoteModel>,
}

/// The notes of `notes`, each by its view.
pub open spec fn note_models(notes: Seq<Note>) -> Seq<NoteModel> {
    Seq::new(notes.len(), |i: int| notes[i]@)
}

impl View for Song {
    type V = SongModel;

    open spec fn view(&self) -> SongModel {
        SongModel {
            name: self.name@,
            bpm: self.bpm,
            bits_per_page: self.bits_per_page,
            pitch_level: self.pitch_level,
            help_text: self.help_text@,
            notes: note_models(self.notes@),
        }
    }
}

/// Why a song could not be loaded.
#[derive(Clone, Copy, Debug, PartialEq, Eq, Hash, Structural)]
pub enum LoadError {
    /// The song file could not be read.
    Io,
    /// The file is not a non-empty array of well-formed songs.
    Format,
}

/// The keys that playing `notes` from first to last types, in order: the key
/// of every note whose symbol names one. The other notes type nothing.
pub open spec fn injected_keys(notes: Seq<NoteModel>) -> Seq<char>
    decreases notes.len(),
{
    if notes.len() == 0 {
        Seq::empty()
    } else {
        let before = injected_keys(notes.drop_last());
        match mapped_key(notes.last().symbol) {
            Some(key) => before.push(key),
            None => before,
        }
    }
}

/// The keys of two runs of notes played one after the other are the keys of
/// the first followed by the keys of the second.
pub proof fn lemma_injected_keys_concat(first: Seq<NoteModel>, second: Seq<NoteModel>)
    ensures
        injected_keys(first + second) == injected_keys(first) + injected_keys(second),
    decreases second.len(),
{
    if second.len() > 0 {
        assert((first + second).drop_last() == first + second.drop_last());
        lemma_injected_keys_concat(first, second.drop_last());
    }
}

} // verus!
