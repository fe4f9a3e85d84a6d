//! Loading a song: from the text of a song file to the song it holds.
//!
//! A song file is a JSON array of song objects, of which the first is played.
//! A song object has the members `name` and `helpText`, which are strings,
//! `bpm` and `bitsPerPage`, which are whole numbers from 0 to 4294967295,
//! `pitchLevel`, a whole number from -2147483648 to 2147483647, and
//! `songNotes`, an array of note objects. A note object has the members
//! `key`, a string, and `time`, a whole number from 0 to
//! 18446744073709551615. Members with other names are ignored.

use vstd::prelude::*;
use crate::json::{
    as_i32, as_text, as_u32, as_u64, deref_json, find_member, i32_in, member, parse_value,
    parsed_document, text_in, to_document, u32_in, u64_in, Json,
};
use crate::song::{LoadError, Note, NoteModel, Song, SongModel};

verus! {

/// The note that the document `doc` holds, if it is a well-formed note
/// object.
pub open spec fn note_of(doc: Json) -> Option<NoteModel> {
    match doc {
        Json::Record(members) => {
            let symbol = as_text(member(members@, "key"@));
            let offset_ms = as_u64(member(members@, "time"@));
            if symbol is Some && offset_ms is Some {
                Some(NoteModel { symbol: symbol->Some_0, offset_ms: offset_ms->Some_0 })
            } else {
                None
            }
        },
        _ => None,
    }
}

/// Whether every item of `items` is a well-formed note object.
pub open spec fn all_notes(items: Seq<Json>) -> bool {
    forall|i: int| 0 <= i < items.len() ==> (#[trigger] note_of(items[i])) is Some
}

/// The notes that `value` holds, in order, if it is an array of well-formed
/// note objects.
pub open spec fn notes_of(value: Option<Json>) -> Option<Seq<NoteModel>> {
    match value {
        Some(Json::List(items)) => if all_notes(items@) {
            Some(Seq::new(items@.len(), |i: int| note_of(items@[i])->Some_0))
        } else {
            None
        },
        _ => None,
    }
}

/// The song that the document `doc` holds, if it is a well-formed song
/// object.
pub open spec fn song_of(doc: Json) -> Option<SongModel> {
    match doc {
        Json::Record(members) => {
            let name = as_text(member(members@, "name"@));
            let bpm = as_u32(member(members@, "bpm"@));
            let bits_per_page = as_u32(member(members@, "bitsPerPage"@));
            let pitch_level = as_i32(member(members@, "pitchLevel"@));
            let help_text = as_text(member(members@, "helpText"@));
            let notes = notes_of(member(members@, "songNotes"@));
            if name is Some && bpm is Some && bits_per_page is Some && pitch_level is Some
                && help_text is Some && notes is Some {
                Some(
                    SongModel {
                        name: name->Some_0,
                        bpm: bpm->Some_0,
                        bits_per_page: bits_per_page->Some_0,
                        pitch_level: pitch_level->Some_0,
                        help_text: help_text->Some_0,
                        notes: notes->Some_0,
                    },
                )
            } else {
                None
            }
        },
        _ => None,
    }
}

/// Whether every item of `items` is a well-formed song object.
pub open spec fn all_songs(items: Seq<Json>) -> bool {
    forall|i: int| 0 <= i < items.len() ==> (#[trigger] song_of(items[i])) is Some
}

/// The song that a song file with the document `doc` gives: the first item,
/// if the document is an array that is not empty and holds well-formed song
/// objects only.
pub open spec fn first_song_of(doc: Json) -> Option<SongModel> {
    match doc {
        Json::List(items) => if items@.len() > 0 && all_songs(items@) {
            song_of(items@[0])
        } else {
            None
        },
        _ => None,
    }
}

/// The song that a song file with the text `text` gives.
pub open spec fn song_in(text: Seq<char>) -> Option<SongModel> {
    match parsed_document(text) {
        Some(doc) => first_song_of(doc),
        None => None,
    }
}

/// Whether `loaded` is what loading gives where the file holds `expected`:
/// that song, or the format error where it holds none.
pub open spec fn is_loaded(loaded: Result<Song, LoadError>, expected: Option<SongModel>) -> bool {
    match expected {
        Some(song) => loaded is Ok && loaded->Ok_0@ == song,
        None => loaded == Err::<Song, LoadError>(LoadError::Format),
    }
}

/// Reads a note object.
pub fn decode_note(doc: &Json) -> (note: Option<Note>)
    ensures
        note is Some <==> note_of(*doc) is Some,
        note is Some ==> note->Some_0@ == note_of(*doc)->Some_0,
{
    match doc {
        Json::Record(members) => {
            let symbol = text_in(find_member(members, "key"));
            let offset_ms = u64_in(find_member(members, "time"));
            match (symbol, offset_ms) {
                (Some(symbol), Some(offset_ms)) => Some(Note { symbol, offset_ms }),
                _ => None,
            }
        },
        _ => None,
    }
}

/// Reads an array of note objects.
#[verifier::loop_isolation(false)]
fn notes_in(value: Option<&Json>) -> (notes: Option<Vec<Note>>)
    ensures
        notes is Some <==> notes_of(deref_json(value)) is Some,
        notes is Some ==> crate::song::note_models(notes->Some_0@) == notes_of(
            deref_json(value),
        )->Some_0,
{
    match value {
        Some(Json::List(items)) => {
            let mut notes: Vec<Note> = Vec::new();
            let mut i: usize = 0;
            while i < items.len()
                invariant
                    i <= items.len(),
                    notes.len() == i,
                    forall|k: int| 0 <= k < i ==> (#[trigger] note_of(items@[k])) is Some,
                    forall|k: int|
                        0 <= k < i ==> (#[trigger] notes@[k])@ == note_of(items@[k])->Some_0,
                decreases items.len() - i,
            {
                match decode_note(&items[i]) {
                    Some(note) => {
                        notes.push(note);
                    },
                    None => {
                        assert(!all_notes(items@));
                        return None;
                    },
                }
                i = i + 1;
            }
            Some(notes)
        },
        _ => None,
    }
}

/// Reads a song object.
pub fn decode_song(doc: &Json) -> (song: Option<Song>)
    ensures
        song is Some <==> song_of(*doc) is Some,
        song is Some ==> song->Some_0@ == song_of(*doc)->Some_0,
{
    match doc {
        Json::Record(members) => {
            let name = text_in(find_member(members, "name"));
            let bpm = u32_in(find_member(members, "bpm"));
            let bits_per_page = u32_in(find_member(members, "bitsPerPage"));
            let pitch_level = i32_in(find_member(members, "pitchLevel"));
            let help_text = text_in(find_member(members, "helpText"));
            let notes = notes_in(find_member(members, "songNotes"));
            match (name, bpm, bits_per_page, pitch_level, help_text, notes) {
                (
                    Some(name),
                    Some(bpm),
                    Some(bits_per_page),
                    Some(pitch_level),
                    Some(help_text),
                    Some(notes),
                ) => Some(Song { name, bpm, bits_per_page, pitch_level, help_text, notes }),
                _ => None,
            }
        },
        _ => None,
    }
}

/// The song of a song file whose text was parsed into `doc`: the first item
/// of a non-empty array of well-formed song objects, and the format error for
/// every other document.
#[verifier::loop_isolation(false)]
pub fn first_song(doc: &Json) -> (loaded: Result<Song, LoadError>)
    ensures
        is_loaded(loaded, first_song_of(*doc)),
{
    match doc {
        Json::List(items) => {
            let mut first: Option<Song> = None;
            let mut i: usize = 0;
            while i < items.len()
                invariant
                    i <= items.len(),
                    forall|k: int| 0 <= k < i ==> (#[trigger] song_of(items@[k])) is Some,
                    i == 0 ==> first is None,
                    i > 0 ==> first is Some && first->Some_0@ == song_of(items@[0])->Some_0,
                decreases items.len() - i,
            {
                match decode_song(&items[i]) {
                    Some(song) => {
                        if i == 0 {
                            first = Some(song);
                        }
                    },
                    None => {
                        assert(!all_songs(items@));
                        return Err(LoadError::Format);
                    },
                }
                i = i + 1;
            }
            match first {
                Some(song) => Ok(song),
                None => Err(LoadError::Format),
            }
        },
        _ => Err(LoadError::Format),
    }
}

/// Reads the song of a song file from the text of the file.
///
/// The text is parsed as JSON; what the parser makes of it goes by the name
/// [`parsed_document`]. A text that the parser rejects, and a document that
/// is not a non-empty array of well-formed song objects, give the format
/// error.
pub fn parse_song(text: &str) -> (loaded: Result<Song, LoadError>)
    ensures
        is_loaded(loaded, song_in(text@)),
{
    match parse_value(text) {
        Ok(value) => {
            let doc = to_document(&value);
            first_song(&doc)
        },
        Err(_) => Err(LoadError::Format),
    }
}

/// What loading a song gives once the file was read: the song in its text
/// where the file could be read, the read error where it could not.
pub fn load_from(contents: Option<&str>) -> (loaded: Result<Song, LoadError>)
    ensures
        match contents {
            Some(text) => is_loaded(loaded, song_in(text@)),
            None => loaded == Err::<Song, LoadError>(LoadError::Io),
        },
{
    match contents {
        Some(text) => parse_song(text),
        None => Err(LoadError::Io),
    }
}

} // verus!
