//! Hotkey bindings: the four control actions, the key bound to each, the
//! capture state of a rebind, and the stored form of the bindings.
//!
//! The bindings are stored as a JSON object with the members `play_pause`,
//! `stop`, `speed_up` and `speed_down`, each the name of a key. An entry
//! that is missing, is no string or names no valid hotkey costs its own
//! action its binding, which falls back to the default, and no other.

use vstd::prelude::*;
use crate::json::{
    as_text, deref_json, find_member, member, parse_value, parsed_document, text_in, to_document,
    Json,
};
use crate::keys::{
    config_key, is_valid_hotkey, lemma_config_key_is_not_reserved, lemma_config_key_reads_names,
    lemma_empty_word_names_no_key, parse_keycode, KeyId,
};
use crate::text::trim;

verus! {

/// One of the four actions that a hotkey can trigger.
#[derive(Clone, Copy, Debug, PartialEq, Eq, Hash, Structural)]
pub enum Action {
    PlayPause,
    Stop,
    SpeedUp,
    SpeedDown,
}

/// Whether a rebind is under way: while one is, the next valid key press
/// becomes the binding of the action that is waited for.
#[derive(Clone, Copy, Debug, PartialEq, Eq, Hash, Structural)]
pub enum HotkeyCapture {
    Inactive,
    AwaitingBindingFor(Action),
}

impl Default for HotkeyCapture {
    fn default() -> (capture: Self)
        ensures
            capture == HotkeyCapture::Inactive,
    {
        HotkeyCapture::Inactive
    }
}

/// The key bound to each of the four actions.
#[derive(Clone, Copy, Debug, PartialEq, Eq, Hash, Structural)]
pub struct Hotkeys {
    pub play_pause: KeyId,
    pub stop: KeyId,
    pub speed_up: KeyId,
    pub speed_down: KeyId,
}

impl Hotkeys {
    /// The bindings that a fresh installation starts with: the space bar
    /// plays and pauses, Escape stops, Equal (the `+` key) speeds up and
    /// Minus slows down.
    pub open spec fn defaults() -> Hotkeys {
        Hotkeys {
            play_pause: KeyId::Space,
            stop: KeyId::Escape,
            speed_up: KeyId::Equal,
            speed_down: KeyId::Minus,
        }
    }

    /// Whether each of the four keys may serve as a hotkey.
    pub open spec fn valid(self) -> bool {
        &&& !self.play_pause.is_reserved()
        &&& !self.stop.is_reserved()
        &&& !self.speed_up.is_reserved()
        &&& !self.speed_down.is_reserved()
    }

    /// These bindings with the default of its action in place of every
    /// reserved key.
    pub open spec fn sanitized(self) -> Hotkeys {
        Hotkeys {
            play_pause: if self.play_pause.is_reserved() {
                KeyId::Space
            } else {
                self.play_pause
            },
            stop: if self.stop.is_reserved() {
                KeyId::Escape
            } else {
                self.stop
            },
            speed_up: if self.speed_up.is_reserved() {
                KeyId::Equal
            } else {
                self.speed_up
            },
            speed_down: if self.speed_down.is_reserved() {
                KeyId::Minus
            } else {
                self.speed_down
            },
        }
    }

    /// The key bound to `action`.
    pub open spec fn key_of(self, action: Action) -> KeyId {
        match action {
            Action::PlayPause => self.play_pause,
            Action::Stop => self.stop,
            Action::SpeedUp => self.speed_up,
            Action::SpeedDown => self.speed_down,
        }
    }

    /// The action that a press of `key` triggers. Where several actions share
    /// a key, the first of play/pause, stop, speed up, speed down wins.
    pub open spec fn action_of(self, key: KeyId) -> Option<Action> {
        if key == self.play_pause {
            Some(Action::PlayPause)
        } else if key == self.stop {
            Some(Action::Stop)
        } else if key == self.speed_up {
            Some(Action::SpeedUp)
        } else if key == self.speed_down {
            Some(Action::SpeedDown)
        } else {
            None
        }
    }

    /// These bindings with `key` bound to `action` and the other three
    /// unchanged.
    pub open spec fn rebound(self, action: Action, key: KeyId) -> Hotkeys {
        match action {
            Action::PlayPause => Hotkeys { play_pause: key, ..self },
            Action::Stop => Hotkeys { stop: key, ..self },
            Action::SpeedUp => Hotkeys { speed_up: key, ..self },
            Action::SpeedDown => Hotkeys { speed_down: key, ..self },
        }
    }

    /// These bindings with the default of its action in place of every
    /// reserved key. Bindings without a reserved key stay as they are.
    pub fn without_reserved(&self) -> (hotkeys: Hotkeys)
        ensures
            hotkeys == self.sanitized(),
            hotkeys.valid(),
            self.valid() ==> hotkeys == *self,
    {
        Hotkeys {
            play_pause: if is_valid_hotkey(self.play_pause) {
                self.play_pause
            } else {
                KeyId::Space
            },
            stop: if is_valid_hotkey(self.stop) {
                self.stop
            } else {
                KeyId::Escape
            },
            speed_up: if is_valid_hotkey(self.speed_up) {
                self.speed_up
            } else {
                KeyId::Equal
            },
            speed_down: if is_valid_hotkey(self.speed_down) {
                self.speed_down
            } else {
                KeyId::Minus
            },
        }
    }

    /// The key bound to `action`.
    pub fn key_for(&self, action: Action) -> (key: KeyId)
        ensures
            key == self.key_of(action),
    {
        match action {
            Action::PlayPause => self.play_pause,
            Action::Stop => self.stop,
            Action::SpeedUp => self.speed_up,
            Action::SpeedDown => self.speed_down,
        }
    }

    /// Resolves a pressed key to the action bound to it, in one lookup.
    pub fn action_for(&self, key: KeyId) -> (action: Option<Action>)
        ensures
            action == self.action_of(key),
    {
        if key == self.play_pause {
            Some(Action::PlayPause)
        } else if key == self.stop {
            Some(Action::Stop)
        } else if key == self.speed_up {
            Some(Action::SpeedUp)
        } else if key == self.speed_down {
            Some(Action::SpeedDown)
        } else {
            None
        }
    }

    /// Binds `key` to `action`.
    pub fn rebind(&mut self, action: Action, key: KeyId)
        ensures
            *final(self) == old(self).rebound(action, key),
    {
        match action {
            Action::PlayPause => {
                self.play_pause = key;
            },
            Action::Stop => {
                self.stop = key;
            },
            Action::SpeedUp => {
                self.speed_up = key;
            },
            Action::SpeedDown => {
                self.speed_down = key;
            },
        }
    }
}

impl Default for Hotkeys {
    fn default() -> (hotkeys: Self)
        ensures
            hotkeys == Hotkeys::defaults(),
    {
        Hotkeys {
            play_pause: KeyId::Space,
            stop: KeyId::Escape,
            speed_up: KeyId::Equal,
            speed_down: KeyId::Minus,
        }
    }
}

/// The stored form of the bindings: each action's key by its name.
#[derive(Clone, Debug, PartialEq, Eq)]
pub struct HotkeyConfig {
    pub play_pause: String,
    pub stop: String,
    pub speed_up: String,
    pub speed_down: String,
}

/// What a [`HotkeyConfig`] holds, as plain sequences of characters.
pub struct HotkeyConfigModel {
    pub play_pause: Seq<char>,
    pub stop: Seq<char>,
    pub speed_up: Seq<char>,
    pub speed_down: Seq<char>,
}

impl View for HotkeyConfig {
    type V = HotkeyConfigModel;

    open spec fn view(&self) -> HotkeyConfigModel {
        HotkeyConfigModel {
            play_pause: self.play_pause@,
            stop: self.stop@,
            speed_up: self.speed_up@,
            speed_down: self.speed_down@,
        }
    }
}

/// The key that the stored word `word` gives an action whose default key is
/// `fallback`: the key the word stands for once the white space around it is
/// taken off, and the default where it stands for none. A reserved key is
/// never accepted as a binding, so its name stands for none.
pub open spec fn stored_key(word: Seq<char>, fallback: KeyId) -> KeyId {
    match config_key(trim(word)) {
        Some(key) => key,
        None => fallback,
    }
}

impl HotkeyConfigModel {
    /// The stored form of `hotkeys`.
    pub open spec fn of(hotkeys: Hotkeys) -> HotkeyConfigModel {
        HotkeyConfigModel {
            play_pause: hotkeys.play_pause.name_spec(),
            stop: hotkeys.stop.name_spec(),
            speed_up: hotkeys.speed_up.name_spec(),
            speed_down: hotkeys.speed_down.name_spec(),
        }
    }

    /// The bindings that this stored form gives. An entry that names no key
    /// falls back to the default of its own action and leaves the other three
    /// as they are.
    pub open spec fn hotkeys(self) -> Hotkeys {
        Hotkeys {
            play_pause: stored_key(self.play_pause, KeyId::Space),
            stop: stored_key(self.stop, KeyId::Escape),
            speed_up: stored_key(self.speed_up, KeyId::Equal),
            speed_down: stored_key(self.speed_down, KeyId::Minus),
        }
    }
}

/// Bindings are durable: the stored form of bindings whose four keys may
/// serve as hotkeys gives those bindings back.
pub proof fn lemma_stored_bindings_read_back(hotkeys: Hotkeys)
    requires
        hotkeys.valid(),
    ensures
        HotkeyConfigModel::of(hotkeys).hotkeys() == hotkeys,
{
    lemma_config_key_reads_names(hotkeys.play_pause);
    lemma_config_key_reads_names(hotkeys.stop);
    lemma_config_key_reads_names(hotkeys.speed_up);
    lemma_config_key_reads_names(hotkeys.speed_down);
}

/// Whatever a stored form holds, the bindings it gives hold no reserved key.
pub proof fn lemma_stored_bindings_are_valid(config: HotkeyConfigModel)
    ensures
        config.hotkeys().valid(),
        Hotkeys::defaults().valid(),
{
    lemma_config_key_is_not_reserved(trim(config.play_pause));
    lemma_config_key_is_not_reserved(trim(config.stop));
    lemma_config_key_is_not_reserved(trim(config.speed_up));
    lemma_config_key_is_not_reserved(trim(config.speed_down));
}

impl HotkeyConfig {
    /// The stored form of `hotkeys`: each key by its name.
    pub fn from(hotkeys: &Hotkeys) -> (config: HotkeyConfig)
        ensures
            config@ == HotkeyConfigModel::of(*hotkeys),
    {
        HotkeyConfig {
            play_pause: hotkeys.play_pause.name().to_owned(),
            stop: hotkeys.stop.name().to_owned(),
            speed_up: hotkeys.speed_up.name().to_owned(),
            speed_down: hotkeys.speed_down.name().to_owned(),
        }
    }

    /// The bindings that this stored form gives, entry by entry, each with
    /// its own default to fall back to. None of them is a reserved key.
    pub fn to_hotkeys(&self) -> (hotkeys: Hotkeys)
        ensures
            hotkeys == self@.hotkeys(),
            hotkeys.valid(),
    {
        proof {
            lemma_stored_bindings_are_valid(self@);
        }
        Hotkeys {
            play_pause: key_or(parse_keycode(self.play_pause.as_str()), KeyId::Space),
            stop: key_or(parse_keycode(self.stop.as_str()), KeyId::Escape),
            speed_up: key_or(parse_keycode(self.speed_up.as_str()), KeyId::Equal),
            speed_down: key_or(parse_keycode(self.speed_down.as_str()), KeyId::Minus),
        }
    }
}

/// Why the stored bindings could not be had. Neither is fatal: the caller
/// goes on with the default bindings.
#[derive(Clone, Copy, Debug, PartialEq, Eq, Hash, Structural)]
pub enum ConfigError {
    /// The file could not be read or written.
    Io,
    /// The file is not a JSON object.
    Format,
}

/// The word that the entry `value` of a stored form holds: the string that
/// it is, and the empty word, which names no key, where the entry is missing
/// or is no string.
pub open spec fn entry_word(value: Option<Json>) -> Seq<char> {
    match as_text(value) {
        Some(word) => word,
        None => Seq::empty(),
    }
}

/// The stored form that the document `doc` holds, if it is an object: its
/// four entries, each by its word. Members with other names are ignored.
pub open spec fn config_of(doc: Json) -> Option<HotkeyConfigModel> {
    match doc {
        Json::Record(members) => Some(
            HotkeyConfigModel {
                play_pause: entry_word(member(members@, "play_pause"@)),
                stop: entry_word(member(members@, "stop"@)),
                speed_up: entry_word(member(members@, "speed_up"@)),
                speed_down: entry_word(member(members@, "speed_down"@)),
            },
        ),
        _ => None,
    }
}

/// A bad entry costs one binding: in a stored form that is an object, an
/// entry that is missing or is no string gives its action the default
/// binding, and every entry that is the name of a valid hotkey gives its
/// action that key, whatever the other entries are.
pub proof fn lemma_bad_entry_costs_one_binding(value: Option<Json>, key: KeyId, fallback: KeyId)
    ensures
        as_text(value) is None ==> stored_key(entry_word(value), fallback) == fallback,
        as_text(value) == Some(key.name_spec()) && !key.is_reserved() ==> stored_key(
            entry_word(value),
            fallback,
        ) == key,
{
    lemma_empty_word_names_no_key();
    if !key.is_reserved() {
        lemma_config_key_reads_names(key);
    }
}

/// The stored form that a file with the text `text` holds.
pub open spec fn config_in(text: Seq<char>) -> Option<HotkeyConfigModel> {
    match parsed_document(text) {
        Some(doc) => config_of(doc),
        None => None,
    }
}

/// The bindings that a process starts with, given what its configuration
/// file holds: the defaults where there is no file, the bindings that the
/// stored form gives where the file holds one, and the format error where it
/// holds none.
pub open spec fn stored_hotkeys(contents: Option<Seq<char>>) -> Result<Hotkeys, ConfigError> {
    match contents {
        None => Ok(Hotkeys::defaults()),
        Some(text) => match config_in(text) {
            Some(config) => Ok(config.hotkeys()),
            None => Err(ConfigError::Format),
        },
    }
}

/// The characters of an optional text.
pub open spec fn text_model(contents: Option<&str>) -> Option<Seq<char>> {
    match contents {
        Some(text) => Some(text@),
        None => None,
    }
}

/// Reads the stored form of the bindings from a document.
pub fn decode_config(doc: &Json) -> (config: Option<HotkeyConfig>)
    ensures
        config is Some <==> config_of(*doc) is Some,
        config is Some ==> config->Some_0@ == config_of(*doc)->Some_0,
{
    match doc {
        Json::Record(members) => Some(
            HotkeyConfig {
                play_pause: word_in(find_member(members, "play_pause")),
                stop: word_in(find_member(members, "stop")),
                speed_up: word_in(find_member(members, "speed_up")),
                speed_down: word_in(find_member(members, "speed_down")),
            },
        ),
        _ => None,
    }
}

/// The word that an entry of a stored form holds.
fn word_in(value: Option<&Json>) -> (word: String)
    ensures
        word@ == entry_word(deref_json(value)),
{
    match text_in(value) {
        Some(word) => word,
        None => String::new(),
    }
}

/// Reads the stored form of the bindings from the text of the configuration
/// file. The text is parsed as JSON; what the parser makes of it goes by the
/// name [`parsed_document`].
pub fn parse_config(text: &str) -> (config: Result<HotkeyConfig, ConfigError>)
    ensures
        match config_in(text@) {
            Some(stored) => config is Ok && config->Ok_0@ == stored,
            None => config == Err::<HotkeyConfig, ConfigError>(ConfigError::Format),
        },
{
    match parse_value(text) {
        Ok(value) => {
            let doc = to_document(&value);
            match decode_config(&doc) {
                Some(config) => Ok(config),
                None => Err(ConfigError::Format),
            }
        },
        Err(_) => Err(ConfigError::Format),
    }
}

/// The bindings to start with, given the text of the configuration file, or
/// `None` where there is no file.
pub fn hotkeys_from(contents: Option<&str>) -> (hotkeys: Result<Hotkeys, ConfigError>)
    ensures
        hotkeys == stored_hotkeys(text_model(contents)),
{
    match contents {
        None => Ok(Hotkeys::default()),
        Some(text) => match parse_config(text) {
            Ok(config) => Ok(config.to_hotkeys()),
            Err(error) => Err(error),
        },
    }
}

/// `key` where there is one, `fallback` where there is none.
fn key_or(key: Option<KeyId>, fallback: KeyId) -> (chosen: KeyId)
    ensures
        chosen == match key {
            Some(k) => k,
            None => fallback,
        },
{
    match key {
        Some(k) => k,
        None => fallback,
    }
}

} // verus!
