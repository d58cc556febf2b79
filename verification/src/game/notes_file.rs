//! The record of a session: a text file that holds, for each note played,
//! the time since the note before it, its sound id and its duration.
//!
//! A record file is a YAML document. Its top-level mapping holds one entry
//! for each note, under the keys `note_1`, `note_2` and so on without a gap,
//! and each entry is a list of three items:
//!
//! ```text
//! note_1:
//!   - 0
//!   - a2
//!   - 100
//! ```
//!
//! The first key that is missing ends the sequence.
//!
//! A record file is shallow: no line of it is longer than the last column,
//! and it holds no alias. Only such a text is loaded, so that no text can
//! make the loader nest without bound.

use vstd::prelude::*;
use vstd::string::*;
use yaml_rust::{ScanError, YamlLoader};
use crate::game::notes::Note;
use crate::text::{decimal, lemma_decimal_injective, u128_to_string, u64_to_string};

verus! {

/// One note of a record.
#[derive(Debug, Clone, PartialEq)]
pub struct FileNote {
    /// The time since the note before it, in milliseconds.
    pub delay: u64,
    /// The sound id.
    pub base_note: String,
    /// How long the note sounds, in milliseconds.
    pub duration: u64,
}

/// What a note of a record holds, as plain values.
pub struct FileNoteView {
    pub delay: u64,
    pub base_note: Seq<char>,
    pub duration: u64,
}

impl View for FileNote {
    type V = FileNoteView;

    open spec fn view(&self) -> FileNoteView {
        FileNoteView { delay: self.delay, base_note: self.base_note@, duration: self.duration }
    }
}

/// One item of a list in a document: the integer it is, if it is one, and
/// the text it is, if it is one.
#[derive(Debug, Clone, PartialEq)]
pub struct Item {
    pub integer: Option<i64>,
    pub text: Option<String>,
}

/// One entry of the top-level mapping of a document: the text of its key,
/// if the key is a text, and the items of its value, if the value is a list.
#[derive(Debug, Clone, PartialEq)]
pub struct Entry {
    pub key: Option<String>,
    pub items: Option<Vec<Item>>,
}

/// One document of a file: the entries of its top-level mapping in the order
/// of the file, if the document is a mapping.
#[derive(Debug, Clone, PartialEq)]
pub struct Document {
    pub entries: Option<Vec<Entry>>,
}

/// What an item holds, as plain values.
pub struct ItemView {
    pub integer: Option<i64>,
    pub text: Option<Seq<char>>,
}

/// What an entry holds, as plain values.
pub struct EntryView {
    pub key: Option<Seq<char>>,
    pub items: Option<Seq<ItemView>>,
}

/// What a document holds, as plain values.
pub struct DocumentView {
    pub entries: Option<Seq<EntryView>>,
}

impl View for Item {
    type V = ItemView;

    open spec fn view(&self) -> ItemView {
        ItemView {
            integer: self.integer,
            text: match self.text {
                Some(text) => Some(text@),
                None => None,
            },
        }
    }
}

impl View for Entry {
    type V = EntryView;

    open spec fn view(&self) -> EntryView {
        EntryView {
            key: match self.key {
                Some(key) => Some(key@),
                None => None,
            },
            items: match self.items {
                Some(items) => Some(items@.map_values(|item: Item| item@)),
                None => None,
            },
        }
    }
}

impl View for Document {
    type V = DocumentView;

    open spec fn view(&self) -> DocumentView {
        DocumentView {
            entries: match self.entries {
                Some(entries) => Some(entries@.map_values(|entry: Entry| entry@)),
                None => None,
            },
        }
    }
}

/// What a sequence of documents holds, as plain values.
pub open spec fn documents_view(documents: Seq<Document>) -> Seq<DocumentView> {
    documents.map_values(|document: Document| document@)
}

/// What a sequence of notes holds, as plain values.
pub open spec fn notes_view(notes: Seq<FileNote>) -> Seq<FileNoteView> {
    notes.map_values(|note: FileNote| note@)
}

/// Why a record could not be read.
#[derive(Clone, Copy, Debug, PartialEq, Eq, Structural)]
pub enum ReadError {
    /// The text may nest deeper than a record is loaded: a line of it
    /// reaches beyond the last column of a record, or it holds the mark of
    /// an alias.
    TooDeep,
    /// The text is not YAML.
    Syntax,
    /// The entry of the note with this number is there, but it is not a
    /// list of a delay, a sound id and a duration.
    Malformed(u128),
}

/// Why one note of a record could not be read.
#[derive(Clone, Copy, Debug, PartialEq, Eq, Structural)]
pub enum EntryError {
    /// The document has no entry for the note.
    Missing,
    /// The entry is not a list of a delay, a sound id and a duration.
    Malformed,
}

/// What a document holds for one note.
pub enum Lookup {
    /// No entry.
    Missing,
    /// An entry that is no record of a note.
    Malformed,
    /// The record of the note.
    Record(FileNoteView),
}

/// The error of the YAML loader, `yaml_rust::ScanError`. Nothing is read
/// from it: it only tells that the loader rejected a text.
#[verifier::external_type_specification]
#[verifier::external_body]
pub struct ExScanError(ScanError);

/// The last column of a record file: no line holds more bytes.
pub const MAX_COLUMN: usize = 128;

/// The line feed, which ends a line.
pub const LINE_FEED: u8 = 10;

/// The star, which begins an alias.
pub const ALIAS_MARK: u8 = 42;

/// The column of the place `at` of a text: the bytes between the last line
/// feed before it and the place.
pub open spec fn column(bytes: Seq<u8>, at: int) -> nat
    decreases at,
{
    if at <= 0 {
        0
    } else if bytes[at - 1] == LINE_FEED {
        0
    } else {
        column(bytes, at - 1) + 1
    }
}

/// Whether a text is as shallow as a record file is: no place of it lies
/// beyond the last column, and it holds no mark of an alias.
///
/// A YAML text nests its block collections by their columns and can stack
/// what an alias names on top of what holds the alias. A shallow text
/// does neither beyond the last column, so what it nests stays within what
/// its columns and the loader's own limit on flow collections allow.
pub open spec fn is_shallow(bytes: Seq<u8>) -> bool {
    &&& forall|at: int| 0 <= at <= bytes.len() ==> #[trigger] column(bytes, at) <= MAX_COLUMN
    &&& forall|at: int| 0 <= at < bytes.len() ==> #[trigger] bytes[at] != ALIAS_MARK
}

/// Tests whether a text is as shallow as a record file is.
pub fn check_shallow(content: &str) -> (r: bool)
    ensures
        r == is_shallow(content.spec_bytes()),
{
    let bytes = content.as_bytes();
    let n: usize = bytes.len();
    let mut at: usize = 0;
    let mut here: usize = 0;
    while at < n
        invariant
            at <= n,
            n == bytes@.len(),
            bytes@ == content.spec_bytes(),
            here == column(bytes@, at as int),
            here <= MAX_COLUMN,
            forall|k: int| 0 <= k <= at ==> #[trigger] column(bytes@, k) <= MAX_COLUMN,
            forall|k: int| 0 <= k < at ==> #[trigger] bytes@[k] != ALIAS_MARK,
        decreases n - at,
    {
        let byte: u8 = bytes[at];
        if byte == ALIAS_MARK {
            assert(bytes@[at as int] == ALIAS_MARK);
            return false;
        }
        if byte == LINE_FEED {
            here = 0;
        } else {
            here = here + 1;
        }
        at += 1;
        assert(here == column(bytes@, at as int));
        if here > MAX_COLUMN {
            assert(column(bytes@, at as int) > MAX_COLUMN);
            return false;
        }
    }
    true
}

/// The documents that the YAML loader makes of a text, or nothing where it
/// rejects the text.
pub uninterp spec fn loaded_documents(source: Seq<char>) -> Option<Seq<DocumentView>>;

/// Loads the documents of a YAML text with `YamlLoader::load_from_str` of
/// the crate `yaml_rust`.
///
/// The loader calls itself once for each collection within a collection, so
/// a text that nests without bound would exhaust the stack. Only a shallow
/// text is handed to it: the loader opens a block collection only at a
/// column beyond that of the collection around it, it refuses flow
/// collections nested deeper than its own limit, and without an alias
/// nothing is nested but what the text spells out.
///
/// Each document is handed over as the answers of the `Yaml` accessors that
/// a record is read with: `as_hash` for the document, `as_str` for the key of
/// each entry and `as_vec` for its value, `as_i64` and `as_str` for each item
/// of such a list; entries and items keep the order that the loader gave
/// them. The contract gives this result the name `loaded_documents` of the
/// text and claims no more: the loader reads its argument and nothing
/// else, so the same text always loads as the same documents.
#[verifier::external_body]
fn load_documents(source: &str) -> (r: Result<Vec<Document>, ScanError>)
    requires
        is_shallow(source.spec_bytes()),
    ensures
        match r {
            Ok(documents) => loaded_documents(source@) == Some(documents_view(documents@)),
            Err(_) => loaded_documents(source@) is None,
        },
{
    let loaded = YamlLoader::load_from_str(source)?;
    Ok(loaded.iter().map(|document| Document {
        entries: document.as_hash().map(|hash| hash.iter().map(|(key, value)| Entry {
            key: key.as_str().map(String::from),
            items: value.as_vec().map(|list| list.iter().map(|item| Item {
                integer: item.as_i64(),
                text: item.as_str().map(String::from),
            }).collect()),
        }).collect()),
    }).collect())
}

/// The key of the note with the number `id`.
pub open spec fn note_key(id: nat) -> Seq<char> {
    seq!['n', 'o', 't', 'e', '_'] + decimal(id)
}

/// The place of the last entry before `before` whose key is `key`.
pub open spec fn key_index(entries: Seq<EntryView>, key: Seq<char>, before: int) -> Option<int>
    decreases before,
{
    if before <= 0 {
        None
    } else if before <= entries.len() && entries[before - 1].key == Some(key) {
        Some(before - 1)
    } else {
        key_index(entries, key, before - 1)
    }
}

/// The note that a list of items records: a delay that is an integer and not
/// negative, a sound id that is a text, and a duration that is an integer and
/// not negative, in this order. Further items do not count.
pub open spec fn decoded(items: Seq<ItemView>) -> Option<FileNoteView> {
    if items.len() >= 3 && items[0].integer is Some && items[0].integer->0 >= 0
        && items[1].text is Some && items[2].integer is Some && items[2].integer->0 >= 0 {
        Some(
            FileNoteView {
                delay: items[0].integer->0 as u64,
                base_note: items[1].text->0,
                duration: items[2].integer->0 as u64,
            },
        )
    } else {
        None
    }
}

/// What the entries of a mapping hold under one key. Where a key stands
/// twice, the last entry counts: in a mapping a later entry replaces an
/// earlier one of the same key.
pub open spec fn entry_under(entries: Seq<EntryView>, key: Seq<char>) -> Lookup {
    match key_index(entries, key, entries.len() as int) {
        None => Lookup::Missing,
        Some(i) => match entries[i].items {
            Some(items) => match decoded(items) {
                Some(note) => Lookup::Record(note),
                None => Lookup::Malformed,
            },
            None => Lookup::Malformed,
        },
    }
}

/// What the first document of a file holds for the note with the number
/// `id`. A file without a document, or whose first document is no mapping,
/// holds nothing for any note.
pub open spec fn record_at(documents: Seq<DocumentView>, id: nat) -> Lookup {
    if documents.len() == 0 || documents[0].entries is None {
        Lookup::Missing
    } else {
        entry_under(documents[0].entries->0, note_key(id))
    }
}

/// Whether `result` is what reading all notes of `documents` gives.
///
/// The notes are read in the order of their numbers, from 1 on. The first
/// number without an entry ends the sequence, and the notes before it are
/// the result. An entry that is no record of a note fails the whole
/// reading, with the number of that entry.
pub open spec fn reads_as(
    documents: Seq<DocumentView>,
    result: Result<Seq<FileNoteView>, ReadError>,
) -> bool {
    match result {
        Ok(notes) => {
            &&& forall|k: int|
                0 <= k < notes.len() ==> #[trigger] record_at(documents, (k + 1) as nat)
                    == Lookup::Record(notes[k])
            &&& record_at(documents, (notes.len() + 1) as nat) is Missing
        },
        Err(ReadError::Malformed(id)) => {
            &&& id >= 1
            &&& forall|k: int|
                1 <= k < id ==> (#[trigger] record_at(documents, k as nat)) is Record
            &&& record_at(documents, id as nat) is Malformed
        },
        Err(ReadError::Syntax) => false,
        Err(ReadError::TooDeep) => false,
    }
}

/// Writes the key of the note with the number `id`.
fn note_key_text(id: u128) -> (r: String)
    ensures
        r@ == note_key(id as nat),
{
    proof {
        reveal_strlit("note_");
    }
    let mut key = String::from_str("note_");
    let digits = u128_to_string(id);
    key.append(digits.as_str());
    assert(key@ =~= note_key(id as nat));
    key
}

/// Reads the note that a list of items records.
fn decode_items(items: &Vec<Item>) -> (r: Option<FileNote>)
    ensures
        match r {
            Some(note) => decoded(items@.map_values(|item: Item| item@)) == Some(note@),
            None => decoded(items@.map_values(|item: Item| item@)) is None,
        },
{
    if items.len() < 3 {
        return None;
    }
    match (&items[0].integer, &items[1].text, &items[2].integer) {
        (Some(delay), Some(text), Some(duration)) => {
            if *delay >= 0 && *duration >= 0 {
                Some(
                    FileNote {
                        delay: *delay as u64,
                        base_note: text.clone(),
                        duration: *duration as u64,
                    },
                )
            } else {
                None
            }
        },
        _ => None,
    }
}

/// Reads what the entries of a mapping hold under one key.
fn read_entry(entries: &Vec<Entry>, key: &String) -> (r: Result<FileNote, EntryError>)
    ensures
        match r {
            Ok(note) => entry_under(entries@.map_values(|entry: Entry| entry@), key@)
                == Lookup::Record(note@),
            Err(EntryError::Missing) => entry_under(
                entries@.map_values(|entry: Entry| entry@),
                key@,
            ) is Missing,
            Err(EntryError::Malformed) => entry_under(
                entries@.map_values(|entry: Entry| entry@),
                key@,
            ) is Malformed,
        },
{
    let n: usize = entries.len();
    let ghost views = entries@.map_values(|entry: Entry| entry@);
    let mut before: usize = n;
    while before > 0
        invariant
            before <= n,
            n == entries@.len(),
            views == entries@.map_values(|entry: Entry| entry@),
            key_index(views, key@, n as int) == key_index(views, key@, before as int),
        decreases before,
    {
        let i: usize = before - 1;
        assert(views[i as int] == entries@[i as int]@);
        let found: bool = match &entries[i].key {
            Some(text) => *text == *key,
            None => false,
        };
        if found {
            return match &entries[i].items {
                Some(items) => match decode_items(items) {
                    Some(note) => Ok(note),
                    None => Err(EntryError::Malformed),
                },
                None => Err(EntryError::Malformed),
            };
        }
        before = i;
    }
    Err(EntryError::Missing)
}

/// The reader of a record.
#[derive(Debug)]
pub struct NoteReader {
    /// The documents of the file.
    pub yaml: Vec<Document>,
}

impl View for NoteReader {
    type V = Seq<DocumentView>;

    open spec fn view(&self) -> Seq<DocumentView> {
        documents_view(self.yaml@)
    }
}

impl NoteReader {
    /// Makes a reader of the text of a record file.
    ///
    /// A text that is not shallow gives `ReadError::TooDeep` and is not
    /// loaded. A shallow text is loaded as YAML: the reader holds the
    /// documents that the loader makes of it, and a text that the loader
    /// rejects gives `ReadError::Syntax`.
    pub fn from(content: &str) -> (r: Result<NoteReader, ReadError>)
        ensures
            match r {
                Ok(reader) => is_shallow(content.spec_bytes()) && loaded_documents(content@)
                    == Some(reader@),
                Err(ReadError::TooDeep) => !is_shallow(content.spec_bytes()),
                Err(ReadError::Syntax) => is_shallow(content.spec_bytes()) && loaded_documents(
                    content@,
                ) is None,
                Err(ReadError::Malformed(_)) => false,
            },
    {
        if !check_shallow(content) {
            return Err(ReadError::TooDeep);
        }
        match load_documents(content) {
            Ok(yaml) => Ok(NoteReader::from_documents(yaml)),
            Err(_) => Err(ReadError::Syntax),
        }
    }

    /// Makes a reader of documents that are loaded already.
    pub fn from_documents(yaml: Vec<Document>) -> (r: NoteReader)
        ensures
            r.yaml == yaml,
    {
        NoteReader { yaml }
    }

    /// Reads the note with the number `id`.
    fn entry(&self, id: u128) -> (r: Result<FileNote, EntryError>)
        ensures
            match r {
                Ok(note) => record_at(self@, id as nat) == Lookup::Record(note@),
                Err(EntryError::Missing) => record_at(self@, id as nat) is Missing,
                Err(EntryError::Malformed) => record_at(self@, id as nat) is Malformed,
            },
    {
        if self.yaml.len() == 0 {
            return Err(EntryError::Missing);
        }
        match &self.yaml[0].entries {
            Some(entries) => {
                let key = note_key_text(id);
                read_entry(entries, &key)
            },
            None => Err(EntryError::Missing),
        }
    }

    /// Reads the note with the number `id`: the record under the key of that
    /// number in the first document.
    pub fn parse_yaml_entry(&self, id: u32) -> (r: Result<FileNote, EntryError>)
        ensures
            match r {
                Ok(note) => record_at(self@, id as nat) == Lookup::Record(note@),
                Err(EntryError::Missing) => record_at(self@, id as nat) is Missing,
                Err(EntryError::Malformed) => record_at(self@, id as nat) is Malformed,
            },
    {
        self.entry(id as u128)
    }

    /// Reads all notes of the record, in the order of their numbers.
    ///
    /// The first number without an entry ends the sequence; that is how a
    /// record ends, and no error. An entry that is no record of a note fails
    /// the whole reading: no part of the sequence is given.
    pub fn parse_notes(&self) -> (r: Result<Vec<FileNote>, ReadError>)
        ensures
            r is Ok ==> reads_as(self@, Ok(notes_view(r->Ok_0@))),
            r is Err ==> reads_as(self@, Err(r->Err_0)),
    {
        let mut notes: Vec<FileNote> = Vec::new();
        loop
            invariant
                notes@.len() <= usize::MAX,
                forall|k: int|
                    0 <= k < notes@.len() ==> #[trigger] record_at(self@, (k + 1) as nat)
                        == Lookup::Record(notes@[k]@),
            decreases usize::MAX - notes@.len(),
        {
            let id: u128 = notes.len() as u128 + 1;
            match self.entry(id) {
                Ok(note) => {
                    notes.push(note);
                    let count: usize = notes.len();
                    assert(count == id);
                },
                Err(EntryError::Missing) => {
                    proof {
                        let views = notes_view(notes@);
                        assert forall|k: int| 0 <= k < views.len() implies #[trigger] record_at(
                            self@,
                            (k + 1) as nat,
                        ) == Lookup::Record(views[k]) by {
                            assert(views[k] == notes@[k]@);
                        }
                    }
                    return Ok(notes);
                },
                Err(EntryError::Malformed) => {
                    proof {
                        assert forall|k: int| 1 <= k < id implies (#[trigger] record_at(
                            self@,
                            k as nat,
                        )) is Record by {
                            let j = k - 1;
                            assert(record_at(self@, (j + 1) as nat) == Lookup::Record(
                                notes@[j]@,
                            ));
                        }
                    }
                    return Err(ReadError::Malformed(id));
                },
            }
        }
    }
}

/// One line of a record: an item of the list.
pub open spec fn item_line(item: Seq<char>) -> Seq<char> {
    seq![' ', ' ', '-', ' '] + item + seq!['\n']
}

/// The text of one record as it is appended to the file: the key of the
/// note, then the delay, the sound id and the duration as the items of a
/// list, then an empty line.
pub open spec fn record_text(number: nat, delay: nat, sound: Seq<char>, duration: nat) -> Seq<
    char,
> {
    note_key(number) + seq![':', '\n'] + item_line(decimal(delay)) + item_line(sound) + item_line(
        decimal(duration),
    ) + seq!['\n']
}

/// Appends one item of a list to a text.
fn push_item(text: &mut String, item: &str)
    ensures
        final(text)@ == old(text)@ + item_line(item@),
{
    proof {
        reveal_strlit("  - ");
        reveal_strlit("\n");
    }
    text.append("  - ");
    text.append(item);
    text.append("\n");
    assert(text@ =~= old(text)@ + item_line(item@));
}

/// The recorder of a session.
///
/// A recorder is unarmed until it is given the file to write to, and armed
/// from then on. It numbers the notes it is given from 1 on and writes the
/// text of each record; appending that text to the file is left to the
/// caller, and so is measuring the time between two notes.
#[derive(Debug)]
pub struct NoteRecorder {
    /// The path of the file, once there is one.
    pub record_file: Option<String>,
    /// The number of the next note.
    pub note_number: usize,
}

impl NoteRecorder {
    /// An unarmed recorder.
    pub fn new() -> (r: NoteRecorder)
        ensures
            r.record_file is None,
            r.note_number == 1,
    {
        NoteRecorder { record_file: None, note_number: 1 }
    }

    /// A recorder armed with a file.
    pub fn from(filename: String) -> (r: NoteRecorder)
        ensures
            r.record_file == Some(filename),
            r.note_number == 1,
    {
        NoteRecorder { record_file: Some(filename), note_number: 1 }
    }

    /// Arms the recorder with a file. The numbering goes on.
    pub fn set_file(&mut self, filename: String)
        ensures
            final(self).record_file == Some(filename),
            final(self).note_number == old(self).note_number,
    {
        self.record_file = Some(filename);
    }

    /// Writes the record of the next note, played `delay_gap` milliseconds
    /// after the one before it, and counts it. Whether there is a file to
    /// append the record to is the caller's matter.
    pub fn write_note(&mut self, delay_gap: u64, note: &Note) -> (r: String)
        requires
            old(self).note_number < usize::MAX,
        ensures
            r@ == record_text(
                old(self).note_number as nat,
                delay_gap as nat,
                note.sound@,
                note.duration as nat,
            ),
            final(self).note_number == old(self).note_number + 1,
            final(self).record_file == old(self).record_file,
    {
        proof {
            reveal_strlit(":\n");
            reveal_strlit("\n");
        }
        let mut text = note_key_text(self.note_number as u128);
        text.append(":\n");
        let delay = u64_to_string(delay_gap);
        push_item(&mut text, delay.as_str());
        push_item(&mut text, note.sound.as_str());
        let duration = u64_to_string(note.duration);
        push_item(&mut text, duration.as_str());
        text.append("\n");
        assert(text@ =~= record_text(
            old(self).note_number as nat,
            delay_gap as nat,
            note.sound@,
            note.duration as nat,
        ));
        self.note_number = self.note_number + 1;
        text
    }
}

impl Default for NoteRecorder {
    /// An unarmed recorder.
    fn default() -> (r: NoteRecorder)
        ensures
            r.record_file is None,
            r.note_number == 1,
    {
        NoteRecorder::new()
    }
}

/// Whether `entry` is the record of `note` under the number `number`.
pub open spec fn is_record_of(entry: EntryView, number: nat, note: FileNoteView) -> bool {
    &&& entry.key == Some(note_key(number))
    &&& entry.items is Some
    &&& decoded(entry.items->0) == Some(note)
}

/// Two notes with the same key have the same number.
pub proof fn lemma_note_keys_differ(a: nat, b: nat)
    requires
        note_key(a) == note_key(b),
    ensures
        a == b,
{
    let prefix = seq!['n', 'o', 't', 'e', '_'];
    assert(note_key(a).subrange(5, note_key(a).len() as int) =~= decimal(a));
    assert(note_key(b).subrange(5, note_key(b).len() as int) =~= decimal(b));
    lemma_decimal_injective(a, b);
}

/// In a mapping whose entries are, in order, the records of the notes from
/// 1 on, the entry of the note `id` is found at place `id - 1` once the
/// search reaches it, and not before.
proof fn lemma_key_index_of_records(
    entries: Seq<EntryView>,
    notes: Seq<FileNoteView>,
    id: nat,
    before: int,
)
    requires
        entries.len() == notes.len(),
        forall|k: int|
            0 <= k < notes.len() ==> is_record_of(#[trigger] entries[k], (k + 1) as nat, notes[k]),
        1 <= id,
        0 <= before <= entries.len(),
    ensures
        key_index(entries, note_key(id), before) == if id <= before {
            Some(id - 1)
        } else {
            None::<int>
        },
    decreases before,
{
    if before > 0 {
        assert(is_record_of(entries[before - 1], before as nat, notes[before - 1]));
        if entries[before - 1].key->0 == note_key(id) {
            lemma_note_keys_differ(before as nat, id);
        }
        lemma_key_index_of_records(entries, notes, id, before - 1);
    }
}

/// What is recorded is what is read: a file whose first document holds, in
/// order, the records of `notes` under the numbers from 1 on, and nothing
/// else, reads as exactly these notes in this order.
pub proof fn lemma_records_read_back(documents: Seq<DocumentView>, notes: Seq<FileNoteView>)
    requires
        documents.len() > 0,
        documents[0].entries is Some,
        documents[0].entries->0.len() == notes.len(),
        forall|k: int|
            0 <= k < notes.len() ==> is_record_of(
                #[trigger] documents[0].entries->0[k],
                (k + 1) as nat,
                notes[k],
            ),
    ensures
        reads_as(documents, Ok(notes)),
{
    let entries = documents[0].entries->0;
    assert forall|k: int| 0 <= k < notes.len() implies #[trigger] record_at(
        documents,
        (k + 1) as nat,
    ) == Lookup::Record(notes[k]) by {
        lemma_key_index_of_records(entries, notes, (k + 1) as nat, entries.len() as int);
        assert(is_record_of(entries[k], (k + 1) as nat, notes[k]));
    }
    lemma_key_index_of_records(entries, notes, (notes.len() + 1) as nat, entries.len() as int);
}

/// The number at which a reading ends: the first without a record.
pub open spec fn reading_end(result: Result<Seq<FileNoteView>, ReadError>) -> int {
    match result {
        Ok(notes) => notes.len() as int + 1,
        Err(ReadError::Malformed(id)) => id as int,
        Err(ReadError::Syntax) => 0,
        Err(ReadError::TooDeep) => 0,
    }
}

/// Reading has one result: whatever reads as two results, the two are the
/// same.
pub proof fn lemma_reading_is_determined(
    documents: Seq<DocumentView>,
    a: Result<Seq<FileNoteView>, ReadError>,
    b: Result<Seq<FileNoteView>, ReadError>,
)
    requires
        reads_as(documents, a),
        reads_as(documents, b),
    ensures
        a == b,
{
    let end_a = reading_end(a);
    let end_b = reading_end(b);
    if end_a < end_b {
        lemma_record_before_the_end(documents, b, end_a);
    } else if end_b < end_a {
        lemma_record_before_the_end(documents, a, end_b);
    } else {
        match (a, b) {
            (Ok(x), Ok(y)) => {
                assert forall|k: int| 0 <= k < x.len() implies x[k] == y[k] by {
                    assert(record_at(documents, (k + 1) as nat) == Lookup::Record(x[k]));
                    assert(record_at(documents, (k + 1) as nat) == Lookup::Record(y[k]));
                }
                assert(x =~= y);
            },
            _ => {},
        }
    }
}

/// Every number before the end of a reading has a record.
proof fn lemma_record_before_the_end(
    documents: Seq<DocumentView>,
    result: Result<Seq<FileNoteView>, ReadError>,
    id: int,
)
    requires
        reads_as(documents, result),
        1 <= id,
        id < reading_end(result),
    ensures
        record_at(documents, id as nat) is Record,
{
    match result {
        Ok(notes) => {
            let k = id - 1;
            assert(record_at(documents, (k + 1) as nat) == Lookup::Record(notes[k]));
        },
        _ => {},
    }
}

} // verus!
