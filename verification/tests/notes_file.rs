use piano_rs::color::Color;
use piano_rs::game::notes_file::{check_shallow, Document, Entry, EntryError, Item, ReadError};
use piano_rs::game::{FileNote, Note, NoteReader, NoteRecorder};

fn integer(value: i64) -> Item {
    Item { integer: Some(value), text: None }
}

fn text(value: &str) -> Item {
    Item { integer: None, text: Some(value.to_string()) }
}

fn other() -> Item {
    Item { integer: None, text: None }
}

fn entry(key: &str, items: Vec<Item>) -> Entry {
    Entry { key: Some(key.to_string()), items: Some(items) }
}

fn record(key: &str, delay: i64, sound: &str, duration: i64) -> Entry {
    entry(key, vec![integer(delay), text(sound), integer(duration)])
}

fn reader_of(entries: Vec<Entry>) -> NoteReader {
    NoteReader::from_documents(vec![Document { entries: Some(entries) }])
}

fn file_note(delay: u64, sound: &str, duration: u64) -> FileNote {
    FileNote { delay, base_note: sound.to_string(), duration }
}

fn record_of(played: &[(u64, &str, u64)]) -> String {
    let mut recorder = NoteRecorder::from("song.yml".to_string());
    let mut file = String::new();
    for (delay, sound, duration) in played {
        let note = Note::from(sound, Color::Blue, *duration).unwrap();
        file.push_str(&recorder.write_note(*delay, &note));
    }
    file
}

#[test]
fn five_notes_and_no_sixth() {
    let content = "note_1:\n  - 0\n  - a2\n  - 100\n\n\
                   note_2:\n  - 250\n  - gs1\n  - 0\n\n\
                   note_3:\n  - 13\n  - c-1\n  - 7000\n\n\
                   note_4:\n  - 1000\n  - fs8\n  - 50\n\n\
                   note_5:\n  - 1\n  - as3\n  - 8000\n\n";
    let reader = NoteReader::from(content).unwrap();
    let notes = reader.parse_notes().unwrap();
    assert_eq!(
        notes,
        vec![
            file_note(0, "a2", 100),
            file_note(250, "gs1", 0),
            file_note(13, "c-1", 7000),
            file_note(1000, "fs8", 50),
            file_note(1, "as3", 8000),
        ]
    );
    assert_eq!(reader.parse_yaml_entry(5), Ok(file_note(1, "as3", 8000)));
    assert_eq!(reader.parse_yaml_entry(6), Err(EntryError::Missing));
}

#[test]
fn duration_that_is_a_text_fails_the_file() {
    let content = "note_1:\n  - 0\n  - a2\n  - 100\n\n\
                   note_2:\n  - 250\n  - gs1\n  - long\n\n\
                   note_3:\n  - 13\n  - c-1\n  - 7000\n\n";
    let reader = NoteReader::from(content).unwrap();
    assert_eq!(reader.parse_notes(), Err(ReadError::Malformed(2)));
    assert_eq!(reader.parse_yaml_entry(1), Ok(file_note(0, "a2", 100)));
    assert_eq!(reader.parse_yaml_entry(2), Err(EntryError::Malformed));
    assert_eq!(reader.parse_yaml_entry(3), Ok(file_note(13, "c-1", 7000)));
}

#[test]
fn recorded_notes_read_back() {
    let played = [
        (0_u64, "a2", 100_u64),
        (250, "gs1", 0),
        (13, "c-1", 7000),
        (86_400_000, "e5", 8000),
        (1, "as3", 50),
        (40, "f0", 1),
        (999, "b-1", 12),
    ];
    let file = record_of(&played);
    let notes = NoteReader::from(&file).unwrap().parse_notes().unwrap();
    assert_eq!(notes.len(), played.len());
    for (note, (delay, sound, duration)) in notes.iter().zip(played) {
        assert_eq!(note.delay, delay);
        assert_eq!(note.base_note, sound);
        assert_eq!(note.duration, duration);
    }
    let elapsed: u64 = notes.iter().map(|note| note.delay).sum();
    assert_eq!(elapsed, 86_401_303);
}

#[test]
fn every_sound_id_reads_back_from_a_record() {
    let names = ["a", "as", "b", "c", "cs", "d", "ds", "e", "f", "fs", "g", "gs"];
    let mut recorder = NoteRecorder::from("song.yml".to_string());
    let mut file = String::new();
    let mut played = Vec::new();
    for name in names {
        for octave in -1..=8 {
            let sound = format!("{}{}", name, octave);
            let note = Note::from(&sound, Color::Blue, 20).unwrap();
            file.push_str(&recorder.write_note(5, &note));
            played.push(sound);
        }
    }
    let notes = NoteReader::from(&file).unwrap().parse_notes().unwrap();
    assert_eq!(notes.len(), 120);
    for (note, sound) in notes.iter().zip(played) {
        assert_eq!(note.base_note, sound);
        assert_eq!((note.delay, note.duration), (5, 20));
        assert!(Note::from(&note.base_note, Color::Blue, note.duration).is_some());
    }
}

#[test]
fn record_text_of_one_note() {
    let mut recorder = NoteRecorder::from("song.yml".to_string());
    let note = Note::from("gs1", Color::Blue, 7000).unwrap();
    assert_eq!(recorder.write_note(42, &note), "note_1:\n  - 42\n  - gs1\n  - 7000\n\n");
    assert_eq!(recorder.note_number, 2);
    assert_eq!(recorder.write_note(0, &note), "note_2:\n  - 0\n  - gs1\n  - 7000\n\n");
    assert_eq!(recorder.note_number, 3);
    assert_eq!(recorder.record_file, Some("song.yml".to_string()));
}

#[test]
fn record_text_of_large_numbers() {
    let mut recorder = NoteRecorder::from("song.yml".to_string());
    recorder.note_number = 1234567;
    let note = Note::from("a-1", Color::Blue, u64::MAX).unwrap();
    assert_eq!(
        recorder.write_note(u64::MAX, &note),
        "note_1234567:\n  - 18446744073709551615\n  - a-1\n  - 18446744073709551615\n\n"
    );
}

#[test]
fn recorder_states() {
    let mut recorder = NoteRecorder::new();
    assert_eq!(recorder.record_file, None);
    assert_eq!(recorder.note_number, 1);
    recorder.set_file("a.yml".to_string());
    assert_eq!(recorder.record_file, Some("a.yml".to_string()));
    let note = Note::from("a2", Color::Blue, 0).unwrap();
    recorder.write_note(1, &note);
    recorder.set_file("b.yml".to_string());
    assert_eq!(recorder.record_file, Some("b.yml".to_string()));
    assert_eq!(recorder.note_number, 2);
}

#[test]
fn text_that_is_no_yaml() {
    assert_eq!(NoteReader::from("note_1: [0, a2").err(), Some(ReadError::Syntax));
    assert_eq!(NoteReader::from("note_1: \"a2").err(), Some(ReadError::Syntax));
    assert_eq!(NoteReader::from("@note_1: 3").err(), Some(ReadError::Syntax));
}

#[test]
fn file_without_notes() {
    assert_eq!(NoteReader::from("").unwrap().parse_notes(), Ok(vec![]));
    assert_eq!(NoteReader::from("---\n").unwrap().parse_notes(), Ok(vec![]));
    assert_eq!(NoteReader::from("- 1\n- 2\n").unwrap().parse_notes(), Ok(vec![]));
    assert_eq!(NoteReader::from("title: song\n").unwrap().parse_notes(), Ok(vec![]));
    assert_eq!(NoteReader::from_documents(vec![]).parse_notes(), Ok(vec![]));
    assert_eq!(
        NoteReader::from_documents(vec![Document { entries: None }]).parse_notes(),
        Ok(vec![])
    );
}

#[test]
fn loader_gives_the_documents_of_the_text() {
    let reader = NoteReader::from(
        "note_1: [3, a2, 4]\nname: song\n7: x\nlist: [true, 1.5, ~, '5']\n---\nsecond: 1\n",
    )
    .unwrap();
    assert_eq!(reader.yaml.len(), 2);
    assert_eq!(
        reader.yaml[0],
        Document {
            entries: Some(vec![
                entry("note_1", vec![integer(3), text("a2"), integer(4)]),
                Entry { key: Some("name".to_string()), items: None },
                Entry { key: None, items: None },
                entry("list", vec![other(), other(), other(), text("5")]),
            ])
        }
    );
    assert_eq!(
        reader.yaml[1],
        Document { entries: Some(vec![Entry { key: Some("second".to_string()), items: None }]) }
    );
}

#[test]
fn only_the_first_document_is_read() {
    let reader = NoteReader::from("note_1: [3, a2, 4]\n---\nnote_2: [5, b2, 6]\n").unwrap();
    assert_eq!(reader.parse_notes(), Ok(vec![file_note(3, "a2", 4)]));
}

#[test]
fn gap_in_the_numbers_ends_the_sequence() {
    let reader = reader_of(vec![
        record("note_1", 1, "a2", 2),
        record("note_2", 3, "b2", 4),
        record("note_4", 5, "c2", 6),
    ]);
    assert_eq!(
        reader.parse_notes(),
        Ok(vec![file_note(1, "a2", 2), file_note(3, "b2", 4)])
    );
    assert_eq!(reader.parse_yaml_entry(3), Err(EntryError::Missing));
    assert_eq!(reader.parse_yaml_entry(4), Ok(file_note(5, "c2", 6)));
}

#[test]
fn order_of_the_entries_does_not_count() {
    let reader = reader_of(vec![
        record("note_3", 5, "c2", 6),
        entry("title", vec![text("song")]),
        record("note_1", 1, "a2", 2),
        record("note_2", 3, "b2", 4),
    ]);
    assert_eq!(
        reader.parse_notes(),
        Ok(vec![file_note(1, "a2", 2), file_note(3, "b2", 4), file_note(5, "c2", 6)])
    );
}

#[test]
fn more_than_nine_notes() {
    let mut entries = Vec::new();
    let mut expected = Vec::new();
    for id in 1..=25 {
        entries.push(record(&format!("note_{}", id), id, "a2", 2 * id));
        expected.push(file_note(id as u64, "a2", 2 * id as u64));
    }
    assert_eq!(reader_of(entries).parse_notes(), Ok(expected));
}

#[test]
fn malformed_records() {
    let malformed = [
        Entry { key: Some("note_1".to_string()), items: None },
        entry("note_1", vec![]),
        entry("note_1", vec![integer(1), text("a2")]),
        entry("note_1", vec![text("1"), text("a2"), integer(2)]),
        entry("note_1", vec![integer(1), integer(2), integer(3)]),
        entry("note_1", vec![integer(1), text("a2"), text("2")]),
        entry("note_1", vec![integer(1), text("a2"), other()]),
        entry("note_1", vec![integer(-1), text("a2"), integer(2)]),
        entry("note_1", vec![integer(1), text("a2"), integer(-2)]),
        entry("note_1", vec![integer(i64::MIN), text("a2"), integer(2)]),
    ];
    for bad in malformed {
        let reader = reader_of(vec![bad.clone()]);
        assert_eq!(reader.parse_yaml_entry(1), Err(EntryError::Malformed), "{:?}", bad);
        assert_eq!(reader.parse_notes(), Err(ReadError::Malformed(1)), "{:?}", bad);
    }
}

#[test]
fn malformed_record_after_good_ones_gives_no_part() {
    let reader = reader_of(vec![
        record("note_1", 1, "a2", 2),
        record("note_2", 3, "b2", 4),
        entry("note_3", vec![integer(5)]),
        record("note_4", 7, "d2", 8),
    ]);
    assert_eq!(reader.parse_notes(), Err(ReadError::Malformed(3)));
}

#[test]
fn items_beyond_the_third_do_not_count() {
    let reader = reader_of(vec![entry(
        "note_1",
        vec![integer(1), text("a2"), integer(2), text("more"), other()],
    )]);
    assert_eq!(reader.parse_notes(), Ok(vec![file_note(1, "a2", 2)]));
}

#[test]
fn largest_numbers_of_a_record() {
    let reader = reader_of(vec![record("note_1", i64::MAX, "a2", 0)]);
    assert_eq!(reader.parse_notes(), Ok(vec![file_note(i64::MAX as u64, "a2", 0)]));
}

#[test]
fn last_of_two_entries_with_one_key_is_read() {
    let reader = reader_of(vec![record("note_1", 1, "a2", 2), record("note_1", 3, "b2", 4)]);
    assert_eq!(reader.parse_notes(), Ok(vec![file_note(3, "b2", 4)]));
    let loaded = NoteReader::from("note_1: [1, a2, 2]\nnote_1: [3, b2, 4]\n").unwrap();
    assert_eq!(loaded.parse_notes(), Ok(vec![file_note(3, "b2", 4)]));
    let reader = reader_of(vec![record("note_1", 1, "a2", 2), entry("note_1", vec![])]);
    assert_eq!(reader.parse_notes(), Err(ReadError::Malformed(1)));
}

#[test]
fn sound_id_of_a_record_is_not_judged_by_the_reader() {
    let reader = NoteReader::from("note_1:\n  - 3\n  - z9\n  - 4\n").unwrap();
    let notes = reader.parse_notes().unwrap();
    assert_eq!(notes, vec![file_note(3, "z9", 4)]);
    assert_eq!(Note::from(&notes[0].base_note, Color::Blue, notes[0].duration), None);
}

#[test]
fn flow_style_and_comments_are_yaml_too() {
    let content = "# a song\nnote_1: [0, a2, 100]   # first\nnote_2: [ 250 , \"gs1\" , 0 ]\n";
    let reader = NoteReader::from(content).unwrap();
    assert_eq!(
        reader.parse_notes(),
        Ok(vec![file_note(0, "a2", 100), file_note(250, "gs1", 0)])
    );
}

#[test]
fn odd_texts_load_or_are_refused() {
    let mut texts: Vec<String> = [
        "", " ", "\n", "\t", "{", "}", "[", "]", ":", "-", "?", "&", "*", "!", "|", ">", "'", "\"",
        "%", "@", "`", "#", "---", "...", "--- ---", "---\n...\n---\n", "- - - -", "? a", "? a\n: b",
        "&a *a", "*a", "a: *b", "a: &x 1\nb: *x", "a: &x\n  b: *x", "!!int x", "!!bool maybe",
        "!!float x", "!!null x", "!<tag> a", "!e!tag a", "%YAML 1.2\n---\na: 1", "%TAG ! tag:x,2000:\n---\n!a b",
        "a:\n\t- b", "a:\n  - b\n c", "a: b: c", "- a\n b", "[a, b", "{a: b", "{a: b}}", "[a, b]]",
        "a: |\n  text", "a: >\n  folded", "a: |+\n  x\n\n", "a: |9\n  x", "a: |0\n  x",
        "? [a, b]\n: c", "{[a]: b}", "{? a: b}", "[? a: b]", "[a: b]", "{a, b}", "a: 'x''y'",
        "a: 'x", "a: \"x", "a: \"\\x\"", "a: \"\\u12\"", "a: \"\\N\\_\\L\\P\"", "a: \"\\U0010FFFF\"",
        "a: \"\\UFFFFFFFF\"", "a: \"\\uD800\"", "\u{feff}a: 1", "a: \u{85}b", "a:\r\n  - 1\r\n",
        "note_1", "note_1:", "note_1: ~", "note_1: []", "note_1: [~, ~, ~]", "note_1: [1, [2], 3]",
        "note_1: {a: 1}", "note_1: [0x10, a2, 0o17]", "note_1: [+5, a2, 1_000]",
        "note_1: [.inf, a2, .nan]", "note_1: [99999999999999999999, a2, 1]",
        "note_1: [-9223372036854775808, a2, 9223372036854775807]", "? - a\n  - b\n: - c\n",
        "- &a [*a]", "&a [*a]", "a: &a {b: *a}", "- !!binary |\n  R0lG", "--- !!map {a: b}",
        "--- !!seq [a]", "--- |\n text", "--- >\n text", "--- 'x'", "a: [\n", "a: {\n", "a:\n-\n",
        "- ? : ", ": : :", "- : - :", "a: - b", "a: ? b", "? ? ? a", "[[[[[[[[[[", "{{{{{{{{{{",
        "]]]]", "}}}}", "a: [1, 2,, 3]", "a: [, ]", "a: {, }", "a: { : }", "'a': \"b\": c",
    ]
    .iter()
    .map(|text| text.to_string())
    .collect();
    texts.push("[".repeat(100));
    texts.push("[".repeat(20000));
    texts.push("{".repeat(20000));
    texts.push("- ".repeat(200));
    texts.push((0..200).map(|depth| format!("{}a:\n", " ".repeat(depth))).collect());
    texts.push(format!("a: {}", "x".repeat(100000)));
    texts.push(format!("note_1: [{}, a2, 1]", "0".repeat(5000)));
    for text in texts {
        match NoteReader::from(&text) {
            Ok(reader) => {
                let _ = reader.parse_notes();
            }
            Err(error) => assert!(error == ReadError::Syntax || error == ReadError::TooDeep),
        }
    }
}

fn nested_mappings(levels: usize, inner: &str) -> String {
    let mut text = String::new();
    for level in 0..levels {
        text.push_str(&" ".repeat(level));
        text.push_str("a:\n");
    }
    text.push_str(&" ".repeat(levels));
    text.push_str(inner);
    text.push('\n');
    text
}

#[test]
fn text_beyond_the_last_column_is_not_loaded() {
    assert_eq!(check_shallow(&"x".repeat(128)), true);
    assert_eq!(check_shallow(&"x".repeat(129)), false);
    assert_eq!(check_shallow(&format!("{}\n{}\n", "x".repeat(128), "y".repeat(128))), true);
    assert_eq!(check_shallow(&format!("a\n{}", "y".repeat(129))), false);
    assert_eq!(check_shallow(&"\u{e9}".repeat(64)), true);
    assert_eq!(check_shallow(&"\u{e9}".repeat(65)), false);
    assert_eq!(check_shallow(""), true);
    assert_eq!(check_shallow(&"\n".repeat(1000)), true);
    assert_eq!(check_shallow(&"a\r".repeat(100)), false);

    assert_eq!(NoteReader::from(&"- ".repeat(5000)).err(), Some(ReadError::TooDeep));
    assert_eq!(NoteReader::from(&"- ".repeat(65)).err(), Some(ReadError::TooDeep));
    assert_eq!(NoteReader::from(&nested_mappings(128, "b")).err(), Some(ReadError::TooDeep));
    assert_eq!(
        NoteReader::from(&format!("note_1: [0, a2, 1] # {}", "x".repeat(120))).err(),
        Some(ReadError::TooDeep)
    );
}

#[test]
fn text_with_an_alias_is_not_loaded() {
    assert_eq!(check_shallow("a: *b"), false);
    assert_eq!(check_shallow("# a * in a comment"), false);
    assert_eq!(NoteReader::from("a: &x [1]\nb: *x\n").err(), Some(ReadError::TooDeep));
    let mut chain = String::from("- &a0 [x]\n");
    for link in 1..4000 {
        chain.push_str(&format!("- &a{} [*a{}]\n", link, link - 1));
    }
    assert_eq!(NoteReader::from(&chain).err(), Some(ReadError::TooDeep));
    assert!(NoteReader::from("a: &x [1]\nb: x\n").is_ok());
}

#[test]
fn deepest_texts_within_the_last_column_are_loaded() {
    let block = nested_mappings(127, "b");
    assert!(check_shallow(&block));
    assert_eq!(NoteReader::from(&block).unwrap().parse_notes(), Ok(vec![]));

    let dashes = format!("{}a", "- ".repeat(63));
    assert!(check_shallow(&dashes));
    assert!(NoteReader::from(&dashes).is_ok());

    let mut pairs = String::new();
    for level in 0..62 {
        pairs.push_str(&"  ".repeat(level));
        pairs.push_str("- a:\n");
    }
    pairs.push_str(&"  ".repeat(62));
    pairs.push_str("- b\n");
    assert!(check_shallow(&pairs));
    assert!(NoteReader::from(&pairs).is_ok());

    let mut flow = String::new();
    for _ in 0..5 {
        flow.push_str(&"[".repeat(50));
        flow.push('\n');
    }
    flow.push_str("x\n");
    for _ in 0..5 {
        flow.push_str(&"]".repeat(50));
        flow.push('\n');
    }
    assert!(check_shallow(&flow));
    assert!(NoteReader::from(&flow).is_ok());

    let mut deepest = String::new();
    for level in 0..124 {
        deepest.push_str(&" ".repeat(level));
        deepest.push_str("a:\n");
    }
    deepest.push_str(&" ".repeat(124));
    deepest.push_str("a: [\n");
    for _ in 0..127 {
        deepest.push_str(&" ".repeat(125));
        deepest.push_str("[[\n");
    }
    deepest.push_str(&" ".repeat(125));
    deepest.push_str("x\n");
    for _ in 0..127 {
        deepest.push_str(&" ".repeat(125));
        deepest.push_str("]]\n");
    }
    deepest.push_str(&" ".repeat(125));
    deepest.push_str("]\n");
    assert!(check_shallow(&deepest));
    assert!(NoteReader::from(&deepest).is_ok());
}
