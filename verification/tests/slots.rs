use piano_rs::game::screen::{black_key_points, mark_point, white_key_point, Point};
use piano_rs::keys::KeyEvent;
use piano_rs::notes::{lies_on_keyboard, match_note, Note};
use piano_rs::pitch::{find_slot, slot_at, PitchClass, Slot, SLOT_COUNT};

#[test]
fn check_note_attributes() {
    // Check attributes for random note
    let note = match_note(KeyEvent::Char('q'), 2);
    let expect_note = Note {
        sound: "a".to_string(),
        sequence: 2,
        position: 64,
        white: true,
    };

    assert_eq!(note, expect_note);
}

#[test]
fn slot_table() {
    let keys = [
        'z', 's', 'x', 'c', 'f', 'v', 'g', 'b', 'n', 'j', 'm', 'k', '1', ',', 'q', 'l', '2', '.',
        'w', '/', 'e', '\'', '4', 'r', '5', 't', 'y', '7', 'u', '8', 'i', '9', 'o', 'p', '[', ']',
        'a',
    ];
    let sounds = [
        "a", "as", "b", "c", "cs", "d", "ds", "e", "f", "fs", "g", "gs", "gs", "a", "a", "as",
        "as", "b", "b", "c", "c", "cs", "cs", "d", "ds", "e", "f", "fs", "g", "gs", "a", "as", "b",
        "c", "d", "e", "gs",
    ];
    let offsets = [
        1, 3, 4, 7, 9, 10, 12, 13, 16, 18, 19, 21, 21, 22, 22, 24, 24, 25, 25, 28, 28, 30, 30, 31,
        33, 34, 37, 39, 40, 42, 43, 45, 46, 49, 52, 55, 0,
    ];
    let whites = [
        true, false, true, true, false, true, false, true, true, false, true, false, false, true,
        true, false, false, true, true, true, true, false, false, true, false, true, true, false,
        true, false, true, false, true, true, true, true, false,
    ];
    let deltas = [
        -1, -1, -1, 0, 0, 0, 0, 0, 0, 0, 0, 0, 0, 0, 0, 0, 0, 0, 0, 1, 1, 1, 1, 1, 1, 1, 1, 1, 1,
        1, 1, 1, 1, 2, 2, 2, -1,
    ];
    assert_eq!(SLOT_COUNT, 37);
    for i in 0..SLOT_COUNT {
        let slot = slot_at(i);
        assert_eq!(slot.key_char, keys[i]);
        assert_eq!(slot.pitch_class.as_str(), sounds[i]);
        assert_eq!(slot.screen_offset, offsets[i]);
        assert_eq!(slot.is_white, whites[i]);
        assert_eq!(slot.octave_delta, deltas[i]);
        assert_eq!(find_slot(keys[i]), Some(i));
    }
    assert_eq!(
        slot_at(14),
        Slot {
            key_char: 'q',
            pitch_class: PitchClass::A,
            screen_offset: 22,
            is_white: true,
            octave_delta: 0,
        }
    );
    for c in ['~', 'Q', '3', '6', '0', 'd', 'h', ' ', '\n', '\u{e9}'] {
        assert_eq!(find_slot(c), None);
    }
}

#[test]
fn slot_notes_agree_with_sound_ids() {
    for i in 0..SLOT_COUNT {
        let slot = slot_at(i);
        for cursor in 0..=6_i8 {
            for key in [KeyEvent::Char(slot.key_char), KeyEvent::Ctrl(slot.key_char)] {
                let live = match_note(key, cursor as i16);
                let text = piano_rs::game::notes::key_to_base_note(key, cursor).unwrap();
                let replayed =
                    piano_rs::game::Note::from(&text, piano_rs::color::Color::Blue, 0).unwrap();
                assert_eq!(live.sound, replayed.base);
                assert_eq!(live.sequence, replayed.frequency as i16);
                assert_eq!(live.position, replayed.position);
                assert_eq!(live.white, replayed.white);
            }
        }
    }
}

#[test]
fn modifiers_move_slot_notes() {
    let plain = match_note(KeyEvent::Char('a'), 2);
    assert_eq!(
        plain,
        Note { sound: "gs".to_string(), sequence: 1, position: 42, white: false }
    );
    let ctrl = match_note(KeyEvent::Ctrl('a'), 2);
    assert_eq!(
        ctrl,
        Note { sound: "gs".to_string(), sequence: 0, position: 21, white: false }
    );
    let shift = match_note(KeyEvent::Char('A'), 2);
    assert_eq!(
        shift,
        Note { sound: "gs".to_string(), sequence: 2, position: 63, white: false }
    );
    let symbol = match_note(KeyEvent::Char('{'), 0);
    assert_eq!(
        symbol,
        Note { sound: "d".to_string(), sequence: 3, position: 73, white: true }
    );
    assert_eq!(match_note(KeyEvent::Enter, 2), match_note(KeyEvent::Ctrl('m'), 2));
    assert_eq!(match_note(KeyEvent::Tab, 2), match_note(KeyEvent::Ctrl('i'), 2));
}

#[test]
fn key_without_a_slot_gives_a_note_without_a_sound() {
    assert_eq!(
        match_note(KeyEvent::Char('~'), 2),
        Note { sound: String::new(), sequence: 1, position: -106, white: true }
    );
    assert_eq!(
        match_note(KeyEvent::Esc, 0),
        Note { sound: String::new(), sequence: -1, position: -106, white: true }
    );
    assert_eq!(
        match_note(KeyEvent::Ctrl('~'), 2),
        Note { sound: String::new(), sequence: 0, position: -106, white: true }
    );
    assert_eq!(
        match_note(KeyEvent::Char('H'), 5),
        Note { sound: String::new(), sequence: 5, position: -106, white: true }
    );
}

#[test]
fn key_without_a_slot_is_never_played() {
    for cursor in -128..=127_i16 {
        for key in [
            KeyEvent::Char('~'),
            KeyEvent::Char('H'),
            KeyEvent::Char('D'),
            KeyEvent::Char('#'),
            KeyEvent::Ctrl('~'),
            KeyEvent::Left,
            KeyEvent::Right,
            KeyEvent::Esc,
            KeyEvent::Alt('q'),
        ] {
            let note = match_note(key, cursor);
            assert_eq!(note.sound, "");
            assert!(note.position < 1);
            assert!(!lies_on_keyboard(&note));
        }
    }
}

#[test]
fn notes_on_and_off_the_keyboard() {
    let at = |position: i16| Note { sound: "a".to_string(), sequence: 0, position, white: true };
    assert!(!lies_on_keyboard(&at(i16::MIN)));
    assert!(!lies_on_keyboard(&at(-106)));
    assert!(!lies_on_keyboard(&at(0)));
    assert!(lies_on_keyboard(&at(1)));
    assert!(lies_on_keyboard(&at(64)));
    assert!(lies_on_keyboard(&at(154)));
    assert!(!lies_on_keyboard(&at(155)));
    assert!(!lies_on_keyboard(&at(i16::MAX)));
    assert!(lies_on_keyboard(&match_note(KeyEvent::Char('q'), 2)));
    assert!(!lies_on_keyboard(&match_note(KeyEvent::Ctrl('a'), 0)));
    assert!(!lies_on_keyboard(&match_note(KeyEvent::Char(']'), 5)));
}

#[test]
fn slot_notes_at_the_ends_of_the_cursor() {
    assert_eq!(
        match_note(KeyEvent::Char(']'), 1500),
        Note { sound: "e".to_string(), sequence: 1502, position: 55 + 21 * 1500, white: true }
    );
    assert_eq!(
        match_note(KeyEvent::Ctrl('z'), -1500),
        Note { sound: "a".to_string(), sequence: -1502, position: 1 - 21 * 1501, white: true }
    );
}

#[test]
fn white_keys_stand_side_by_side() {
    assert_eq!(white_key_point(0), Point { x: 0, y: 0 });
    assert_eq!(white_key_point(1), Point { x: 3, y: 0 });
    assert_eq!(white_key_point(57), Point { x: 171, y: 0 });
}

#[test]
fn black_keys_stand_in_groups() {
    let points = black_key_points();
    assert_eq!(points.len(), 41);
    let columns: Vec<u16> = points.iter().map(|point| point.x).collect();
    assert_eq!(&columns[..11], &[3, 9, 12, 18, 21, 24, 30, 33, 39, 42, 45]);
    assert_eq!(&columns[36..], &[156, 159, 165, 168, 171]);
    assert!(points.iter().all(|point| point.y == 0));
}

#[test]
fn marks_stand_in_the_lowest_row_of_their_key() {
    assert_eq!(mark_point(64, true), Some(Point { x: 64, y: 15 }));
    assert_eq!(mark_point(42, false), Some(Point { x: 42, y: 8 }));
    assert_eq!(mark_point(0, false), Some(Point { x: 0, y: 8 }));
    assert_eq!(mark_point(-1, true), None);
    assert_eq!(mark_point(i16::MIN, false), None);
    assert_eq!(mark_point(i16::MAX, true), Some(Point { x: 32767, y: 15 }));
}

#[test]
fn marks_land_on_keys_of_their_color() {
    let black: Vec<u16> = black_key_points().iter().map(|point| point.x).collect();
    let names = ["a", "as", "b", "c", "cs", "d", "ds", "e", "f", "fs", "g", "gs"];
    for name in names {
        for octave in 0..=7 {
            let note = piano_rs::game::Note::from(
                &format!("{}{}", name, octave),
                piano_rs::color::Color::Blue,
                0,
            )
            .unwrap();
            let cell = mark_point(note.position, note.white).unwrap();
            if note.white {
                assert_eq!(cell.x % 3, 1);
                assert_eq!(white_key_point((cell.x - 1) / 3).x + 1, cell.x);
            } else {
                assert!(black.contains(&cell.x), "{}{}", name, octave);
            }
        }
    }
}
