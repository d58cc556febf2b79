use piano_rs::color::Color;
use piano_rs::game::{volume_steps, GameEvent, Note, NoteRecorder, PianoKeyboard};
use piano_rs::keys::KeyEvent;

fn keyboard() -> PianoKeyboard {
    PianoKeyboard::new(2, 7000, 500, Color::Blue)
}

#[test]
fn new_pianokeyboard() {
    let actual_keyboard = PianoKeyboard::new(2, 7000, 500, Color::Blue);

    let expected_keyboard = PianoKeyboard {
        sequence: 2,
        sound_duration: 7000,
        mark_duration: 500,
        color: Color::Blue,
        recorder: NoteRecorder::new(),
    };

    assert_eq!(actual_keyboard.sequence, expected_keyboard.sequence);
    assert_eq!(actual_keyboard.sound_duration, expected_keyboard.sound_duration);
    assert_eq!(actual_keyboard.mark_duration, expected_keyboard.mark_duration);
    assert_eq!(actual_keyboard.color, expected_keyboard.color);
    assert_eq!(actual_keyboard.recorder.record_file, None);
    assert_eq!(actual_keyboard.recorder.note_number, 1);
}

#[test]
fn set_note_color() {
    let mut keyboard = keyboard();
    keyboard.set_note_color(Color::Red);
    assert_eq!(keyboard.color, Color::Red);
}

#[test]
fn process_increase_volume_key() {
    let mut keyboard = keyboard();
    let mut volume: f32 = 0.4;

    volume += 0.1 * f32::from(volume_steps(KeyEvent::Char('+')));
    let event = keyboard.process_key(KeyEvent::Char('+'));
    assert!(event.is_none());
    assert_eq!(volume, 0.5);
    assert_eq!(keyboard.sequence, 2);
    assert_eq!(keyboard.sound_duration, 7000);
}

#[test]
fn process_decrease_volume_key() {
    let mut keyboard = keyboard();
    let mut volume: f32 = 0.4;

    volume += 0.1 * f32::from(volume_steps(KeyEvent::Char('-')));
    let event = keyboard.process_key(KeyEvent::Char('-'));
    assert!(event.is_none());
    assert_eq!(volume, 0.3);
    assert_eq!(keyboard.sequence, 2);
    assert_eq!(keyboard.sound_duration, 7000);
}

#[test]
fn only_plus_and_minus_change_the_volume() {
    assert_eq!(volume_steps(KeyEvent::Char('+')), 1);
    assert_eq!(volume_steps(KeyEvent::Char('-')), -1);
    for key in [
        KeyEvent::Char('='),
        KeyEvent::Char('_'),
        KeyEvent::Ctrl('+'),
        KeyEvent::Alt('-'),
        KeyEvent::Up,
        KeyEvent::Down,
        KeyEvent::Char('q'),
        KeyEvent::Esc,
    ] {
        assert_eq!(volume_steps(key), 0);
    }
}

#[test]
fn process_increase_sequence_key() {
    let mut keyboard = keyboard();

    let event = keyboard.process_key(KeyEvent::Right);
    assert!(event.is_none());
    assert_eq!(keyboard.sequence, 3);
}

#[test]
fn process_decrease_sequence_key() {
    let mut keyboard = keyboard();

    let event = keyboard.process_key(KeyEvent::Left);
    assert!(event.is_none());
    assert_eq!(keyboard.sequence, 1);
}

#[test]
fn process_increase_note_duration_key() {
    let mut keyboard = keyboard();

    let event = keyboard.process_key(KeyEvent::Up);
    assert!(event.is_none());
    assert_eq!(keyboard.sound_duration, 7050);
}

#[test]
fn process_decrease_note_duration_key() {
    let mut keyboard = keyboard();

    let event = keyboard.process_key(KeyEvent::Down);
    assert!(event.is_none());
    assert_eq!(keyboard.sound_duration, 6950);
}

#[test]
fn process_quit_key() {
    let mut keyboard = keyboard();

    let event = keyboard.process_key(KeyEvent::Esc);
    match event {
        Some(GameEvent::Quit) => assert!(true),
        _ => panic!("This key should have returned a Quit event!"),
    }
}

#[test]
fn process_note_key() {
    let mut keyboard = keyboard();

    let event = keyboard.process_key(KeyEvent::Char('a'));

    let expected_note = Note {
        sound: "gs1".to_string(),
        base: "gs".to_string(),
        frequency: 1,
        position: 42,
        white: false,
        color: Color::Blue,
        duration: 7000,
    };

    match event {
        Some(GameEvent::Note(v)) => assert_eq!(v, expected_note),
        _ => panic!("This key should have returned a corresponding Note!"),
    }
}

#[test]
fn cursor_stops_at_the_highest_octave() {
    let mut keyboard = PianoKeyboard::new(5, 0, 500, Color::Blue);
    assert!(keyboard.process_key(KeyEvent::Right).is_none());
    assert_eq!(keyboard.sequence, 6);
    assert!(keyboard.process_key(KeyEvent::Right).is_none());
    assert_eq!(keyboard.sequence, 6);
    assert!(keyboard.process_key(KeyEvent::Right).is_none());
    assert_eq!(keyboard.sequence, 6);
}

#[test]
fn cursor_stops_at_the_lowest_octave() {
    let mut keyboard = PianoKeyboard::new(1, 0, 500, Color::Blue);
    assert!(keyboard.process_key(KeyEvent::Left).is_none());
    assert_eq!(keyboard.sequence, 0);
    assert!(keyboard.process_key(KeyEvent::Left).is_none());
    assert_eq!(keyboard.sequence, 0);
}

#[test]
fn cursor_outside_the_range_is_left_alone() {
    let mut low = PianoKeyboard::new(-3, 0, 500, Color::Blue);
    low.process_key(KeyEvent::Left);
    assert_eq!(low.sequence, -3);
    low.process_key(KeyEvent::Right);
    assert_eq!(low.sequence, -2);

    let mut high = PianoKeyboard::new(9, 0, 500, Color::Blue);
    high.process_key(KeyEvent::Right);
    assert_eq!(high.sequence, 9);
    high.process_key(KeyEvent::Left);
    assert_eq!(high.sequence, 8);
}

#[test]
fn sound_duration_stops_at_its_bounds() {
    let mut keyboard = PianoKeyboard::new(2, 7950, 500, Color::Blue);
    keyboard.process_key(KeyEvent::Up);
    assert_eq!(keyboard.sound_duration, 8000);
    keyboard.process_key(KeyEvent::Up);
    assert_eq!(keyboard.sound_duration, 8000);

    let mut keyboard = PianoKeyboard::new(2, 50, 500, Color::Blue);
    keyboard.process_key(KeyEvent::Down);
    assert_eq!(keyboard.sound_duration, 0);
    keyboard.process_key(KeyEvent::Down);
    assert_eq!(keyboard.sound_duration, 0);

    let mut keyboard = PianoKeyboard::new(2, 30, 500, Color::Blue);
    keyboard.process_key(KeyEvent::Down);
    assert_eq!(keyboard.sound_duration, 0);
}

#[test]
fn keys_follow_the_cursor() {
    let mut keyboard = keyboard();
    keyboard.process_key(KeyEvent::Right);
    match keyboard.process_key(KeyEvent::Char('q')) {
        Some(GameEvent::Note(note)) => {
            assert_eq!(note.sound, "a3");
            assert_eq!(note.position, 85);
        }
        _ => panic!("the key plays a note"),
    }
}

#[test]
fn keys_without_a_note_ask_nothing() {
    let mut keyboard = keyboard();
    assert!(keyboard.process_key(KeyEvent::Char('~')).is_none());
    assert!(keyboard.process_key(KeyEvent::Backspace).is_none());
    assert!(keyboard.process_key(KeyEvent::Alt('q')).is_none());
    assert!(keyboard.process_key(KeyEvent::F(1)).is_none());
    assert_eq!(keyboard.sequence, 2);
    assert_eq!(keyboard.sound_duration, 7000);
}

#[test]
fn octave_that_no_note_holds_asks_nothing() {
    let mut keyboard = PianoKeyboard::new(127, 0, 500, Color::Blue);
    assert!(keyboard.process_key(KeyEvent::Char('p')).is_none());
    match keyboard.process_key(KeyEvent::Char('z')) {
        Some(GameEvent::Note(note)) => assert_eq!(note.sound, "a126"),
        _ => panic!("the key plays a note"),
    }
}

#[test]
fn unarmed_keyboard_records_nothing() {
    let mut keyboard = keyboard();
    let note = Note::from("a2", Color::Blue, 100).unwrap();
    assert_eq!(keyboard.play_note(&note, 12), None);
    assert_eq!(keyboard.recorder.note_number, 1);
}

#[test]
fn armed_keyboard_records_each_note() {
    let mut keyboard = keyboard();
    keyboard.set_record_file("song.yml".to_string());
    assert_eq!(keyboard.recorder.record_file, Some("song.yml".to_string()));
    let first = Note::from("a2", Color::Blue, 100).unwrap();
    let second = Note::from("gs1", Color::Red, 0).unwrap();
    assert_eq!(
        keyboard.play_note(&first, 12),
        Some("note_1:\n  - 12\n  - a2\n  - 100\n\n".to_string())
    );
    assert_eq!(
        keyboard.play_note(&second, 340),
        Some("note_2:\n  - 340\n  - gs1\n  - 0\n\n".to_string())
    );
    assert_eq!(keyboard.recorder.note_number, 3);
}
