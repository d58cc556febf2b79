//! The key-to-note engine of a terminal piano, and the record format that
//! captures and replays what was played.
//!
//! A key event and an octave cursor decide a note: the slot table of
//! [`pitch`] gives each key a pitch class, [`keys`] reads the modifiers of an
//! event, and [`game::notes`] writes the note as a sound id and reads a sound
//! id back as a note. [`game`] holds the state that the keys of a session
//! change, [`game::notes_file`] the record of a session, [`game::screen`]
//! the place of each key on the drawn keyboard, and [`network`] what the
//! players of a shared session tell each other.
//!
//! The library decides and computes. Sounding a note, painting the screen,
//! reading and writing files and sockets, and telling the time are left to
//! the program around it.

pub mod color;
pub mod game;
pub mod keys;
pub mod network;
pub mod notes;
pub mod pitch;
pub mod text;
