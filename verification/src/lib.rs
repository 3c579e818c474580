//! A keyboard-driven file browser core with a reversible byte-shift cipher.
//!
//! The crate holds the decisions of a single-pane terminal file browser and
//! leaves every effect (drawing, key polling, the filesystem) to its caller:
//!
//! * [`transform`] shifts bytes through the printable window and back;
//! * [`filename`] records the applied shift in a file's name and removes it;
//! * [`path`] splits and joins `/`-separated paths;
//! * [`navigator`] owns the current directory, its listing and the focus;
//! * [`menu`] holds the highlighted action and the cipher methods;
//! * [`dispatcher`] turns a menu action on a file into the bytes to write;
//! * [`layout`] lays text out in rows for a display;
//! * [`session`] routes keys and outcomes between all of them;
//! * [`terminal`] turns a curses terminal's key codes into keys and styles
//!   into attributes.

pub mod dispatcher;
pub mod filename;
pub mod layout;
pub mod menu;
pub mod navigator;
pub mod path;
pub mod session;
pub mod terminal;
pub mod transform;
