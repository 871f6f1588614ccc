//! A terminal to-do list editor, modelled as a verified state machine.
//!
//! The library holds the list of items with its selection cursor, the
//! interaction modes and the key dispatcher, and the filtering done when the
//! list is saved or loaded. Drawing and terminal I/O stay with the host.
use vstd::prelude::*;

pub mod text;
pub mod item;
pub mod mode;
pub mod list;
pub mod input;
pub mod editor;
pub mod persist;
