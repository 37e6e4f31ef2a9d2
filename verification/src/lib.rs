//! Decision logic of a small OpenRGB preset tool for a Logitech G513 keyboard
//! and a G502 HERO mouse: hardware identity matching, static-preset planning,
//! the keyboard's physical LED matrix, evdev key-to-LED mapping, keyboard input
//! endpoint selection and command-line dispatch.

pub mod text;
pub mod devices;
pub mod keymap;
pub mod matrix;
pub mod layout;
pub mod input;
pub mod cli;
