//! The logic of a serial-port terminal: line styling, input history, macros,
//! line endings, log output, port supervision and the state behind every menu.

pub mod app;
pub mod buffer;
pub mod foreign;
pub mod input_box;
pub mod key_codes;
pub mod keybinds;
pub mod keys;
pub mod laws;
pub mod line;
pub mod line_clean;
pub mod line_edit;
pub mod line_laws;
pub mod macros;
pub mod parse;
pub mod serial;
pub mod settings;
pub mod startup;
pub mod text;
pub mod text_input;
pub mod time;
pub mod traits;
pub mod tui;
pub mod updates;
pub mod view;
pub mod watch;
