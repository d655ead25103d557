//! The navigation core of a terminal game about building rockets and
//! launching satellites: a stack of views, the translation of key presses
//! into commands, a text field, and the game state the views work on.

pub mod chance;
pub mod debug_log;
pub mod game;
pub mod job;
pub mod orbit;
pub mod rocket;
pub mod sats;
pub mod screen;
pub mod ui;
pub mod ui_print;
pub mod units;
