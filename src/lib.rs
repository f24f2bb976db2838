pub mod game;
pub mod screen;
pub mod term;
pub mod ui;
pub mod utils;
pub mod vector;
