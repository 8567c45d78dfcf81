//! Navigation state, library history and library discovery for a terminal
//! browser of calibre book catalogs.

pub mod app;
pub mod clock;
pub mod database;
pub mod history;
pub mod ranking;
pub mod text;
pub mod ui;
pub mod utils;

pub use app::{App, Book};
pub use ui::UI;
