pub mod editor;
pub mod key;
pub mod position;
pub mod row;
pub mod text;
pub mod screen;
pub mod terminal;
pub mod laws;
