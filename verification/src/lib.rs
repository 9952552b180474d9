pub mod input;
pub mod model;
pub mod text;
pub mod tmux;
pub mod ui;
pub mod version;
