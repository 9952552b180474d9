pub mod app;
pub mod dispatch;
pub mod drag;
pub mod geometry;
pub mod hitmap;
pub mod overlays;
pub mod rows;
pub mod screen;
pub mod statusbar;
pub mod theme;
pub mod columns;
