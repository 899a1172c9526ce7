//! The in-game debug console: its log, its command language and the state
//! machine that the drawing loop drives.

pub mod command;
pub mod graphics;
pub mod log;
pub mod names;
pub mod state;
pub mod text;
