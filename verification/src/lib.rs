//! Media conversion planning: format tables, encoder arguments, file scanning,
//! per-file conversion decisions and their safety guarantees.

pub mod text;
pub mod formats;
pub mod converter;
pub mod pipeline;
pub mod ffmpeg;
pub mod order;
pub mod scanner;
pub mod progress;
pub mod logger;
pub mod picker;
pub mod ui;
