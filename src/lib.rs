//! Image inspection helpers: ANSI text styling, terminal panels, the command
//! grammar, human-readable sizes and the directory-scan aggregation engine.

pub mod text;
pub mod ansi_codes;
pub mod ansi_style;
pub mod formats;
pub mod size;
pub mod scan;
pub mod panels;
pub mod command;
pub mod report;
pub mod pixels;
pub mod random;
pub mod progress;
pub mod inspect;
