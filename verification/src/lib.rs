//! Ingestion engine for fixed-width timetable interchange files.

pub mod dates;
pub mod grammar;
pub mod lines;
pub mod models;
pub mod parsing;
pub mod patterns;
pub mod storage;
pub mod text;
pub mod utils;
