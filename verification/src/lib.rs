pub mod app;
pub mod clock;
pub mod config;
pub mod error;
pub mod git;
pub mod logging;
pub mod seqs;
pub mod text;
pub mod ui;
