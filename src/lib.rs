//! Hiscore, per-player and frequency views over finished game records.
//!
//! The library holds the logic of the site: the closed sets of species,
//! backgrounds and gods, the filter and sort of the hiscore page, the
//! frequency tables, the per-player summary, and the display mapping of a
//! single record. Reading the table and rendering pages is left to the caller.

pub mod catalog;
pub mod freq;
pub mod pages;
pub mod query;
pub mod record;
pub mod seqs;
pub mod summary;
pub mod text;
