//! Per-base kinetics windows around target occurrences on a genome.
//!
//! A window around an occurrence is expanded into coordinate keys on both
//! strands, each key is resolved against a kinetics table, and every resolved
//! position is labelled with its part of the window and its offset in it.

pub mod key;
pub mod record;
pub mod table;
pub mod label;
pub mod output;
pub mod pipeline;
