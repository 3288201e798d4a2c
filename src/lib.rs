//! Language detection for source files: a cascade of increasingly expensive
//! signals (special filenames, extensions, shebang lines, content heuristics
//! and a statistical classifier) that stops as soon as one language remains.

pub mod batch;
pub mod candidates;
pub mod resolver;
pub mod truncate;
