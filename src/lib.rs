//! Reading-unit construction for imported books: turns the per-chapter
//! output of the format parsers into a two-level tree of chapters and
//! sections, through segment features, a weighted score and a rule cascade.

pub mod text;
pub mod numbering;
pub mod types;
pub mod irp;
pub mod parser;
pub mod scoring_engine;
pub mod decision_engine;
pub mod feature_extractor;
pub mod fallback_strategy;
pub mod reading_unit_builder;
pub mod segment_builder;
pub mod import_queue;
pub mod pipeline;
pub mod laws;
