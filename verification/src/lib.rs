//! Morphological paradigm engine for Russian obscene vocabulary.

pub mod chance;
pub mod commands;
pub mod display;
pub mod generator;
pub mod grammar;
pub mod morpheme;
pub mod morphemes;
pub mod paradigm;
pub mod roots;
pub mod text;
