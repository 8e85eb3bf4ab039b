//! Document elements of a word-processing document and their markup.

pub mod decimal;
pub mod documents;
pub mod markup;
pub mod types;
pub mod xml_builder;
