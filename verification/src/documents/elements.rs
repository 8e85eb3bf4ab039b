//! The elements of a document.

pub mod br;
pub mod delete_text;
pub mod run;
pub mod run_property;
pub mod start;
pub mod tab;
pub mod text;
