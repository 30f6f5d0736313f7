//! Storage layer of a local canvas editor: canvas documents with schema
//! migration, the canvas hierarchy document, and uploaded image files.
//!
//! The functions here decide what is read, written and returned; the file
//! system and the JSON codec are driven by the caller with the values they
//! hand back.

pub mod canvas;
pub mod error;
pub mod image;
pub mod paths;
pub mod sys;
pub mod tree;
