//! Derives the accessor and mutator operations of a structure from the
//! description of its fields: which operations each field gets, under what
//! names, with what visibility and inlining, and what each of them does.

pub mod directive;
pub mod emit;
pub mod error;
pub mod field;
pub mod text;
pub mod visibility;
pub mod laws;
pub mod model;
pub mod names;
pub mod operation;
pub mod resolve;
pub mod rules;
pub mod setting;
pub mod shape;
