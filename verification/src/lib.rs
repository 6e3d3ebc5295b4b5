//! Staged-construction ("builder") code generator core.
//!
//! Given the structural description of a record type — an ordered list of
//! named fields, each with a declared type shape and optional attribute
//! blocks — this library classifies each field's type shape, parses the
//! per-field `builder(each = "...")` attribute grammar, extracts a field
//! model, and synthesizes the description of a companion staging type:
//! its slots, its setter methods and its validating build operation.
//! It also defines the runtime semantics of that staging type, so the
//! validation behaviour of the synthesized code is itself verified.
//!
//! Rendering the synthesized artifacts as source text, and parsing source
//! text into the shape descriptions consumed here, are left to the caller.

pub mod attr;
pub mod field;
pub mod laws;
pub mod shape;
pub mod staging;
pub mod synth;
