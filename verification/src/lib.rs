//! Drives one external build invocation and ingests the per-crate structural
//! analysis artifacts that the build emits: locating artifact files, decoding
//! each JSON artifact into a strict typed record graph, and assembling the
//! captured process output together with the decoded records.

pub mod builder;
pub mod decode;
pub mod encode;
pub mod json;
pub mod loader;
pub mod model;
pub mod strutil;
