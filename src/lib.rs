//! Compiles declarative schema units (records and enumerations) into Rust
//! source text: a storage type, an accessor wrapper and, for enumerations, a
//! validating codec. Also holds the hand-written support types that the
//! generated code is used beside.

pub mod checked;
pub mod text;
pub mod value;
pub mod schema;
pub mod naming;
pub mod mapper;
pub mod records;
pub mod accessors;
pub mod enums;
pub mod load;
pub mod assemble;
pub mod document;
pub mod camera;
pub mod mesh;
pub mod semantic;
