//! Values that cross a foreign-function boundary, one shape at a time:
//! scalars, text, optional values, sequences, mappings and fallible results,
//! each with a small transform that shows the value arrived and went back
//! intact.
//!
//! `text` holds the one shape whose boundary form needs checking, a
//! NUL-terminated UTF-8 buffer; `shapes` holds the models that the contracts
//! of the transforms are stated over, and what follows from them.

pub mod countchars;
pub mod mapping;
pub mod shapes;
pub mod text;
pub mod wrapper_data_types;
pub mod wrapper_intro;
pub mod wrapper_java_kotlin;
