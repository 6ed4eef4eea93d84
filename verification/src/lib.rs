//! Character syntax classification for a Lisp-family reader.
//!
//! The crate exposes a single operation: classifying one Unicode scalar
//! into the syntax type the reader consults at every input position.
//! The mapping is total, pure and stateless; its exact content is given
//! by the spec function [`character_types::syntax_of`], and the
//! executable classifier is proved to return precisely that value.

pub mod character_types;
pub mod properties;
