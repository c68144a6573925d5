//! Normalizes braille-translation test-suite documents, written in any of
//! the historical shapes of their YAML schema, into one canonical model.
//!
//! A YAML text is read into structural events ([`source`], through
//! libyaml). A forward-only cursor ([`cursor`]) hands them to the field
//! decoders ([`table`], [`fields`]) and to the document decoder
//! ([`document`]), which build the suites of [`model`]. Each decoder is
//! specified by a spec function over the event sequence and proved to
//! compute it; [`laws`] states and proves properties of those functions.

pub mod cursor;
pub mod document;
pub mod error;
pub mod event;
pub mod fields;
pub mod laws;
pub mod model;
pub mod source;
pub mod table;
pub mod text;
