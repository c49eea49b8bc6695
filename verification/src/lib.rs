//! Decoding of HTML character references (`&amp;`, `&#38;`, `&#x26;`) in
//! byte strings, for text outside and inside attribute values.
//!
//! [`unescape`], [`unescape_attribute`] and [`unescape_in`] return the
//! decoded text; [`unescape_bytes_in`] returns its bytes. What they
//! compute is stated by [`unescape::expand`]: one pass over the input,
//! in which each `&` starts a reference ([`named::reference_expansion`])
//! that is either numeric ([`numeric::numeric_expansion`]) or named
//! ([`entities::named_expansion`]).

pub mod context;
pub mod entities;
pub mod named;
pub mod numeric;
pub mod scan;
pub mod search;
pub mod text;
pub mod unescape;

pub use crate::context::Context;
pub use crate::text::REPLACEMENT_CHAR;
pub use crate::unescape::{unescape, unescape_attribute, unescape_bytes_in, unescape_in};
