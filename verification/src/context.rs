//! Where the text that is decoded comes from.

use vstd::prelude::*;

verus! {

/// The context of an input string: `Attribute` for the value of an
/// attribute, `General` for everything else.
#[derive(Clone, Copy, Debug, PartialEq, Eq, Structural)]
pub enum Context {
    General,
    Attribute,
}

} // verus!
