//! Stability levels of a semantic convention.

use vstd::prelude::*;

verus! {

/// How settled a group or an attribute is.
#[derive(Debug, Clone, Copy, PartialEq, Eq, Hash, Structural)]
pub enum Stability {
    /// No longer to be used.
    Deprecated,
    /// May still change.
    Experimental,
    /// Will not change in a breaking way.
    Stable,
}

} // verus!
