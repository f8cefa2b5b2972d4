//! Type-level markers recording, per builder field, whether that field has
//! been given a value. No value of a marker type ever exists at run time:
//! the markers carry their information purely in the type.

use vstd::prelude::*;

verus! {

/// Marker type: the field has not been set. Zero-sized, with a private field
/// and no constructor, so no code outside this module can ever make a value
/// of it; it only ever appears as a type argument.
pub struct Unset {
    _no_value: (),
}

/// Marker type: the field has been set. Non-constructible, like `Unset`.
pub struct Filled {
    _no_value: (),
}

/// A type usable as a per-field state marker. `spec_set` says, at the
/// specification level, whether the marker denotes "set"; `runtime_set`
/// answers the same question executably, from the type alone — no value of
/// the marker type is needed (none can exist).
pub trait StateMarker {
    spec fn spec_set() -> bool;

    fn runtime_set() -> (r: bool)
        ensures
            r == Self::spec_set(),
    ;
}

impl StateMarker for Unset {
    open spec fn spec_set() -> bool {
        false
    }

    fn runtime_set() -> (r: bool) {
        false
    }
}

impl StateMarker for Filled {
    open spec fn spec_set() -> bool {
        true
    }

    fn runtime_set() -> (r: bool) {
        true
    }
}

/// Whether the marker type `A` denotes "set", decided from the type
/// parameter alone. This query is total, pure, and the single source of
/// truth for whether a field's storage holds a live value.
pub fn is_set<A: StateMarker>() -> (r: bool)
    ensures
        r == A::spec_set(),
{
    A::runtime_set()
}

} // verus!
