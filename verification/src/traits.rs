//! The common shape of a typed surrogate-key identifier.

use vstd::prelude::*;

verus! {

/// A typed wrapper around a signed 64-bit surrogate key. Each entity kind has
/// its own implementing type, so a note identifier can never be passed where a
/// tag identifier is expected.
pub trait ID: Copy + Ord + From<i64> + core::fmt::Debug {
    /// The raw key this identifier wraps, as a mathematical integer.
    spec fn spec_id(&self) -> int;

    /// The raw key, as bound to a query parameter.
    fn id(&self) -> (r: i64)
        ensures
            r as int == self.spec_id(),
    ;
}

} // verus!
