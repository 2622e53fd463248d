//! Keeps the set of response types closed.
use vstd::prelude::*;

verus! {

/// Implemented by the response types of this library only, so that no
/// other crate can add one.
pub trait Sealed {

}

} // verus!
