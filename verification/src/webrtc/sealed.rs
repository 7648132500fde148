//! Keeps the states of a peer to those of this library.

use vstd::prelude::*;

verus! {

/// What only this library's types are.
pub trait Sealed {

}

} // verus!
