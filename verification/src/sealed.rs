//! The sealing trait behind the protocol-state markers: no state can be
//! added from outside this crate.

use vstd::prelude::*;

verus! {

pub trait Sealed {
}

} // verus!
