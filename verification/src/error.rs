//! The error of the register codec.

use vstd::prelude::*;

verus! {

/// A value that lies outside the range of the register it was meant for.
///
/// Holds the rejected value. Nothing has been written when this is
/// returned: the register, or the bus, is as it was before the call.
#[derive(Debug, Clone, Copy, PartialEq, Eq)]
pub struct InvalidInput(pub u16);

} // verus!
