//! The scalar types of the wire protocol.

use vstd::prelude::*;

verus! {

/// An unsigned protocol number.
pub type JsUInt = u32;

/// A signed protocol number.
pub type JsInt = i32;

/// A screen coordinate, in whole CSS pixels.
pub type JsCoord = i64;

} // verus!
