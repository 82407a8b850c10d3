//! Short names for the three strategies.

use vstd::prelude::*;

verus! {

/// The little-endian strategy.
pub type LE = crate::order::LittleEndian;

/// The big-endian strategy.
pub type BE = crate::order::BigEndian;

/// The native-order strategy.
pub type NE = crate::native::NativeEndian;

} // verus!
