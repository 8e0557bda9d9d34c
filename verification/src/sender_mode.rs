//! Sender-mode nibble values known today.
//!
//! The field is carried as a raw 4-bit value, so that modes can be added without changing the
//! packet layout.
use vstd::prelude::*;

verus! {

pub const UNSPECIFIED: u8 = 0;

pub const BEACON: u8 = 1;

pub const RECEIVER: u8 = 2;

pub const SURVEYING: u8 = 3;

} // verus!
