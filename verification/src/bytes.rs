//! The reader of received packets under its short name.

pub use crate::packet::extract_string_u16_size;
use vstd::prelude::*;

verus! {

/// A received packet, consumed field by field from the front.
pub type Packet = crate::packet::PacketReader;

} // verus!
