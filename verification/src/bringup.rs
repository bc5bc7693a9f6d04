//! Configuration checks made once at bring-up: the endpoint-arena sizing
//! rule, and the take-once discipline of the hardware peripherals.
//!
//! The arena itself — a fixed array of machine words the USB stack stages
//! packets in — and the peripheral registers live outside; what is verified
//! here is the sizing arithmetic and the single-acquisition rule that the
//! bring-up code must respect before the bus allocator is built.

use vstd::prelude::*;

verus! {

/// The endpoint arena of the reference configuration: 1024 machine words.
pub const EP_ARENA_WORDS: usize = 1024;

/// The largest packet a bulk endpoint carries: 64 bytes.
pub const MAX_PACKET_SIZE: usize = 64;

/// Bytes an arena of `words` words offers for packet staging.
pub open spec fn spec_arena_bytes(words: nat) -> nat {
    4 * words
}

/// Bytes the classes built on the arena will ask of it: one maximum-size
/// packet buffer per bulk endpoint, plus the control endpoint's overhead.
pub open spec fn spec_arena_needed(bulk_endpoints: nat, control_overhead: nat) -> nat {
    64 * bulk_endpoints + control_overhead
}

/// The sizing rule checked before any class is built on the arena: an
/// undersized arena is a fatal configuration error, so bring-up must stop
/// when this returns false.
pub fn arena_suffices(words: usize, bulk_endpoints: usize, control_overhead: usize) -> (ok: bool)
    ensures
        ok == (spec_arena_bytes(words as nat) >= spec_arena_needed(
            bulk_endpoints as nat,
            control_overhead as nat,
        )),
{
    let bytes: u128 = 4 * (words as u128);
    let needed: u128 = 64 * (bulk_endpoints as u128) + (control_overhead as u128);
    bytes >= needed
}

/// A move-only token standing for the one set of configured hardware
/// handles (the USB controller and the GPIO outputs).  Bring-up pairs it
/// with the real handles; holding the token means holding the hardware.
pub struct PeripheralHandles {}

/// The take-once rule for the hardware peripherals: the registers cannot be
/// shared, so the single set of handles is handed out at most once per
/// program run.
pub struct PeripheralSingleton {
    /// Whether the handles were already handed out.
    pub taken: bool,
}

impl PeripheralSingleton {
    /// The state of the peripherals at reset: not yet taken.
    pub fn new() -> (t: PeripheralSingleton)
        ensures
            !t.taken,
    {
        PeripheralSingleton { taken: false }
    }

    /// Acquire the peripherals.  The first call returns the token; every
    /// later call fails, and bring-up must treat that as fatal.
    pub fn take(&mut self) -> (r: Option<PeripheralHandles>)
        ensures
            final(self).taken,
            (r is Some) <==> !old(self).taken,
    {
        if self.taken {
            None
        } else {
            self.taken = true;
            Some(PeripheralHandles {})
        }
    }
}

} // verus!
