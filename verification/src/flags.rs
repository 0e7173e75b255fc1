//! Client state flags: the runtime describes one client with a raw 32-bit
//! word of independent boolean flags. Only six bits are documented; unknown
//! bits are preserved, never rejected, so that a runtime that adds flags
//! still interoperates.

use vstd::prelude::*;

verus! {

/// One of the six documented state flags of a client application.
#[derive(Debug, Copy, Clone, PartialEq, Eq, Structural)]
pub enum ClientState {
    ClientPrimaryApp,
    ClientSessionActive,
    ClientSessionVisible,
    ClientSessionFocused,
    ClientSessionOverlay,
    ClientIoActive,
}

/// The bit the runtime assigns to each documented flag.
pub open spec fn spec_bit(flag: ClientState) -> u32 {
    match flag {
        ClientState::ClientPrimaryApp => 1u32,
        ClientState::ClientSessionActive => 2u32,
        ClientState::ClientSessionVisible => 4u32,
        ClientState::ClientSessionFocused => 8u32,
        ClientState::ClientSessionOverlay => 16u32,
        ClientState::ClientIoActive => 32u32,
    }
}

impl ClientState {
    /// The bit this flag occupies in the raw state word.
    pub fn bit(self) -> (r: u32)
        ensures
            r == spec_bit(self),
    {
        match self {
            ClientState::ClientPrimaryApp => 1,
            ClientState::ClientSessionActive => 2,
            ClientState::ClientSessionVisible => 4,
            ClientState::ClientSessionFocused => 8,
            ClientState::ClientSessionOverlay => 16,
            ClientState::ClientIoActive => 32,
        }
    }
}

/// The raw state word of one client at query time, read fresh on every
/// query and never cached. It carries whatever bits the runtime set,
/// including undocumented ones.
#[derive(Debug, Copy, Clone, PartialEq, Eq, Structural)]
pub struct ClientStateSet {
    pub bits: u32,
}

impl ClientStateSet {
    /// Wrap a raw state word without rejecting any bit pattern.
    pub fn new(bits: u32) -> (r: ClientStateSet)
        ensures
            r.bits == bits,
    {
        ClientStateSet { bits }
    }

    /// Whether a documented flag is set in this state word.
    pub open spec fn spec_contains(self, flag: ClientState) -> bool {
        self.bits & spec_bit(flag) != 0
    }

    /// Test one documented flag.
    pub fn contains(self, flag: ClientState) -> (r: bool)
        ensures
            r == self.spec_contains(flag),
    {
        self.bits & flag.bit() != 0
    }
}

} // verus!
