//! Account addresses as the instruction rules see them.
use vstd::prelude::*;

verus! {

/// A 32-byte account address, held as four 64-bit words in little-endian
/// order (`w0` holds bytes 0..8).
#[derive(Clone, Copy, Debug, PartialEq, Eq, Structural)]
pub struct Key {
    pub w0: u64,
    pub w1: u64,
    pub w2: u64,
    pub w3: u64,
}

impl Key {
    /// The all-zero address, which marks an account field that was never set.
    pub open spec fn spec_zero() -> Key {
        Key { w0: 0, w1: 0, w2: 0, w3: 0 }
    }

    /// The all-zero address.
    pub fn zero() -> (k: Key)
        ensures
            k == Key::spec_zero(),
    {
        Key { w0: 0, w1: 0, w2: 0, w3: 0 }
    }

    /// Whether this is the all-zero address.
    pub fn is_zero(&self) -> (r: bool)
        ensures
            r == (*self == Key::spec_zero()),
    {
        self.w0 == 0 && self.w1 == 0 && self.w2 == 0 && self.w3 == 0
    }
}

} // verus!
