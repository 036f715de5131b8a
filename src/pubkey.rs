use vstd::prelude::*;

verus! {

/// A 32-byte ledger address, held as four 64-bit words.
#[derive(Clone, Copy, Debug, PartialEq, Eq, Structural)]
pub struct Pubkey(pub u64, pub u64, pub u64, pub u64);

impl Pubkey {
    /// The null address, which marks an empty capability slot.
    pub open spec fn spec_zero() -> Pubkey {
        Pubkey(0, 0, 0, 0)
    }

    pub fn zero() -> (r: Pubkey)
        ensures
            r == Pubkey::spec_zero(),
    {
        Pubkey(0, 0, 0, 0)
    }

    pub fn new(a: u64, b: u64, c: u64, d: u64) -> (r: Pubkey)
        ensures
            r == Pubkey(a, b, c, d),
    {
        Pubkey(a, b, c, d)
    }

    pub fn is_zero(&self) -> (r: bool)
        ensures
            r == (*self == Pubkey::spec_zero()),
    {
        *self == Pubkey::zero()
    }
}

} // verus!
