use vstd::prelude::*;

verus! {

/// An opaque, fixed-size public identifier for a participant or an authority.
///
/// The 256-bit key is held as four 64-bit limbs. Only equality is meaningful;
/// the library never orders or interprets identities.
#[derive(Clone, Copy, PartialEq, Eq, Structural, Debug)]
pub struct Identity {
    pub w0: u64,
    pub w1: u64,
    pub w2: u64,
    pub w3: u64,
}

impl Identity {
    pub fn new(w0: u64, w1: u64, w2: u64, w3: u64) -> (r: Identity)
        ensures
            r == (Identity { w0, w1, w2, w3 }),
    {
        Identity { w0, w1, w2, w3 }
    }
}

} // verus!
