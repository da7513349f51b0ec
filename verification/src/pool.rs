use vstd::prelude::*;

use crate::errors::DrawError;
use crate::identity::Identity;
use crate::selector::{distinct_seq, select_winners, spec_draw};

verus! {

/// The most identities a draw pool can hold.
pub const POOL_CAPACITY: usize = 50;

/// An ordered, duplicate-free candidate pool with a fixed maximum capacity.
///
/// Membership is replaced wholesale by `set_participants` and narrowed to
/// exactly the winners by a successful `draw_winners`: a draw is destructive,
/// non-winners are dropped from the pool entirely.
pub struct DrawPool {
    pub capacity: usize,
    pub members: Vec<Identity>,
}

impl DrawPool {
    /// The pool invariant: membership fits the capacity and holds no
    /// duplicate identity.
    pub open spec fn well_formed(&self) -> bool {
        &&& self.members@.len() <= self.capacity
        &&& self.capacity <= POOL_CAPACITY
        &&& distinct_seq(self.members@)
    }

    /// A pool starts empty, at full capacity.
    pub fn new() -> (r: DrawPool)
        ensures
            r.well_formed(),
            r.capacity == POOL_CAPACITY,
            r.members@.len() == 0,
    {
        DrawPool { capacity: POOL_CAPACITY, members: Vec::new() }
    }

    /// Replaces the whole membership; nothing of the prior one is kept.
    pub fn set_participants(&mut self, identities: Vec<Identity>)
        requires
            old(self).well_formed(),
            identities@.len() <= old(self).capacity,
            distinct_seq(identities@),
        ensures
            final(self).capacity == old(self).capacity,
            final(self).members@ == identities@,
            final(self).well_formed(),
    {
        self.members = identities;
    }

    /// Narrows the pool to `k` unique winners sampled under `seed`.
    ///
    /// Asking for more winners than the pool holds fails `InsufficientPool`;
    /// a stalled draw fails `SelectionStalled`; either failure leaves the
    /// pool unchanged. On success the returned winners — exactly `k`
    /// distinct members of the original pool, in selection order — are also
    /// the pool's new membership, and they are exactly what `spec_draw`
    /// names for the original membership, `seed` and `k`: the draw is fully
    /// reproducible.
    pub fn draw_winners(&mut self, k: u8, seed: &Vec<u8>) -> (r: Result<Vec<Identity>, DrawError>)
        requires
            old(self).well_formed(),
            seed@.len() >= 1,
        ensures
            final(self).capacity == old(self).capacity,
            final(self).well_formed(),
            k as nat > old(self).members@.len() ==> r == Err::<Vec<Identity>, DrawError>(
                DrawError::InsufficientPool,
            ) && *final(self) == *old(self),
            k as nat <= old(self).members@.len() ==> ({
                let d = spec_draw(old(self).members@, seed@, k as nat);
                match r {
                    Ok(w) => d == Some(w@) && final(self).members@ == w@,
                    Err(e) => e == DrawError::SelectionStalled && d is None && *final(self)
                        == *old(self),
                }
            }),
            r matches Ok(w) ==> w@.len() == k as nat && distinct_seq(w@) && (forall|j: int|
                0 <= j < w@.len() ==> old(self).members@.contains(w@[j])),
    {
        if (k as usize) > self.members.len() {
            return Err(DrawError::InsufficientPool);
        }
        match select_winners(&self.members, k, seed) {
            Ok(w) => {
                let mut kept: Vec<Identity> = Vec::new();
                let mut i: usize = 0;
                while i < w.len()
                    invariant
                        i <= w@.len(),
                        kept@.len() == i,
                        forall|j: int| 0 <= j < i ==> kept@[j] == w@[j],
                    decreases w@.len() - i,
                {
                    kept.push(w[i]);
                    i = i + 1;
                }
                proof {
                    assert(kept@ =~= w@);
                }
                self.members = kept;
                Ok(w)
            },
            Err(e) => Err(e),
        }
    }
}

} // verus!
