use vstd::prelude::*;

verus! {

/// Every way an operation of this library can fail.
///
/// Each failure leaves the record it was aimed at unchanged; the contracts of
/// the operations say exactly which inputs produce which variant.
#[derive(Clone, Copy, PartialEq, Eq, Structural, Debug)]
pub enum DrawError {
    /// The caller is not the authority bound to the record.
    Unauthorized,
    /// More winners were requested than the pool holds.
    InsufficientPool,
    /// The oracle's seed slot is not exactly one tick older than the clock,
    /// so its randomness is stale or not yet committed.
    StaleSeed,
    /// The oracle has not yet revealed its value; the caller may retry.
    NotResolved,
    /// The oracle account does not match the live commitment.
    Expired,
    /// A counter step would leave the representable range.
    ArithmeticOverflow,
    /// Sampling exhausted its attempt bound without finding a fresh index.
    SelectionStalled,
}

} // verus!
