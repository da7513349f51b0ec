use vstd::prelude::*;

use crate::errors::DrawError;

verus! {

/// A bound-checked 8-bit counter.
///
/// Stepping past either end of the representable range is a hard failure
/// (`ArithmeticOverflow`) that leaves the value unchanged; the counter never
/// wraps or saturates silently.
#[derive(Clone, Copy, PartialEq, Eq, Structural, Debug)]
pub struct Counter {
    pub count: u8,
}

impl Counter {
    /// A fresh counter starts at zero.
    pub fn new() -> (r: Counter)
        ensures
            r.count == 0,
    {
        Counter { count: 0 }
    }

    /// Adds one, unless the counter already holds the maximum.
    pub fn increment(&mut self) -> (r: Result<(), DrawError>)
        ensures
            old(self).count < 255 ==> r is Ok && final(self).count == old(self).count + 1,
            old(self).count == 255 ==> r == Err::<(), DrawError>(DrawError::ArithmeticOverflow)
                && *final(self) == *old(self),
    {
        if self.count == 255 {
            Err(DrawError::ArithmeticOverflow)
        } else {
            self.count = self.count + 1;
            Ok(())
        }
    }

    /// Subtracts one, unless the counter already holds zero.
    pub fn decrement(&mut self) -> (r: Result<(), DrawError>)
        ensures
            old(self).count > 0 ==> r is Ok && final(self).count == old(self).count - 1,
            old(self).count == 0 ==> r == Err::<(), DrawError>(DrawError::ArithmeticOverflow)
                && *final(self) == *old(self),
    {
        if self.count == 0 {
            Err(DrawError::ArithmeticOverflow)
        } else {
            self.count = self.count - 1;
            Ok(())
        }
    }

    /// Overwrites the counter with the given value.
    pub fn set(&mut self, value: u8)
        ensures
            final(self).count == value,
    {
        self.count = value;
    }
}

} // verus!
