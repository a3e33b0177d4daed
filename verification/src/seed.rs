//! The seed and the way a button press moves it.
//!
//! The seed is a whole number. It starts at zero and every press adds the
//! pressed button's delta to it, with no limit of its own and no wrapping.
//! It is held in a 64-bit signed integer, whose range is the only bound on
//! it: a press is taken where the sum is such an integer. The shader reads
//! the seed through a 32-bit float slot; rounding into that slot is the
//! host's conversion and changes nothing here.

use vstd::prelude::*;
use crate::button::SeedButton;

verus! {

/// Whether `value` is a number the machine's 64-bit signed integer holds.
pub open spec fn fits(value: int) -> bool {
    i64::MIN <= value <= i64::MAX
}

/// The current seed. Its view is the whole number it holds.
#[derive(Clone, Copy, Debug, PartialEq, Eq, Structural)]
pub struct CurrentSeed(pub i64);

impl View for CurrentSeed {
    type V = int;

    open spec fn view(&self) -> int {
        self.0 as int
    }
}

impl CurrentSeed {
    /// The seed every run starts from: zero.
    pub fn new() -> (seed: Self)
        ensures
            seed@ == 0,
    {
        CurrentSeed(0)
    }

    /// The whole number this seed holds.
    pub fn value(&self) -> (value: i64)
        ensures
            value == self@,
    {
        self.0
    }

    /// Whether the machine can hold the seed that a press of `button` gives.
    pub fn can_advance(&self, button: SeedButton) -> (can: bool)
        ensures
            can == fits(self@ + button.spec_delta()),
    {
        match button {
            SeedButton::Prev => self.0 > i64::MIN,
            SeedButton::Next => self.0 < i64::MAX,
        }
    }

    /// Applies one press of `button`: the seed becomes the sum of the seed
    /// and the button's delta.
    pub fn advance(&mut self, button: SeedButton)
        requires
            fits(old(self)@ + button.spec_delta()),
        ensures
            final(self)@ == old(self)@ + button.spec_delta(),
    {
        self.0 = self.0 + button.delta();
    }
}

} // verus!
