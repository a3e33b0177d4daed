//! The two seed buttons, the interaction states a host reports for them, and
//! the shade each state paints.

use vstd::prelude::*;

verus! {

/// One of the two buttons beside the seed label.
#[derive(Clone, Copy, Debug, PartialEq, Eq, Structural)]
pub enum SeedButton {
    /// Steps the seed down by one.
    Prev,
    /// Steps the seed up by one.
    Next,
}

impl SeedButton {
    /// The signed step a press of this button asks for.
    pub open spec fn spec_delta(self) -> int {
        match self {
            SeedButton::Prev => -1,
            SeedButton::Next => 1,
        }
    }

    /// The text drawn on the button.
    pub open spec fn spec_caption(self) -> Seq<char> {
        match self {
            SeedButton::Prev => seq!['<', ' ', 'P', 'r', 'e', 'v'],
            SeedButton::Next => seq!['N', 'e', 'x', 't', ' ', '>'],
        }
    }

    /// The signed step a press of this button asks for: -1 or +1.
    pub fn delta(self) -> (d: i64)
        ensures
            d == self.spec_delta(),
    {
        match self {
            SeedButton::Prev => -1,
            SeedButton::Next => 1,
        }
    }

    /// The text drawn on the button.
    pub fn caption(self) -> (text: &'static str)
        ensures
            text@ == self.spec_caption(),
    {
        match self {
            SeedButton::Prev => {
                proof {
                    reveal_strlit("< Prev");
                }
                assert("< Prev"@ =~= SeedButton::Prev.spec_caption());
                "< Prev"
            },
            SeedButton::Next => {
                proof {
                    reveal_strlit("Next >");
                }
                assert("Next >"@ =~= SeedButton::Next.spec_caption());
                "Next >"
            },
        }
    }
}

/// What the host's pointer is doing to a button.
#[derive(Clone, Copy, Debug, PartialEq, Eq, Structural)]
pub enum Interaction {
    /// The pointer went down on the button.
    Pressed,
    /// The pointer is over the button without pressing it.
    Hovered,
    /// The pointer is elsewhere.
    Idle,
}

/// A neutral grey: red, green and blue all at `tenths` tenths of full
/// intensity.
#[derive(Clone, Copy, Debug, PartialEq, Eq, Structural)]
pub struct Gray {
    pub tenths: u8,
}

/// Channel intensity, in tenths, of an idle button's background.
pub const IDLE_TENTHS: u8 = 2;

/// Channel intensity, in tenths, of a hovered button's background.
pub const HOVERED_TENTHS: u8 = 3;

/// Channel intensity, in tenths, of a pressed button's background.
pub const PRESSED_TENTHS: u8 = 4;

impl Interaction {
    /// The background a button takes when it enters this state.
    pub open spec fn spec_background(self) -> Gray {
        match self {
            Interaction::Pressed => Gray { tenths: PRESSED_TENTHS },
            Interaction::Hovered => Gray { tenths: HOVERED_TENTHS },
            Interaction::Idle => Gray { tenths: IDLE_TENTHS },
        }
    }

    /// The background a button takes when it enters this state.
    pub fn background(self) -> (shade: Gray)
        ensures
            shade == self.spec_background(),
    {
        match self {
            Interaction::Pressed => Gray { tenths: PRESSED_TENTHS },
            Interaction::Hovered => Gray { tenths: HOVERED_TENTHS },
            Interaction::Idle => Gray { tenths: IDLE_TENTHS },
        }
    }
}

} // verus!
