//! Where the controls sit and how large they are drawn.
//!
//! The controls form a column pinned near the top-left corner of the window:
//! the seed label on top, and under it a row with the two buttons. Lengths
//! are in logical pixels.

use vstd::prelude::*;
use crate::button::SeedButton;

verus! {

/// Distance of the column from the top edge of the window.
pub const PANEL_TOP: u32 = 10;

/// Distance of the column from the left edge of the window.
pub const PANEL_LEFT: u32 = 10;

/// Gap between the label and the row of buttons.
pub const ROW_GAP: u32 = 5;

/// Gap between the two buttons.
pub const COLUMN_GAP: u32 = 5;

/// Padding between a button's edge and its caption, on every side.
pub const BUTTON_PADDING: u32 = 10;

/// Font size of the seed label.
pub const LABEL_FONT_SIZE: u32 = 24;

/// Font size of a button's caption.
pub const CAPTION_FONT_SIZE: u32 = 20;

/// Channel intensity, in tenths, of the label and the captions: white.
pub const TEXT_TENTHS: u8 = 10;

/// Side of the square tile.
pub const TILE_SIDE: u32 = 1024;

/// The buttons in the order the row shows them, left to right.
pub open spec fn spec_button_row() -> Seq<SeedButton> {
    seq![SeedButton::Prev, SeedButton::Next]
}

/// The buttons in the order the row shows them, left to right.
pub fn button_row() -> (row: [SeedButton; 2])
    ensures
        row@ == spec_button_row(),
{
    let row = [SeedButton::Prev, SeedButton::Next];
    assert(row@ =~= spec_button_row());
    row
}

} // verus!
