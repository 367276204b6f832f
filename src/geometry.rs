//! Positions and card dimensions, in fixed-point units.
//!
//! Every length is an integer count of ten-thousandths of a world unit, so
//! the card sizes, gaps and layouts are exact; the renderer divides by
//! `UNITS_PER_WORLD_UNIT` when it hands them to the engine.

use vstd::prelude::*;

verus! {

/// Number of position units in one world unit.
pub const UNITS_PER_WORLD_UNIT: i64 = 10000;

/// Width of a card (three and one fifth world units).
pub const CARD_SIZE_X: i64 = 32000;

/// Height of a card (five and two fifths world units).
pub const CARD_SIZE_Y: i64 = 54000;

/// Thickness of a card (one tenth of a world unit).
pub const CARD_SIZE_Z: i64 = 1000;

/// Spacing between neighbouring cards, in hundredths of a card size.
pub const CARD_GAP_PERCENT: i64 = 105;

/// Distance between the centres of two cards laid side by side: the card
/// width taken `CARD_GAP_PERCENT` hundredths times.
pub const CARD_STEP_X: i64 = 33600;

/// Distance between the centres of two cards stacked face to face on the
/// table: the card thickness taken `CARD_GAP_PERCENT` hundredths times.
pub const CARD_STEP_Z: i64 = 1050;

/// Largest index that the layout functions accept: every coordinate they
/// compute for it fits in an `i64`.
pub const MAX_LAYOUT_INDEX: usize = 0xffff_ffff;

/// A point in space, in position units.
#[derive(Debug, Clone, Copy, PartialEq, Eq, Structural, Hash)]
pub struct Position {
    pub x: i64,
    pub y: i64,
    pub z: i64,
}

/// Where a card stands: its position, and whether it is turned half a turn
/// about the z axis (upside down, as the pile and the opponent's hand hold
/// their cards).
#[derive(Debug, Clone, Copy, PartialEq, Eq, Structural, Hash)]
pub struct Placement {
    pub translation: Position,
    pub turned: bool,
}

} // verus!
