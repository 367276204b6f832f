//! The two hands and where their cards stand.

use crate::geometry::{Position, CARD_SIZE_Y, CARD_STEP_X, MAX_LAYOUT_INDEX};
use vstd::prelude::*;

verus! {

/// Number of cards a hand is sized for.
pub const HAND_CAPACITY: usize = 8;

/// Distance of the hands in front of and behind the table: the card
/// thickness taken one and three quarters times.
pub const HAND_DEPTH: i64 = 1750;

/// Distance from the middle of the table to the centre of the outermost card
/// of a full hand: three and a half card steps, so that the eight cards of a
/// hand stand centred.
pub const HAND_HALF_SPAN: i64 = 117600;

/// Where the `index`-th card of the player's hand stands: a row from left to
/// right, in front of the table, centred for a full hand.
pub open spec fn player_translation(index: int) -> Position {
    Position {
        x: (CARD_STEP_X * index - HAND_HALF_SPAN) as i64,
        y: (CARD_SIZE_Y / 2) as i64,
        z: HAND_DEPTH,
    }
}

/// Where the `index`-th card of the opponent's hand stands: the player's
/// layout mirrored, a row from right to left behind the table.
pub open spec fn opponent_translation(index: int) -> Position {
    Position {
        x: (HAND_HALF_SPAN - CARD_STEP_X * index) as i64,
        y: (CARD_SIZE_Y / 2) as i64,
        z: (-HAND_DEPTH) as i64,
    }
}

/// The cards dealt to the player, in the order they were dealt.
#[derive(Debug)]
pub struct PlayerHand<E> {
    pub cards: Vec<E>,
}

impl<E> PlayerHand<E> {
    /// An empty hand.
    pub fn new() -> (r: Self)
        ensures
            r.cards@ == Seq::<E>::empty(),
    {
        PlayerHand { cards: Vec::with_capacity(HAND_CAPACITY) }
    }

    /// Where the `index`-th card of the hand stands.
    pub fn translation_from_index(index: usize) -> (r: Position)
        requires
            index <= MAX_LAYOUT_INDEX,
        ensures
            r == player_translation(index as int),
    {
        Position {
            x: CARD_STEP_X * (index as i64) - HAND_HALF_SPAN,
            y: CARD_SIZE_Y / 2,
            z: HAND_DEPTH,
        }
    }
}

impl<E> Default for PlayerHand<E> {
    fn default() -> (r: Self)
        ensures
            r.cards@ == Seq::<E>::empty(),
    {
        PlayerHand::new()
    }
}

/// The cards dealt to the opponent, in the order they were dealt.
#[derive(Debug)]
pub struct OpponentHand<E> {
    pub cards: Vec<E>,
}

impl<E> OpponentHand<E> {
    /// An empty hand.
    pub fn new() -> (r: Self)
        ensures
            r.cards@ == Seq::<E>::empty(),
    {
        OpponentHand { cards: Vec::with_capacity(HAND_CAPACITY) }
    }

    /// Where the `index`-th card of the hand stands.
    pub fn translation_from_index(index: usize) -> (r: Position)
        requires
            index <= MAX_LAYOUT_INDEX,
        ensures
            r == opponent_translation(index as int),
            r.x == -player_translation(index as int).x,
            r.y == player_translation(index as int).y,
            r.z == -player_translation(index as int).z,
    {
        Position {
            x: HAND_HALF_SPAN - CARD_STEP_X * (index as i64),
            y: CARD_SIZE_Y / 2,
            z: -HAND_DEPTH,
        }
    }
}

impl<E> Default for OpponentHand<E> {
    fn default() -> (r: Self)
        ensures
            r.cards@ == Seq::<E>::empty(),
    {
        OpponentHand::new()
    }
}

/// The two hand layouts are mirror images: for one index, the opponent's card
/// stands where the player's does with the lateral and depth coordinates
/// negated, at the same height.
pub proof fn lemma_hand_layouts_mirror(index: int)
    requires
        0 <= index <= MAX_LAYOUT_INDEX,
    ensures
        opponent_translation(index).x == -player_translation(index).x,
        opponent_translation(index).y == player_translation(index).y,
        opponent_translation(index).z == -player_translation(index).z,
{
}

/// A full hand stands centred: its first and last cards are equally far from
/// the middle of the table, on either side.
pub proof fn lemma_full_hand_is_centred()
    ensures
        player_translation(0).x == -player_translation(HAND_CAPACITY - 1).x,
        opponent_translation(0).x == -opponent_translation(HAND_CAPACITY - 1).x,
{
}

/// The `index`-th card of the opponent stands, seen across the table, where
/// the `(HAND_CAPACITY - 1 - index)`-th card of the player stands.
pub proof fn lemma_hands_run_opposite_ways(index: int)
    requires
        0 <= index < HAND_CAPACITY,
    ensures
        opponent_translation(index).x == player_translation(HAND_CAPACITY - 1 - index).x,
{
}

/// The hand layouts depend on the index alone, for every index they accept:
/// two calls with one index give one position, for either hand, and the
/// opponent's position is the player's mirrored (lateral and depth negated).
pub proof fn lemma_hand_layouts_are_pure<E>(
    index: usize,
    first: Position,
    second: Position,
    opponent_first: Position,
    opponent_second: Position,
)
    requires
        call_ensures(PlayerHand::<E>::translation_from_index, (index,), first),
        call_ensures(PlayerHand::<E>::translation_from_index, (index,), second),
        call_ensures(OpponentHand::<E>::translation_from_index, (index,), opponent_first),
        call_ensures(OpponentHand::<E>::translation_from_index, (index,), opponent_second),
    ensures
        first == second,
        opponent_first == opponent_second,
        opponent_first.x == -first.x,
        opponent_first.y == first.y,
        opponent_first.z == -first.z,
{
}

} // verus!
