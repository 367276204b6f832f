//! Dealing: cards go from the pile to the player's hand, the table and the
//! opponent's hand in a fixed order, each with a staggered flight.

use crate::cards::DECK_SIZE;
use crate::geometry::{Placement, Position, CARD_SIZE_X, MAX_LAYOUT_INDEX};
use crate::player::{opponent_translation, player_translation, OpponentHand, PlayerHand};
use crate::table::{
    add_to_slots, count_occupied, is_first_free, lemma_count_occupied_prefix,
    lemma_first_free_unique, pile_placement, table_translation, Pile, Table, TABLE_SLOTS,
};
use vstd::prelude::*;

verus! {

/// Number of rounds in a deal.
pub const DEAL_ROUNDS: usize = 4;

/// Cards that each of the player, the table and the opponent get per round.
pub const CARDS_TO_DEAL: usize = 2;

/// Cards dealt in one round.
pub const CARDS_PER_ROUND: usize = 6;

/// Cards dealt in a whole deal: `DEAL_ROUNDS` rounds of `CARDS_PER_ROUND`.
pub const DEAL_SIZE: usize = 24;

/// Duration of the lift at the start and of the drop at the end of a flight.
pub const START_END_ANIMATION_MS: u64 = 150;

/// Duration of the move across, and the wait between two cards' flights.
pub const MOVE_ANIMATION_MS: u64 = 500;

/// Who receives the card dealt at a given step.
#[derive(Debug, Clone, Copy, PartialEq, Eq, Structural)]
pub enum Zone {
    Player,
    Table,
    Opponent,
}

/// Where a dealt card went.
#[derive(Debug, Clone, Copy, PartialEq, Eq, Structural)]
pub enum Target {
    /// Into the player's hand, at this index of the layout.
    Player(usize),
    /// Onto the table, into this slot.
    Table(usize),
    /// Into the opponent's hand, at this index of the layout.
    Opponent(usize),
    /// Nowhere: every slot of the table was taken.
    NoSlot,
}

/// One dealt card: which card, from which height of the pile, where to, and
/// how long its flight waits before it starts.
#[derive(Debug)]
pub struct DealMove<E> {
    pub entity: E,
    pub pile_index: usize,
    pub target: Target,
    pub delay_ms: u64,
}

/// How a segment of a flight moves between its two ends.
#[derive(Debug, Clone, Copy, PartialEq, Eq, Structural)]
pub enum Easing {
    /// Stays at the start, then jumps to the end.
    Discrete,
    /// Starts fast and slows down.
    CubicOut,
    /// At constant speed.
    Linear,
    /// Starts slowly and speeds up.
    CubicIn,
}

/// One segment of a flight: it moves the card to `target` in `duration_ms`.
#[derive(Debug, Clone, Copy, PartialEq, Eq, Structural)]
pub struct Segment {
    pub target: Placement,
    pub easing: Easing,
    pub duration_ms: u64,
}

/// Who receives the card of step `step`: in each round of six, two go to the
/// player, then two to the table, then two to the opponent.
pub open spec fn zone_of_step(step: int) -> Zone {
    let phase = (step % CARDS_PER_ROUND as int) / CARDS_TO_DEAL as int;
    if phase == 0 {
        Zone::Player
    } else if phase == 1 {
        Zone::Table
    } else {
        Zone::Opponent
    }
}

/// The hand index that the card of step `step` is laid out at: two per round.
pub open spec fn hand_index_of_step(step: int) -> int {
    (step / CARDS_PER_ROUND as int) * CARDS_TO_DEAL as int + step % CARDS_TO_DEAL as int
}

/// Everything a deal reads and changes.
pub struct DealState<E> {
    pub pile: Seq<E>,
    pub table: Seq<Option<E>>,
    pub player: Seq<E>,
    pub opponent: Seq<E>,
    pub moves: Seq<DealMove<E>>,
}

/// One step of the deal: the top card of the pile, if any, goes to the zone
/// of the step and the move is recorded; with an empty pile nothing changes.
pub open spec fn deal_step<E>(st: DealState<E>, step: int) -> DealState<E> {
    if st.pile.len() == 0 {
        st
    } else {
        let entity = st.pile.last();
        let pile = st.pile.drop_last();
        let delay_ms = (step * MOVE_ANIMATION_MS) as u64;
        let record = |target: Target|
            DealMove { entity, pile_index: pile.len() as usize, target, delay_ms };
        match zone_of_step(step) {
            Zone::Player => DealState {
                pile,
                player: st.player.push(entity),
                moves: st.moves.push(record(Target::Player(hand_index_of_step(step) as usize))),
                ..st
            },
            Zone::Table => {
                let (table, slot) = add_to_slots(st.table, entity);
                let target = match slot {
                    Some(i) => Target::Table(i as usize),
                    None => Target::NoSlot,
                };
                DealState { pile, table, moves: st.moves.push(record(target)), ..st }
            },
            Zone::Opponent => DealState {
                pile,
                opponent: st.opponent.push(entity),
                moves: st.moves.push(record(Target::Opponent(hand_index_of_step(step) as usize))),
                ..st
            },
        }
    }
}

/// The state after the first `n` steps of the deal.
pub open spec fn deal_through<E>(st: DealState<E>, n: nat) -> DealState<E>
    decreases n,
{
    if n == 0 {
        st
    } else {
        deal_step(deal_through(st, (n - 1) as nat), n - 1)
    }
}

/// The state of a session before a deal, with no move recorded yet.
pub open spec fn session_state<E>(
    pile: Pile<E>,
    table: Table<E>,
    player_hand: PlayerHand<E>,
    opponent_hand: OpponentHand<E>,
) -> DealState<E> {
    DealState {
        pile: pile.cards@,
        table: table@,
        player: player_hand.cards@,
        opponent: opponent_hand.cards@,
        moves: Seq::empty(),
    }
}

/// Deals four rounds: in each, two cards to the player, two to the table and
/// two to the opponent, always from the top of the pile. Returns the moves in
/// the order they were dealt; dealing stops early once the pile is empty.
pub fn deal_cards<E: Copy>(
    pile: &mut Pile<E>,
    table: &mut Table<E>,
    player_hand: &mut PlayerHand<E>,
    opponent_hand: &mut OpponentHand<E>,
) -> (r: Vec<DealMove<E>>)
    ensures
        ({
            let end = deal_through(
                session_state(*old(pile), *old(table), *old(player_hand), *old(opponent_hand)),
                DEAL_SIZE as nat,
            );
            &&& final(pile).cards@ == end.pile
            &&& final(table)@ == end.table
            &&& final(player_hand).cards@ == end.player
            &&& final(opponent_hand).cards@ == end.opponent
            &&& r@ == end.moves
        }),
{
    let ghost start = session_state(*pile, *table, *player_hand, *opponent_hand);
    let mut moves: Vec<DealMove<E>> = Vec::new();
    let mut step: usize = 0;
    while step < DEAL_SIZE
        invariant
            step <= DEAL_SIZE,
            start == session_state(*old(pile), *old(table), *old(player_hand), *old(opponent_hand)),
            deal_through(start, step as nat) == (DealState {
                pile: pile.cards@,
                table: table@,
                player: player_hand.cards@,
                opponent: opponent_hand.cards@,
                moves: moves@,
            }),
        decreases DEAL_SIZE - step,
    {
        let round = step / CARDS_PER_ROUND;
        let phase = (step % CARDS_PER_ROUND) / CARDS_TO_DEAL;
        let card_index = step % CARDS_TO_DEAL;
        let delay_ms = step as u64 * MOVE_ANIMATION_MS;
        if let Some(entity) = pile.pop() {
            let pile_index = pile.len();
            let target = if phase == 0 {
                player_hand.cards.push(entity);
                Target::Player(round * CARDS_TO_DEAL + card_index)
            } else if phase == 1 {
                match table.add_card(entity) {
                    Some(slot) => Target::Table(slot),
                    None => Target::NoSlot,
                }
            } else {
                opponent_hand.cards.push(entity);
                Target::Opponent(round * CARDS_TO_DEAL + card_index)
            };
            moves.push(DealMove { entity, pile_index, target, delay_ms });
        }
        step = step + 1;
    }
    moves
}

/// The flight of a card from `from` to `to`: it waits `delay_ms` where it is,
/// lifts by one card width, turned, moves across above its destination, and
/// drops into place.
pub open spec fn flight(from: Placement, to: Placement, delay_ms: u64) -> Seq<Segment> {
    let high = from.translation.y + CARD_SIZE_X;
    seq![
        Segment { target: from, easing: Easing::Discrete, duration_ms: delay_ms },
        Segment {
            target: Placement {
                translation: Position { y: high as i64, ..from.translation },
                turned: true,
            },
            easing: Easing::CubicOut,
            duration_ms: START_END_ANIMATION_MS,
        },
        Segment {
            target: Placement {
                translation: Position { y: high as i64, ..to.translation },
                turned: to.turned,
            },
            easing: Easing::Linear,
            duration_ms: MOVE_ANIMATION_MS,
        },
        Segment { target: to, easing: Easing::CubicIn, duration_ms: START_END_ANIMATION_MS },
    ]
}

/// The segments of the flight of a card from `from` to `to`.
pub fn ease_to(from: Placement, to: Placement, delay_ms: u64) -> (r: Vec<Segment>)
    requires
        from.translation.y + CARD_SIZE_X <= i64::MAX,
    ensures
        r@ == flight(from, to, delay_ms),
{
    let high = from.translation.y + CARD_SIZE_X;
    vec![
        Segment { target: from, easing: Easing::Discrete, duration_ms: delay_ms },
        Segment {
            target: Placement {
                translation: Position { y: high, ..from.translation },
                turned: true,
            },
            easing: Easing::CubicOut,
            duration_ms: START_END_ANIMATION_MS,
        },
        Segment {
            target: Placement {
                translation: Position { y: high, ..to.translation },
                turned: to.turned,
            },
            easing: Easing::Linear,
            duration_ms: MOVE_ANIMATION_MS,
        },
        Segment { target: to, easing: Easing::CubicIn, duration_ms: START_END_ANIMATION_MS },
    ]
}

/// Where a card dealt to `target` comes to rest: face up in the player's hand
/// and on the table, turned in the opponent's hand; nowhere for `NoSlot`.
pub open spec fn target_placement(target: Target) -> Option<Placement> {
    match target {
        Target::Player(i) => Some(
            Placement { translation: player_translation(i as int), turned: false },
        ),
        Target::Table(i) => Some(
            Placement { translation: table_translation(i as int), turned: false },
        ),
        Target::Opponent(i) => Some(
            Placement { translation: opponent_translation(i as int), turned: true },
        ),
        Target::NoSlot => None,
    }
}

/// Whether the indices of a move are within the range that the layouts accept.
pub open spec fn move_in_layout_range<E>(m: DealMove<E>) -> bool {
    &&& m.pile_index <= MAX_LAYOUT_INDEX
    &&& match m.target {
        Target::Player(i) => i <= MAX_LAYOUT_INDEX,
        Target::Table(i) => i <= MAX_LAYOUT_INDEX,
        Target::Opponent(i) => i <= MAX_LAYOUT_INDEX,
        Target::NoSlot => true,
    }
}

impl<E> DealMove<E> {
    /// The flight of the dealt card from its place in the pile to its
    /// destination; a card that found no slot does not fly.
    pub fn motion(&self) -> (r: Vec<Segment>)
        requires
            move_in_layout_range(*self),
        ensures
            match target_placement(self.target) {
                Some(to) => r@ == flight(pile_placement(self.pile_index as int), to, self.delay_ms),
                None => r@ == Seq::<Segment>::empty(),
            },
    {
        let from = Pile::<E>::placement_from_index(self.pile_index);
        match self.target {
            Target::Player(i) => {
                let translation = PlayerHand::<E>::translation_from_index(i);
                let to = Placement { translation, turned: false };
                ease_to(from, to, self.delay_ms)
            },
            Target::Table(i) => {
                let translation = Table::<E>::translation_from_index(i);
                let to = Placement { translation, turned: false };
                ease_to(from, to, self.delay_ms)
            },
            Target::Opponent(i) => {
                let translation = OpponentHand::<E>::translation_from_index(i);
                let to = Placement { translation, turned: true };
                ease_to(from, to, self.delay_ms)
            },
            Target::NoSlot => Vec::new(),
        }
    }
}

/// The number of cards that `n` steps take from a pile of `len` cards.
pub open spec fn dealt_count(n: nat, len: nat) -> nat {
    if n <= len {
        n
    } else {
        len
    }
}

proof fn lemma_deal_takes_from_top<E>(st: DealState<E>, n: nat)
    requires
        n <= DEAL_SIZE,
        st.moves.len() == 0,
    ensures
        ({
            let end = deal_through(st, n);
            let len = st.pile.len();
            let m = dealt_count(n, len);
            &&& end.moves.len() == m
            &&& end.pile == st.pile.subrange(0, len - m)
            &&& forall|k: int|
                0 <= k < m ==> {
                    &&& (#[trigger] end.moves[k]).entity == st.pile[len - 1 - k]
                    &&& end.moves[k].delay_ms == k * MOVE_ANIMATION_MS
                }
        }),
    decreases n,
{
    if n > 0 {
        lemma_deal_takes_from_top(st, (n - 1) as nat);
        let prev = deal_through(st, (n - 1) as nat);
        let end = deal_through(st, n);
        let len = st.pile.len();
        if prev.pile.len() > 0 {
            assert(prev.pile.drop_last() =~= st.pile.subrange(0, len - n));
            assert(end.moves.len() == prev.moves.len() + 1);
            assert(forall|k: int| 0 <= k < prev.moves.len() ==> end.moves[k] == prev.moves[k]);
            let last = end.moves[prev.moves.len() as int];
            assert(last.entity == prev.pile.last());
            assert(last.delay_ms == (n - 1) * MOVE_ANIMATION_MS);
        }
    }
}

/// A deal takes its cards from the top of the pile, one after another, as
/// many as the deal size or as the pile holds, and each card's flight waits
/// longer than the one before: the `k`-th waits `k` times `MOVE_ANIMATION_MS`.
pub proof fn lemma_deal_is_staggered<E>(st: DealState<E>)
    requires
        st.moves.len() == 0,
    ensures
        ({
            let end = deal_through(st, DEAL_SIZE as nat);
            let len = st.pile.len();
            let m = dealt_count(DEAL_SIZE as nat, len);
            &&& end.moves.len() == m
            &&& end.pile == st.pile.subrange(0, len - m)
            &&& forall|k: int|
                0 <= k < m ==> (#[trigger] end.moves[k]).entity == st.pile[len - 1 - k]
                    && end.moves[k].delay_ms == k * MOVE_ANIMATION_MS
            &&& forall|i: int, j: int|
                0 <= i < j < m ==> #[trigger] end.moves[i].delay_ms
                    < #[trigger] end.moves[j].delay_ms
        }),
{
    lemma_deal_takes_from_top(st, DEAL_SIZE as nat);
}

/// Cards the player holds after `n` steps of a deal from a pile large enough.
pub open spec fn player_share(n: int) -> int {
    (n / 6) * 2 + if n % 6 <= 2 {
        n % 6
    } else {
        2
    }
}

/// Cards the table holds after `n` steps of a deal from a pile large enough.
pub open spec fn table_share(n: int) -> int {
    (n / 6) * 2 + if n % 6 <= 2 {
        0
    } else if n % 6 <= 4 {
        n % 6 - 2
    } else {
        2
    }
}

/// Cards the opponent holds after `n` steps of a deal from a pile large enough.
pub open spec fn opponent_share(n: int) -> int {
    (n / 6) * 2 + if n % 6 <= 4 {
        0
    } else {
        n % 6 - 4
    }
}

/// A session before its first deal: `pile` on an empty table, both hands empty.
pub open spec fn fresh_session<E>(pile: Seq<E>) -> DealState<E> {
    DealState {
        pile,
        table: Seq::new(TABLE_SLOTS as nat, |i: int| None::<E>),
        player: Seq::empty(),
        opponent: Seq::empty(),
        moves: Seq::empty(),
    }
}

proof fn lemma_fresh_deal_shares<E>(pile: Seq<E>, n: nat)
    requires
        pile.len() == DECK_SIZE,
        n <= DEAL_SIZE,
    ensures
        ({
            let end = deal_through(fresh_session(pile), n);
            &&& end.pile.len() == pile.len() - n
            &&& end.player.len() == player_share(n as int)
            &&& end.opponent.len() == opponent_share(n as int)
            &&& end.table.len() == TABLE_SLOTS
            &&& forall|j: int|
                0 <= j < TABLE_SLOTS ==> (#[trigger] end.table[j] is Some <==> j < table_share(
                    n as int,
                ))
        }),
    decreases n,
{
    if n > 0 {
        let k = (n - 1) as int;
        lemma_fresh_deal_shares(pile, (n - 1) as nat);
        let prev = deal_through(fresh_session(pile), (n - 1) as nat);
        let t = table_share(k);
        assert(0 <= k % 6 < 6);
        if zone_of_step(k) == Zone::Table {
            assert(t < TABLE_SLOTS);
            assert(is_first_free(prev.table, t));
            lemma_first_free_unique(prev.table, t);
        }
    }
}

/// A whole deal from a full pile into a fresh session gives the player eight
/// cards, the opponent eight, fills the first eight table slots and leaves the
/// other four empty, and leaves twenty-four cards on the pile.
pub proof fn lemma_full_deal<E>(pile: Seq<E>)
    requires
        pile.len() == DECK_SIZE,
    ensures
        ({
            let end = deal_through(fresh_session(pile), DEAL_SIZE as nat);
            &&& end.player.len() == 8
            &&& end.opponent.len() == 8
            &&& end.pile.len() == 24
            &&& end.table.len() == TABLE_SLOTS
            &&& forall|j: int| 0 <= j < TABLE_SLOTS ==> (#[trigger] end.table[j] is Some <==> j < 8)
            &&& count_occupied(end.table, TABLE_SLOTS as nat) == 8
        }),
{
    lemma_fresh_deal_shares(pile, DEAL_SIZE as nat);
    let end = deal_through(fresh_session(pile), DEAL_SIZE as nat);
    lemma_count_occupied_prefix(end.table, 8, TABLE_SLOTS as nat);
}

/// Puts the newly created cards on the pile, shuffles the whole pile, and
/// returns where each card of the pile stands, from the bottom up.
pub fn setup_game<E>(pile: &mut Pile<E>, entities: Vec<E>) -> (r: Vec<Placement>)
    requires
        old(pile).cards@.len() + entities@.len() <= MAX_LAYOUT_INDEX,
    ensures
        final(pile).cards@.to_multiset() == old(pile).cards@.to_multiset().add(
            entities@.to_multiset(),
        ),
        final(pile).cards@.len() == old(pile).cards@.len() + entities@.len(),
        r@ == Seq::new(final(pile).cards@.len(), |i: int| pile_placement(i)),
{
    let ghost added = entities@;
    let mut entities = entities;
    let mut cards = Vec::new();
    std::mem::swap(&mut cards, &mut pile.cards);
    let ghost before = cards@;
    cards.append(&mut entities);
    proof {
        vstd::seq_lib::lemma_multiset_commutative(before, added);
    }
    let shuffled = Pile::shuffled(cards);
    *pile = shuffled;
    let n = pile.len();
    let mut placements: Vec<Placement> = Vec::with_capacity(n);
    let mut i: usize = 0;
    while i < n
        invariant
            i <= n,
            n == pile.cards@.len(),
            n <= MAX_LAYOUT_INDEX,
            placements@ == Seq::new(i as nat, |k: int| pile_placement(k)),
        decreases n - i,
    {
        placements.push(Pile::<E>::placement_from_index(i));
        i = i + 1;
    }
    placements
}

} // verus!
