//! The draw pile and the twelve face-up slots of the table.

use crate::cards::{is_full_deck, lemma_full_deck_holds_every_card, Card, DECK_SIZE};
use crate::geometry::{
    Placement, Position, CARD_SIZE_Y, CARD_STEP_X, CARD_STEP_Z, MAX_LAYOUT_INDEX,
};
use rand::seq::SliceRandom;
use vstd::prelude::*;

verus! {

/// Number of slots on the table.
pub const TABLE_SLOTS: usize = 12;

/// Relies on rand's `SliceRandom::shuffle` driven by `rand::thread_rng`: it
/// permutes the vector in place by swapping pairs of its items, so the same
/// items remain, each as often as before. Which order comes out is chance.
#[verifier::external_body]
fn shuffle_in_place<E>(items: &mut Vec<E>)
    ensures
        final(items)@.to_multiset() == old(items)@.to_multiset(),
        final(items)@.len() == old(items)@.len(),
{
    items.shuffle(&mut rand::thread_rng());
}

/// Where the card at `index` of the pile stands: the pile is a column left of
/// the table, each card one card height above the one below it, all turned.
pub open spec fn pile_placement(index: int) -> Placement {
    Placement {
        translation: Position {
            x: (-3 * CARD_STEP_X) as i64,
            y: (CARD_SIZE_Y / 2 + CARD_SIZE_Y * index) as i64,
            z: 0,
        },
        turned: true,
    }
}

/// The cards waiting to be dealt; the last card is the top of the pile.
#[derive(Debug)]
pub struct Pile<E> {
    pub cards: Vec<E>,
}

impl<E> Pile<E> {
    /// An empty pile.
    pub fn new() -> (r: Self)
        ensures
            r.cards@ == Seq::<E>::empty(),
    {
        Pile { cards: Vec::with_capacity(DECK_SIZE) }
    }

    /// A pile of the given cards in a random order.
    pub fn shuffled(cards: Vec<E>) -> (r: Self)
        ensures
            r.cards@.to_multiset() == cards@.to_multiset(),
            r.cards@.len() == cards@.len(),
    {
        let mut cards = cards;
        shuffle_in_place(&mut cards);
        Pile { cards }
    }

    /// Takes the top card off the pile, if there is one.
    pub fn pop(&mut self) -> (r: Option<E>)
        ensures
            old(self).cards@.len() == 0 ==> r is None && final(self).cards@ == old(self).cards@,
            old(self).cards@.len() > 0 ==> r == Some(old(self).cards@.last())
                && final(self).cards@ == old(self).cards@.drop_last(),
    {
        self.cards.pop()
    }

    /// Number of cards in the pile.
    pub fn len(&self) -> (r: usize)
        ensures
            r == self.cards@.len(),
    {
        self.cards.len()
    }

    /// Where the card at `index` of the pile stands.
    pub fn placement_from_index(index: usize) -> (r: Placement)
        requires
            index <= MAX_LAYOUT_INDEX,
        ensures
            r == pile_placement(index as int),
    {
        let i = index as i64;
        Placement {
            translation: Position {
                x: -3 * CARD_STEP_X,
                y: CARD_SIZE_Y / 2 + CARD_SIZE_Y * i,
                z: 0,
            },
            turned: true,
        }
    }
}

impl<E> Default for Pile<E> {
    fn default() -> (r: Self)
        ensures
            r.cards@ == Seq::<E>::empty(),
    {
        Pile::new()
    }
}

/// A shuffled full deck holds every card exactly once: the pile has the
/// deck's length, no card twice, and each of the cards.
pub proof fn lemma_shuffled_deck_holds_every_card(deck: Seq<Card>, pile: Seq<Card>)
    requires
        is_full_deck(deck),
        pile.to_multiset() == deck.to_multiset(),
    ensures
        pile.len() == DECK_SIZE,
        pile.no_duplicates(),
        forall|c: Card| #[trigger] pile.contains(c),
{
    lemma_full_deck_holds_every_card(deck);
    pile.to_multiset_ensures();
    deck.to_multiset_ensures();
    deck.lemma_multiset_has_no_duplicates();
    pile.lemma_multiset_has_no_duplicates_conv();
    assert forall|c: Card| #[trigger] pile.contains(c) by {
        assert(deck.contains(c));
        assert(deck.to_multiset().count(c) > 0);
    }
}

/// Whether `i` is the first empty slot of `slots`, scanning from slot 0.
pub open spec fn is_first_free<E>(slots: Seq<Option<E>>, i: int) -> bool {
    &&& 0 <= i < slots.len()
    &&& slots[i] is None
    &&& forall|j: int| 0 <= j < i ==> #[trigger] slots[j] is Some
}

/// The first empty slot of `slots`, if any slot is empty.
pub open spec fn first_free_slot<E>(slots: Seq<Option<E>>) -> Option<int> {
    if exists|i: int| is_first_free(slots, i) {
        Some(choose|i: int| is_first_free(slots, i))
    } else {
        None
    }
}

/// The slots after placing `entity`, and the slot it went to, if any.
pub open spec fn add_to_slots<E>(slots: Seq<Option<E>>, entity: E) -> (
    Seq<Option<E>>,
    Option<int>,
) {
    match first_free_slot(slots) {
        Some(i) => (slots.update(i, Some(entity)), Some(i)),
        None => (slots, None),
    }
}

/// A slot that is empty, with every slot before it taken, is the first free slot.
pub proof fn lemma_first_free_unique<E>(slots: Seq<Option<E>>, i: int)
    requires
        is_first_free(slots, i),
    ensures
        first_free_slot(slots) == Some(i),
{
    let k = choose|k: int| is_first_free(slots, k);
    if k < i {
        assert(slots[k] is Some);
    } else if k > i {
        assert(slots[i] is Some);
    }
}

/// Where the card in slot `index` of the table stands: two cards per column,
/// the second a little in front of the first, six columns left to right.
pub open spec fn table_translation(index: int) -> Position {
    Position {
        x: (CARD_STEP_X * (index / 2) - 2 * CARD_STEP_X) as i64,
        y: (CARD_SIZE_Y / 2) as i64,
        z: (CARD_STEP_Z * (index % 2) - CARD_STEP_Z / 2) as i64,
    }
}

/// The face-up cards: twelve slots, each empty or holding one card.
#[derive(Debug)]
pub struct Table<E> {
    cards: [Option<E>; 12],
}

impl<E> View for Table<E> {
    type V = Seq<Option<E>>;

    closed spec fn view(&self) -> Seq<Option<E>> {
        self.cards@
    }
}

impl<E> Table<E> {
    /// A table with every slot empty.
    pub fn new() -> (r: Self)
        ensures
            r@ == Seq::new(TABLE_SLOTS as nat, |i: int| None::<E>),
    {
        let r = Table {
            cards: [None, None, None, None, None, None, None, None, None, None, None, None],
        };
        assert(r@ =~= Seq::new(TABLE_SLOTS as nat, |i: int| None::<E>));
        r
    }

    /// A table always has `TABLE_SLOTS` slots.
    pub proof fn lemma_slot_count(&self)
        ensures
            self@.len() == TABLE_SLOTS,
    {
    }

    /// Puts `entity` into the first empty slot and returns that slot; when
    /// every slot is taken, the table is left as it was and no slot is returned.
    pub fn add_card(&mut self, entity: E) -> (r: Option<usize>)
        ensures
            final(self)@ == add_to_slots(old(self)@, entity).0,
            r matches Some(i) ==> add_to_slots(old(self)@, entity).1 == Some(i as int),
            r is None ==> add_to_slots(old(self)@, entity).1 is None,
            final(self)@.len() == TABLE_SLOTS,
    {
        let mut i: usize = 0;
        while i < TABLE_SLOTS
            invariant
                i <= TABLE_SLOTS,
                self@ == old(self)@,
                self@.len() == TABLE_SLOTS,
                forall|j: int| 0 <= j < i ==> #[trigger] self@[j] is Some,
            decreases TABLE_SLOTS - i,
        {
            if self.cards[i].is_none() {
                proof {
                    lemma_first_free_unique(self@, i as int);
                }
                self.cards[i] = Some(entity);
                return Some(i);
            }
            i = i + 1;
        }
        assert(!exists|k: int| is_first_free(old(self)@, k));
        None
    }

    /// The card in slot `index`, if the slot holds one.
    pub fn slot(&self, index: usize) -> (r: Option<&E>)
        requires
            index < TABLE_SLOTS,
        ensures
            r matches Some(e) ==> self@[index as int] == Some(*e),
            r is None ==> self@[index as int] is None,
    {
        self.cards[index].as_ref()
    }

    /// Number of slots that hold a card.
    pub fn occupied(&self) -> (r: usize)
        ensures
            r == count_occupied(self@, TABLE_SLOTS as nat),
    {
        let mut n: usize = 0;
        let mut i: usize = 0;
        while i < TABLE_SLOTS
            invariant
                i <= TABLE_SLOTS,
                self@.len() == TABLE_SLOTS,
                n == count_occupied(self@, i as nat),
                n <= i,
            decreases TABLE_SLOTS - i,
        {
            if self.cards[i].is_some() {
                n = n + 1;
            }
            i = i + 1;
        }
        n
    }

    /// Where the card in slot `index` stands; it does not depend on what the
    /// table holds.
    pub fn translation_from_index(index: usize) -> (r: Position)
        requires
            index <= MAX_LAYOUT_INDEX,
        ensures
            r == table_translation(index as int),
    {
        let column = (index / 2) as i64;
        let depth = (index % 2) as i64;
        Position {
            x: CARD_STEP_X * column - 2 * CARD_STEP_X,
            y: CARD_SIZE_Y / 2,
            z: CARD_STEP_Z * depth - CARD_STEP_Z / 2,
        }
    }
}

impl<E> Default for Table<E> {
    fn default() -> (r: Self)
        ensures
            r@ == Seq::new(TABLE_SLOTS as nat, |i: int| None::<E>),
    {
        Table::new()
    }
}

/// Number of occupied slots among the first `n` of `slots`.
pub open spec fn count_occupied<E>(slots: Seq<Option<E>>, n: nat) -> nat
    decreases n,
{
    if n == 0 {
        0
    } else {
        count_occupied(slots, (n - 1) as nat) + if slots[n - 1] is Some {
            1nat
        } else {
            0nat
        }
    }
}

/// The slots after placing each of `entities` in turn, and the slot that
/// each placement returned.
pub open spec fn add_all<E>(slots: Seq<Option<E>>, entities: Seq<E>) -> (
    Seq<Option<E>>,
    Seq<Option<int>>,
)
    decreases entities.len(),
{
    if entities.len() == 0 {
        (slots, Seq::empty())
    } else {
        let (before, placed) = add_all(slots, entities.drop_last());
        let (after, slot) = add_to_slots(before, entities.last());
        (after, placed.push(slot))
    }
}

/// Cards placed one after another on an empty table fill the slots in order:
/// the `i`-th goes to slot `i` while `i` is below twelve, and every later one
/// finds no slot.
pub proof fn lemma_table_fills_in_order<E>(entities: Seq<E>)
    ensures
        ({
            let empty = Seq::new(TABLE_SLOTS as nat, |i: int| None::<E>);
            let (slots, placed) = add_all(empty, entities);
            &&& placed.len() == entities.len()
            &&& forall|i: int|
                0 <= i < entities.len() ==> #[trigger] placed[i] == if i < TABLE_SLOTS {
                    Some(i)
                } else {
                    None
                }
            &&& slots.len() == TABLE_SLOTS
            &&& forall|j: int|
                0 <= j < TABLE_SLOTS ==> #[trigger] slots[j] == if j < entities.len() {
                    Some(entities[j])
                } else {
                    None
                }
        }),
    decreases entities.len(),
{
    let empty = Seq::new(TABLE_SLOTS as nat, |i: int| None::<E>);
    if entities.len() > 0 {
        let rest = entities.drop_last();
        lemma_table_fills_in_order(rest);
        let (before, placed) = add_all(empty, rest);
        let n = rest.len() as int;
        if n < TABLE_SLOTS {
            assert(is_first_free(before, n));
            lemma_first_free_unique(before, n);
        } else {
            assert(!exists|k: int| is_first_free(before, k));
        }
        let (slots, placed2) = add_all(empty, entities);
        assert forall|i: int| 0 <= i < entities.len() implies #[trigger] placed2[i] == if i
            < TABLE_SLOTS {
            Some(i)
        } else {
            None
        } by {
            if i < n {
                assert(placed2[i] == placed[i]);
            }
        }
    }
}

/// When exactly the first `t` slots are taken, `n` slots hold `min(n, t)` cards.
pub proof fn lemma_count_occupied_prefix<E>(slots: Seq<Option<E>>, t: nat, n: nat)
    requires
        n <= slots.len(),
        forall|j: int| 0 <= j < slots.len() ==> (#[trigger] slots[j] is Some <==> j < t),
    ensures
        count_occupied(slots, n) == if n <= t {
            n
        } else {
            t
        },
    decreases n,
{
    if n > 0 {
        lemma_count_occupied_prefix(slots, t, (n - 1) as nat);
    }
}

} // verus!
