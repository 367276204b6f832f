//! The forty-eight cards, their months and suits, and the ranking of suits.

use core::cmp::Ordering;
use vstd::prelude::*;
use vstd::std_specs::cmp::PartialOrdSpec;

verus! {

/// Number of cards in a full deck.
pub const DECK_SIZE: usize = 48;


/// One of the twelve months of the deck, in calendar order.
#[derive(Debug, Clone, Copy, PartialEq, Eq, Structural, PartialOrd, Ord, Hash)]
pub enum Month {
    January,
    February,
    March,
    April,
    May,
    June,
    July,
    August,
    September,
    October,
    November,
    December,
}

impl Month {
    /// Position of the month in the calendar: 0 for January up to 11 for December.
    pub open spec fn ordinal(self) -> nat {
        match self {
            Month::January => 0,
            Month::February => 1,
            Month::March => 2,
            Month::April => 3,
            Month::May => 4,
            Month::June => 5,
            Month::July => 6,
            Month::August => 7,
            Month::September => 8,
            Month::October => 9,
            Month::November => 10,
            Month::December => 11,
        }
    }
}

/// The five bright cards.
#[derive(Debug, Clone, Copy, PartialEq, Eq, Structural, Hash)]
pub enum Hikari {
    Crane,
    Curtain,
    Moon,
    Michikaze,
    Phoenix,
}

/// The nine animal cards.
#[derive(Debug, Clone, Copy, PartialEq, Eq, Structural, Hash)]
pub enum Tane {
    BushWarbler,
    Cuckoo,
    Bridge,
    Butterfly,
    Boar,
    Goose,
    Sake,
    Deer,
    Swallow,
}

/// The three kinds of ribbon.
#[derive(Debug, Clone, Copy, PartialEq, Eq, Structural, Hash)]
pub enum Tanzaku {
    Poetry,
    Plain,
    Blue,
}

/// The suit of a card: its category, with the particular bright, animal or
/// ribbon where the category has one.
#[derive(Debug, Clone, Copy, PartialEq, Eq, Structural, Hash)]
pub enum Suit {
    Hikari(Hikari),
    Tane(Tane),
    Tanzaku(Tanzaku),
    Kasu,
}

/// One of the forty-eight cards, in the deck's canonical order: month by
/// month, four cards each.
#[derive(Debug, Clone, Copy, PartialEq, Eq, Structural, Hash)]
pub enum Card {
    JanuaryHikari,
    JanuaryPoetryTanzaku,
    JanuaryKasu1,
    JanuaryKasu2,
    FebruaryTane,
    FebruaryPoetryTanzaku,
    FebruaryKasu1,
    FebruaryKasu2,
    MarchHikari,
    MarchPoetryTanzaku,
    MarchKasu1,
    MarchKasu2,
    AprilTane,
    AprilPlainTanzaku,
    AprilKasu1,
    AprilKasu2,
    MayTane,
    MayPlainTanzaku,
    MayKasu1,
    MayKasu2,
    JuneTane,
    JuneBlueTanzaku,
    JuneKasu1,
    JuneKasu2,
    JulyTane,
    JulyPlainTanzaku,
    JulyKasu1,
    JulyKasu2,
    AugustHikari,
    AugustTane,
    AugustKasu1,
    AugustKasu2,
    SeptemberTane,
    SeptemberBlueTanzaku,
    SeptemberKasu1,
    SeptemberKasu2,
    OctoberTane,
    OctoberBlueTanzaku,
    OctoberKasu1,
    OctoberKasu2,
    NovemberHikari,
    NovemberTane,
    NovemberPlainTanzaku,
    NovemberKasu,
    DecemberHikari,
    DecemberKasu1,
    DecemberKasu2,
    DecemberKasu3,
}

/// The suit of each card, listed by the card's position in the canonical order,
/// month by month.
pub open spec fn suit_table() -> Seq<Suit> {
    seq![
        Suit::Hikari(Hikari::Crane), Suit::Tanzaku(Tanzaku::Poetry), Suit::Kasu, Suit::Kasu,
        Suit::Tane(Tane::BushWarbler), Suit::Tanzaku(Tanzaku::Poetry), Suit::Kasu, Suit::Kasu,
        Suit::Hikari(Hikari::Curtain), Suit::Tanzaku(Tanzaku::Poetry), Suit::Kasu, Suit::Kasu,
        Suit::Tane(Tane::Cuckoo), Suit::Tanzaku(Tanzaku::Plain), Suit::Kasu, Suit::Kasu,
        Suit::Tane(Tane::Bridge), Suit::Tanzaku(Tanzaku::Plain), Suit::Kasu, Suit::Kasu,
        Suit::Tane(Tane::Butterfly), Suit::Tanzaku(Tanzaku::Blue), Suit::Kasu, Suit::Kasu,
        Suit::Tane(Tane::Boar), Suit::Tanzaku(Tanzaku::Plain), Suit::Kasu, Suit::Kasu,
        Suit::Hikari(Hikari::Moon), Suit::Tane(Tane::Goose), Suit::Kasu, Suit::Kasu,
        Suit::Tane(Tane::Sake), Suit::Tanzaku(Tanzaku::Blue), Suit::Kasu, Suit::Kasu,
        Suit::Tane(Tane::Deer), Suit::Tanzaku(Tanzaku::Blue), Suit::Kasu, Suit::Kasu,
        Suit::Hikari(Hikari::Michikaze), Suit::Tane(Tane::Swallow),
        Suit::Tanzaku(Tanzaku::Plain), Suit::Kasu,
        Suit::Hikari(Hikari::Phoenix), Suit::Kasu, Suit::Kasu, Suit::Kasu,
    ]
}

impl Card {
    /// Position of the card in the canonical order, from 0 to 47.
    pub open spec fn ordinal(self) -> nat {
        match self {
            Card::JanuaryHikari => 0,
            Card::JanuaryPoetryTanzaku => 1,
            Card::JanuaryKasu1 => 2,
            Card::JanuaryKasu2 => 3,
            Card::FebruaryTane => 4,
            Card::FebruaryPoetryTanzaku => 5,
            Card::FebruaryKasu1 => 6,
            Card::FebruaryKasu2 => 7,
            Card::MarchHikari => 8,
            Card::MarchPoetryTanzaku => 9,
            Card::MarchKasu1 => 10,
            Card::MarchKasu2 => 11,
            Card::AprilTane => 12,
            Card::AprilPlainTanzaku => 13,
            Card::AprilKasu1 => 14,
            Card::AprilKasu2 => 15,
            Card::MayTane => 16,
            Card::MayPlainTanzaku => 17,
            Card::MayKasu1 => 18,
            Card::MayKasu2 => 19,
            Card::JuneTane => 20,
            Card::JuneBlueTanzaku => 21,
            Card::JuneKasu1 => 22,
            Card::JuneKasu2 => 23,
            Card::JulyTane => 24,
            Card::JulyPlainTanzaku => 25,
            Card::JulyKasu1 => 26,
            Card::JulyKasu2 => 27,
            Card::AugustHikari => 28,
            Card::AugustTane => 29,
            Card::AugustKasu1 => 30,
            Card::AugustKasu2 => 31,
            Card::SeptemberTane => 32,
            Card::SeptemberBlueTanzaku => 33,
            Card::SeptemberKasu1 => 34,
            Card::SeptemberKasu2 => 35,
            Card::OctoberTane => 36,
            Card::OctoberBlueTanzaku => 37,
            Card::OctoberKasu1 => 38,
            Card::OctoberKasu2 => 39,
            Card::NovemberHikari => 40,
            Card::NovemberTane => 41,
            Card::NovemberPlainTanzaku => 42,
            Card::NovemberKasu => 43,
            Card::DecemberHikari => 44,
            Card::DecemberKasu1 => 45,
            Card::DecemberKasu2 => 46,
            Card::DecemberKasu3 => 47,
        }
    }

    /// The month of the card: cards come four to a month in the canonical order.
    pub fn to_month(self) -> (r: Month)
        ensures
            r.ordinal() == self.ordinal() / 4,
    {
        match self {
            Card::JanuaryHikari
            | Card::JanuaryPoetryTanzaku
            | Card::JanuaryKasu1
            | Card::JanuaryKasu2 => Month::January,
            Card::FebruaryTane
            | Card::FebruaryPoetryTanzaku
            | Card::FebruaryKasu1
            | Card::FebruaryKasu2 => Month::February,
            Card::MarchHikari
            | Card::MarchPoetryTanzaku
            | Card::MarchKasu1
            | Card::MarchKasu2 => Month::March,
            Card::AprilTane
            | Card::AprilPlainTanzaku
            | Card::AprilKasu1
            | Card::AprilKasu2 => Month::April,
            Card::MayTane | Card::MayPlainTanzaku | Card::MayKasu1 | Card::MayKasu2 => Month::May,
            Card::JuneTane
            | Card::JuneBlueTanzaku
            | Card::JuneKasu1
            | Card::JuneKasu2 => Month::June,
            Card::JulyTane
            | Card::JulyPlainTanzaku
            | Card::JulyKasu1
            | Card::JulyKasu2 => Month::July,
            Card::AugustHikari
            | Card::AugustTane
            | Card::AugustKasu1
            | Card::AugustKasu2 => Month::August,
            Card::SeptemberTane
            | Card::SeptemberBlueTanzaku
            | Card::SeptemberKasu1
            | Card::SeptemberKasu2 => Month::September,
            Card::OctoberTane
            | Card::OctoberBlueTanzaku
            | Card::OctoberKasu1
            | Card::OctoberKasu2 => Month::October,
            Card::NovemberHikari
            | Card::NovemberTane
            | Card::NovemberPlainTanzaku
            | Card::NovemberKasu => Month::November,
            Card::DecemberHikari
            | Card::DecemberKasu1
            | Card::DecemberKasu2
            | Card::DecemberKasu3 => Month::December,
        }
    }

    /// The suit of the card, as the table of suits gives it.
    pub fn to_suit(self) -> (r: Suit)
        ensures
            r == suit_table()[self.ordinal() as int],
    {
        match self {
            Card::JanuaryHikari => Suit::Hikari(Hikari::Crane),
            Card::MarchHikari => Suit::Hikari(Hikari::Curtain),
            Card::AugustHikari => Suit::Hikari(Hikari::Moon),
            Card::NovemberHikari => Suit::Hikari(Hikari::Michikaze),
            Card::DecemberHikari => Suit::Hikari(Hikari::Phoenix),
            Card::FebruaryTane => Suit::Tane(Tane::BushWarbler),
            Card::AprilTane => Suit::Tane(Tane::Cuckoo),
            Card::MayTane => Suit::Tane(Tane::Bridge),
            Card::JuneTane => Suit::Tane(Tane::Butterfly),
            Card::JulyTane => Suit::Tane(Tane::Boar),
            Card::AugustTane => Suit::Tane(Tane::Goose),
            Card::SeptemberTane => Suit::Tane(Tane::Sake),
            Card::OctoberTane => Suit::Tane(Tane::Deer),
            Card::NovemberTane => Suit::Tane(Tane::Swallow),
            Card::JanuaryPoetryTanzaku
            | Card::FebruaryPoetryTanzaku
            | Card::MarchPoetryTanzaku => Suit::Tanzaku(Tanzaku::Poetry),
            Card::AprilPlainTanzaku
            | Card::MayPlainTanzaku
            | Card::JulyPlainTanzaku
            | Card::NovemberPlainTanzaku => Suit::Tanzaku(Tanzaku::Plain),
            Card::JuneBlueTanzaku
            | Card::SeptemberBlueTanzaku
            | Card::OctoberBlueTanzaku => Suit::Tanzaku(Tanzaku::Blue),
            Card::JanuaryKasu1
            | Card::JanuaryKasu2
            | Card::FebruaryKasu1
            | Card::FebruaryKasu2
            | Card::MarchKasu1
            | Card::MarchKasu2
            | Card::AprilKasu1
            | Card::AprilKasu2
            | Card::MayKasu1
            | Card::MayKasu2
            | Card::JuneKasu1
            | Card::JuneKasu2
            | Card::JulyKasu1
            | Card::JulyKasu2
            | Card::AugustKasu1
            | Card::AugustKasu2
            | Card::SeptemberKasu1
            | Card::SeptemberKasu2
            | Card::OctoberKasu1
            | Card::OctoberKasu2
            | Card::NovemberKasu
            | Card::DecemberKasu1
            | Card::DecemberKasu2
            | Card::DecemberKasu3 => Suit::Kasu,
        }
    }

    /// Position of the card in the canonical order.
    pub fn index(self) -> (r: usize)
        ensures
            r as nat == self.ordinal(),
    {
        match self {
            Card::JanuaryHikari => 0,
            Card::JanuaryPoetryTanzaku => 1,
            Card::JanuaryKasu1 => 2,
            Card::JanuaryKasu2 => 3,
            Card::FebruaryTane => 4,
            Card::FebruaryPoetryTanzaku => 5,
            Card::FebruaryKasu1 => 6,
            Card::FebruaryKasu2 => 7,
            Card::MarchHikari => 8,
            Card::MarchPoetryTanzaku => 9,
            Card::MarchKasu1 => 10,
            Card::MarchKasu2 => 11,
            Card::AprilTane => 12,
            Card::AprilPlainTanzaku => 13,
            Card::AprilKasu1 => 14,
            Card::AprilKasu2 => 15,
            Card::MayTane => 16,
            Card::MayPlainTanzaku => 17,
            Card::MayKasu1 => 18,
            Card::MayKasu2 => 19,
            Card::JuneTane => 20,
            Card::JuneBlueTanzaku => 21,
            Card::JuneKasu1 => 22,
            Card::JuneKasu2 => 23,
            Card::JulyTane => 24,
            Card::JulyPlainTanzaku => 25,
            Card::JulyKasu1 => 26,
            Card::JulyKasu2 => 27,
            Card::AugustHikari => 28,
            Card::AugustTane => 29,
            Card::AugustKasu1 => 30,
            Card::AugustKasu2 => 31,
            Card::SeptemberTane => 32,
            Card::SeptemberBlueTanzaku => 33,
            Card::SeptemberKasu1 => 34,
            Card::SeptemberKasu2 => 35,
            Card::OctoberTane => 36,
            Card::OctoberBlueTanzaku => 37,
            Card::OctoberKasu1 => 38,
            Card::OctoberKasu2 => 39,
            Card::NovemberHikari => 40,
            Card::NovemberTane => 41,
            Card::NovemberPlainTanzaku => 42,
            Card::NovemberKasu => 43,
            Card::DecemberHikari => 44,
            Card::DecemberKasu1 => 45,
            Card::DecemberKasu2 => 46,
            Card::DecemberKasu3 => 47,
        }
    }

    /// The card at a position of the canonical order.
    pub fn from_index(index: usize) -> (r: Card)
        requires
            index < DECK_SIZE,
        ensures
            r.ordinal() == index as nat,
    {
        match index {
            0 => Card::JanuaryHikari,
            1 => Card::JanuaryPoetryTanzaku,
            2 => Card::JanuaryKasu1,
            3 => Card::JanuaryKasu2,
            4 => Card::FebruaryTane,
            5 => Card::FebruaryPoetryTanzaku,
            6 => Card::FebruaryKasu1,
            7 => Card::FebruaryKasu2,
            8 => Card::MarchHikari,
            9 => Card::MarchPoetryTanzaku,
            10 => Card::MarchKasu1,
            11 => Card::MarchKasu2,
            12 => Card::AprilTane,
            13 => Card::AprilPlainTanzaku,
            14 => Card::AprilKasu1,
            15 => Card::AprilKasu2,
            16 => Card::MayTane,
            17 => Card::MayPlainTanzaku,
            18 => Card::MayKasu1,
            19 => Card::MayKasu2,
            20 => Card::JuneTane,
            21 => Card::JuneBlueTanzaku,
            22 => Card::JuneKasu1,
            23 => Card::JuneKasu2,
            24 => Card::JulyTane,
            25 => Card::JulyPlainTanzaku,
            26 => Card::JulyKasu1,
            27 => Card::JulyKasu2,
            28 => Card::AugustHikari,
            29 => Card::AugustTane,
            30 => Card::AugustKasu1,
            31 => Card::AugustKasu2,
            32 => Card::SeptemberTane,
            33 => Card::SeptemberBlueTanzaku,
            34 => Card::SeptemberKasu1,
            35 => Card::SeptemberKasu2,
            36 => Card::OctoberTane,
            37 => Card::OctoberBlueTanzaku,
            38 => Card::OctoberKasu1,
            39 => Card::OctoberKasu2,
            40 => Card::NovemberHikari,
            41 => Card::NovemberTane,
            42 => Card::NovemberPlainTanzaku,
            43 => Card::NovemberKasu,
            44 => Card::DecemberHikari,
            45 => Card::DecemberKasu1,
            46 => Card::DecemberKasu2,
            _ => Card::DecemberKasu3,
        }
    }

    /// All the cards, each once, in the canonical order.
    pub fn all() -> (r: Vec<Card>)
        ensures
            is_full_deck(r@),
    {
        let mut r: Vec<Card> = Vec::with_capacity(DECK_SIZE);
        let mut i: usize = 0;
        while i < DECK_SIZE
            invariant
                i <= DECK_SIZE,
                r@.len() == i,
                forall|j: int| 0 <= j < i ==> #[trigger] r@[j].ordinal() == j,
            decreases DECK_SIZE - i,
        {
            r.push(Card::from_index(i));
            i = i + 1;
        }
        r
    }
}

/// A sequence that holds every card once, in the canonical order.
pub open spec fn is_full_deck(s: Seq<Card>) -> bool {
    &&& s.len() == DECK_SIZE
    &&& forall|i: int| 0 <= i < DECK_SIZE ==> #[trigger] s[i].ordinal() == i
}

/// The ordering of two ranks.
pub open spec fn rank_order(a: int, b: int) -> Ordering {
    if a < b {
        Ordering::Less
    } else if a == b {
        Ordering::Equal
    } else {
        Ordering::Greater
    }
}

impl Suit {
    /// Rank of the suit's category: Hikari above Tane above Tanzaku above Kasu.
    pub open spec fn rank(self) -> int {
        match self {
            Suit::Hikari(_) => 3,
            Suit::Tane(_) => 2,
            Suit::Tanzaku(_) => 1,
            Suit::Kasu => 0,
        }
    }

    /// Whether two suits are of one category, whatever their payloads.
    pub open spec fn same_category(self, other: Suit) -> bool {
        ||| self is Hikari && other is Hikari
        ||| self is Tane && other is Tane
        ||| self is Tanzaku && other is Tanzaku
        ||| self is Kasu && other is Kasu
    }

    /// Compares two suits by category; the payload is not looked at.
    pub fn compare(&self, other: &Suit) -> (r: Ordering)
        ensures
            r == rank_order(self.rank(), other.rank()),
    {
        match (self, other) {
            (Suit::Hikari(_), Suit::Hikari(_))
            | (Suit::Tane(_), Suit::Tane(_))
            | (Suit::Tanzaku(_), Suit::Tanzaku(_))
            | (Suit::Kasu, Suit::Kasu) => Ordering::Equal,
            (Suit::Hikari(_), Suit::Tane(_) | Suit::Tanzaku(_) | Suit::Kasu)
            | (Suit::Tane(_), Suit::Tanzaku(_) | Suit::Kasu)
            | (Suit::Tanzaku(_), Suit::Kasu) => Ordering::Greater,
            (Suit::Kasu, Suit::Tanzaku(_) | Suit::Tane(_) | Suit::Hikari(_))
            | (Suit::Tanzaku(_), Suit::Tane(_) | Suit::Hikari(_))
            | (Suit::Tane(_), Suit::Hikari(_)) => Ordering::Less,
        }
    }
}

impl PartialOrd for Suit {
    fn partial_cmp(&self, other: &Suit) -> (r: Option<Ordering>) {
        Some(self.compare(other))
    }
}

impl vstd::std_specs::cmp::PartialOrdSpecImpl for Suit {
    open spec fn obeys_partial_cmp_spec() -> bool {
        true
    }

    open spec fn partial_cmp_spec(&self, other: &Suit) -> Option<Ordering> {
        Some(rank_order(self.rank(), other.rank()))
    }
}

/// Suits are ordered by category alone: two suits compare equal exactly when
/// they are of one category, swapping the operands reverses the order, and
/// the order is transitive.
pub proof fn lemma_suit_order_is_total(a: Suit, b: Suit, c: Suit)
    ensures
        a.partial_cmp_spec(&b) is Some,
        a.partial_cmp_spec(&b) == Some(Ordering::Equal) <==> a.same_category(b),
        a.partial_cmp_spec(&b) == Some(Ordering::Less) <==> b.partial_cmp_spec(&a) == Some(
            Ordering::Greater,
        ),
        a.partial_cmp_spec(&b) == Some(Ordering::Less) && b.partial_cmp_spec(&c) == Some(
            Ordering::Less,
        ) ==> a.partial_cmp_spec(&c) == Some(Ordering::Less),
        a.partial_cmp_spec(&b) == Some(Ordering::Equal) && b.partial_cmp_spec(&c) == Some(
            Ordering::Equal,
        ) ==> a.partial_cmp_spec(&c) == Some(Ordering::Equal),
{
}

/// Hikari ranks above Tane, Tane above Tanzaku and Tanzaku above Kasu,
/// whichever bright, animal or ribbon each is.
pub proof fn lemma_suit_ranking(h: Hikari, t: Tane, z: Tanzaku)
    ensures
        Suit::Hikari(h).partial_cmp_spec(&Suit::Tane(t)) == Some(Ordering::Greater),
        Suit::Tane(t).partial_cmp_spec(&Suit::Tanzaku(z)) == Some(Ordering::Greater),
        Suit::Tanzaku(z).partial_cmp_spec(&Suit::Kasu) == Some(Ordering::Greater),
{
}

/// Number of cards among the first `n` of `cards` that satisfy `p`.
pub open spec fn count_prefix(cards: Seq<Card>, p: spec_fn(Card) -> bool, n: nat) -> nat
    decreases n,
{
    if n == 0 {
        0
    } else {
        count_prefix(cards, p, (n - 1) as nat) + if p(cards[n - 1]) {
            1nat
        } else {
            0nat
        }
    }
}

/// Number of cards of `cards` that satisfy `p`.
pub open spec fn count_cards(cards: Seq<Card>, p: spec_fn(Card) -> bool) -> nat {
    count_prefix(cards, p, cards.len())
}

/// The month of a card, by its position: the four cards of a month stand together.
pub open spec fn month_ordinal_of(c: Card) -> nat {
    c.ordinal() / 4
}

/// Number of cards of `cards` that belong to month `m`.
pub open spec fn count_of_month(cards: Seq<Card>, m: Month) -> nat {
    count_cards(cards, |c: Card| month_ordinal_of(c) == m.ordinal())
}

/// The suit of a card, by the table of suits.
pub open spec fn suit_of(c: Card) -> Suit {
    suit_table()[c.ordinal() as int]
}

proof fn lemma_month_count_prefix(deck: Seq<Card>, m: nat, n: nat)
    requires
        is_full_deck(deck),
        m < 12,
        n <= DECK_SIZE,
    ensures
        count_prefix(deck, |c: Card| month_ordinal_of(c) == m, n) == if n <= 4 * m {
            0
        } else if n >= 4 * m + 4 {
            4
        } else {
            n - 4 * m
        },
    decreases n,
{
    if n > 0 {
        lemma_month_count_prefix(deck, m, (n - 1) as nat);
        assert(deck[n - 1].ordinal() == n - 1);
    }
}

/// A full deck holds exactly four cards of each month, and by suit five
/// Hikari, nine Tane, ten Tanzaku and twenty-four Kasu.
pub proof fn lemma_deck_composition(deck: Seq<Card>)
    requires
        is_full_deck(deck),
    ensures
        forall|m: Month| #[trigger] count_of_month(deck, m) == 4,
        count_cards(deck, |c: Card| suit_of(c) is Hikari) == 5,
        count_cards(deck, |c: Card| suit_of(c) is Tane) == 9,
        count_cards(deck, |c: Card| suit_of(c) is Tanzaku) == 10,
        count_cards(deck, |c: Card| suit_of(c) is Kasu) == 24,
{
    assert forall|m: Month| #[trigger] count_of_month(deck, m) == 4 by {
        lemma_month_count_prefix(deck, m.ordinal(), 48);
    }
    assert forall|i: int| 0 <= i < DECK_SIZE implies #[trigger] suit_of(deck[i])
        == suit_table()[i] by {}
    reveal_with_fuel(count_prefix, 49);
}

/// Two cards at one position of the canonical order are the same card.
pub proof fn lemma_ordinal_injective(a: Card, b: Card)
    requires
        a.ordinal() == b.ordinal(),
    ensures
        a == b,
{
}

/// A full deck holds every card, each exactly once.
pub proof fn lemma_full_deck_holds_every_card(deck: Seq<Card>)
    requires
        is_full_deck(deck),
    ensures
        deck.no_duplicates(),
        forall|c: Card| #[trigger] deck.contains(c),
        forall|c: Card| deck[c.ordinal() as int] == c,
{
    assert forall|i: int, j: int|
        0 <= i < deck.len() && 0 <= j < deck.len() && i != j implies deck[i] != deck[j] by {
        assert(deck[i].ordinal() == i && deck[j].ordinal() == j);
    }
    assert forall|c: Card| deck[c.ordinal() as int] == c by {
        lemma_ordinal_injective(deck[c.ordinal() as int], c);
    }
    assert forall|c: Card| #[trigger] deck.contains(c) by {
        assert(deck[c.ordinal() as int] == c);
    }
}

} // verus!
