use hanafuda::cards::{Card, Hikari, Month, Suit, Tane, Tanzaku, DECK_SIZE};
use std::cmp::Ordering;

fn reference_table() -> Vec<(Card, Month, Suit)> {
    vec![
        (Card::JanuaryHikari, Month::January, Suit::Hikari(Hikari::Crane)),
        (Card::JanuaryPoetryTanzaku, Month::January, Suit::Tanzaku(Tanzaku::Poetry)),
        (Card::JanuaryKasu1, Month::January, Suit::Kasu),
        (Card::JanuaryKasu2, Month::January, Suit::Kasu),
        (Card::FebruaryTane, Month::February, Suit::Tane(Tane::BushWarbler)),
        (Card::FebruaryPoetryTanzaku, Month::February, Suit::Tanzaku(Tanzaku::Poetry)),
        (Card::FebruaryKasu1, Month::February, Suit::Kasu),
        (Card::FebruaryKasu2, Month::February, Suit::Kasu),
        (Card::MarchHikari, Month::March, Suit::Hikari(Hikari::Curtain)),
        (Card::MarchPoetryTanzaku, Month::March, Suit::Tanzaku(Tanzaku::Poetry)),
        (Card::MarchKasu1, Month::March, Suit::Kasu),
        (Card::MarchKasu2, Month::March, Suit::Kasu),
        (Card::AprilTane, Month::April, Suit::Tane(Tane::Cuckoo)),
        (Card::AprilPlainTanzaku, Month::April, Suit::Tanzaku(Tanzaku::Plain)),
        (Card::AprilKasu1, Month::April, Suit::Kasu),
        (Card::AprilKasu2, Month::April, Suit::Kasu),
        (Card::MayTane, Month::May, Suit::Tane(Tane::Bridge)),
        (Card::MayPlainTanzaku, Month::May, Suit::Tanzaku(Tanzaku::Plain)),
        (Card::MayKasu1, Month::May, Suit::Kasu),
        (Card::MayKasu2, Month::May, Suit::Kasu),
        (Card::JuneTane, Month::June, Suit::Tane(Tane::Butterfly)),
        (Card::JuneBlueTanzaku, Month::June, Suit::Tanzaku(Tanzaku::Blue)),
        (Card::JuneKasu1, Month::June, Suit::Kasu),
        (Card::JuneKasu2, Month::June, Suit::Kasu),
        (Card::JulyTane, Month::July, Suit::Tane(Tane::Boar)),
        (Card::JulyPlainTanzaku, Month::July, Suit::Tanzaku(Tanzaku::Plain)),
        (Card::JulyKasu1, Month::July, Suit::Kasu),
        (Card::JulyKasu2, Month::July, Suit::Kasu),
        (Card::AugustHikari, Month::August, Suit::Hikari(Hikari::Moon)),
        (Card::AugustTane, Month::August, Suit::Tane(Tane::Goose)),
        (Card::AugustKasu1, Month::August, Suit::Kasu),
        (Card::AugustKasu2, Month::August, Suit::Kasu),
        (Card::SeptemberTane, Month::September, Suit::Tane(Tane::Sake)),
        (Card::SeptemberBlueTanzaku, Month::September, Suit::Tanzaku(Tanzaku::Blue)),
        (Card::SeptemberKasu1, Month::September, Suit::Kasu),
        (Card::SeptemberKasu2, Month::September, Suit::Kasu),
        (Card::OctoberTane, Month::October, Suit::Tane(Tane::Deer)),
        (Card::OctoberBlueTanzaku, Month::October, Suit::Tanzaku(Tanzaku::Blue)),
        (Card::OctoberKasu1, Month::October, Suit::Kasu),
        (Card::OctoberKasu2, Month::October, Suit::Kasu),
        (Card::NovemberHikari, Month::November, Suit::Hikari(Hikari::Michikaze)),
        (Card::NovemberTane, Month::November, Suit::Tane(Tane::Swallow)),
        (Card::NovemberPlainTanzaku, Month::November, Suit::Tanzaku(Tanzaku::Plain)),
        (Card::NovemberKasu, Month::November, Suit::Kasu),
        (Card::DecemberHikari, Month::December, Suit::Hikari(Hikari::Phoenix)),
        (Card::DecemberKasu1, Month::December, Suit::Kasu),
        (Card::DecemberKasu2, Month::December, Suit::Kasu),
        (Card::DecemberKasu3, Month::December, Suit::Kasu),
    ]
}

#[test]
fn every_card_has_its_month_and_suit() {
    let table = reference_table();
    assert_eq!(table.len(), 48);
    for (card, month, suit) in table {
        assert_eq!(card.to_month(), month, "month of {:?}", card);
        assert_eq!(card.to_suit(), suit, "suit of {:?}", card);
    }
}

#[test]
fn canonical_order_matches_the_table() {
    let all = Card::all();
    assert_eq!(all.len(), DECK_SIZE);
    for (i, (card, _, _)) in reference_table().into_iter().enumerate() {
        assert_eq!(all[i], card);
        assert_eq!(card.index(), i);
        assert_eq!(Card::from_index(i), card);
    }
}

#[test]
fn each_month_has_four_cards() {
    let all = Card::all();
    let months = [
        Month::January,
        Month::February,
        Month::March,
        Month::April,
        Month::May,
        Month::June,
        Month::July,
        Month::August,
        Month::September,
        Month::October,
        Month::November,
        Month::December,
    ];
    for month in months {
        assert_eq!(all.iter().filter(|c| c.to_month() == month).count(), 4);
    }
}

#[test]
fn suit_categories_are_counted_as_in_the_table() {
    let all = Card::all();
    let hikari = all.iter().filter(|c| matches!(c.to_suit(), Suit::Hikari(_))).count();
    let tane = all.iter().filter(|c| matches!(c.to_suit(), Suit::Tane(_))).count();
    let tanzaku = all.iter().filter(|c| matches!(c.to_suit(), Suit::Tanzaku(_))).count();
    let kasu = all.iter().filter(|c| c.to_suit() == Suit::Kasu).count();
    assert_eq!((hikari, tane, tanzaku, kasu), (5, 9, 10, 24));
    assert_eq!(hikari + tane + tanzaku + kasu, 48);
}

#[test]
fn suits_compare_by_category_for_all_pairs() {
    let suits = [
        Suit::Hikari(Hikari::Moon),
        Suit::Tane(Tane::Deer),
        Suit::Tanzaku(Tanzaku::Blue),
        Suit::Kasu,
    ];
    for (i, a) in suits.iter().enumerate() {
        for (j, b) in suits.iter().enumerate() {
            let expected = j.cmp(&i);
            assert_eq!(a.compare(b), expected, "{:?} against {:?}", a, b);
            assert_eq!(a.partial_cmp(b), Some(expected));
        }
    }
}

#[test]
fn suits_of_one_category_compare_equal() {
    assert_eq!(
        Suit::Hikari(Hikari::Crane).partial_cmp(&Suit::Hikari(Hikari::Phoenix)),
        Some(Ordering::Equal)
    );
    assert_eq!(Suit::Tane(Tane::Boar).compare(&Suit::Tane(Tane::Sake)), Ordering::Equal);
    assert_eq!(
        Suit::Tanzaku(Tanzaku::Poetry).compare(&Suit::Tanzaku(Tanzaku::Plain)),
        Ordering::Equal
    );
    assert!(Suit::Hikari(Hikari::Crane) > Suit::Tane(Tane::Cuckoo));
    assert!(Suit::Tanzaku(Tanzaku::Blue) > Suit::Kasu);
    assert!(Suit::Kasu < Suit::Tane(Tane::Bridge));
}

#[test]
fn months_follow_the_calendar() {
    assert!(Month::January < Month::February);
    assert!(Month::November < Month::December);
    assert_eq!(Card::DecemberKasu3.to_month(), Month::December);
    assert_eq!(Card::JanuaryHikari.to_month(), Month::January);
}
