use hanafuda::cards::Card;
use hanafuda::game::{
    deal_cards, ease_to, setup_game, DealMove, Easing, Segment, Target, MOVE_ANIMATION_MS,
};
use hanafuda::geometry::{Placement, Position};
use hanafuda::player::{OpponentHand, PlayerHand};
use hanafuda::table::{Pile, Table};

fn session(n: u32) -> (Pile<u32>, Table<u32>, PlayerHand<u32>, OpponentHand<u32>) {
    let mut pile = Pile::new();
    for i in 0..n {
        pile.cards.push(i);
    }
    (pile, Table::new(), PlayerHand::new(), OpponentHand::new())
}

#[test]
fn full_deal_gives_eight_each_and_leaves_twenty_four() {
    let (mut pile, mut table, mut player, mut opponent) = session(48);
    let moves = deal_cards(&mut pile, &mut table, &mut player, &mut opponent);
    assert_eq!(player.cards.len(), 8);
    assert_eq!(opponent.cards.len(), 8);
    assert_eq!(table.occupied(), 8);
    for slot in 0..12 {
        assert_eq!(table.slot(slot).is_some(), slot < 8);
    }
    assert_eq!(pile.cards.len(), 24);
    assert_eq!(moves.len(), 24);
}

#[test]
fn deal_order_is_round_then_zone_then_card() {
    let (mut pile, mut table, mut player, mut opponent) = session(48);
    let moves = deal_cards(&mut pile, &mut table, &mut player, &mut opponent);
    assert_eq!(player.cards, vec![47, 46, 41, 40, 35, 34, 29, 28]);
    assert_eq!(opponent.cards, vec![43, 42, 37, 36, 31, 30, 25, 24]);
    assert_eq!(table.slot(0), Some(&45));
    assert_eq!(table.slot(1), Some(&44));
    assert_eq!(table.slot(7), Some(&26));
    assert_eq!(pile.cards, (0..24).collect::<Vec<u32>>());
    for (k, m) in moves.iter().enumerate() {
        assert_eq!(m.entity, 47 - k as u32);
        assert_eq!(m.pile_index, 47 - k);
        assert_eq!(m.delay_ms, k as u64 * MOVE_ANIMATION_MS);
    }
    assert_eq!(moves[0].target, Target::Player(0));
    assert_eq!(moves[1].target, Target::Player(1));
    assert_eq!(moves[2].target, Target::Table(0));
    assert_eq!(moves[5].target, Target::Opponent(1));
    assert_eq!(moves[6].target, Target::Player(2));
    assert_eq!(moves[23].target, Target::Opponent(7));
    assert!(moves.windows(2).all(|w| w[0].delay_ms < w[1].delay_ms));
}

#[test]
fn short_pile_stops_the_deal() {
    let (mut pile, mut table, mut player, mut opponent) = session(5);
    let moves = deal_cards(&mut pile, &mut table, &mut player, &mut opponent);
    assert_eq!(moves.len(), 5);
    assert_eq!(player.cards, vec![4, 3]);
    assert_eq!(table.occupied(), 2);
    assert_eq!(opponent.cards, vec![0]);
    assert!(pile.cards.is_empty());
}

#[test]
fn full_table_reports_no_slot() {
    let (mut pile, mut table, mut player, mut opponent) = session(10);
    for i in 0..12 {
        table.add_card(1000 + i);
    }
    let moves = deal_cards(&mut pile, &mut table, &mut player, &mut opponent);
    assert_eq!(moves.len(), 10);
    assert_eq!(moves[2].target, Target::NoSlot);
    assert_eq!(moves[3].target, Target::NoSlot);
    assert_eq!(table.slot(0), Some(&1000));
    assert!(moves[2].motion().is_empty());
    assert_eq!(player.cards.len(), 4);
    assert_eq!(opponent.cards.len(), 2);
}

#[test]
fn flight_lifts_moves_and_drops() {
    let from = Placement { translation: Position { x: -100800, y: 81000, z: 0 }, turned: true };
    let to = Placement { translation: Position { x: -117600, y: 27000, z: 1750 }, turned: false };
    let segments = ease_to(from, to, 1500);
    assert_eq!(
        segments,
        vec![
            Segment { target: from, easing: Easing::Discrete, duration_ms: 1500 },
            Segment {
                target: Placement {
                    translation: Position { x: -100800, y: 113000, z: 0 },
                    turned: true
                },
                easing: Easing::CubicOut,
                duration_ms: 150
            },
            Segment {
                target: Placement {
                    translation: Position { x: -117600, y: 113000, z: 1750 },
                    turned: false
                },
                easing: Easing::Linear,
                duration_ms: 500
            },
            Segment { target: to, easing: Easing::CubicIn, duration_ms: 150 },
        ]
    );
}

#[test]
fn opponent_cards_land_turned() {
    let m = DealMove { entity: 7u32, pile_index: 43, target: Target::Opponent(0), delay_ms: 2000 };
    let segments = m.motion();
    assert_eq!(segments.len(), 4);
    assert_eq!(segments[0].target, Pile::<u32>::placement_from_index(43));
    assert_eq!(segments[0].duration_ms, 2000);
    assert_eq!(
        segments[3].target,
        Placement { translation: OpponentHand::<u32>::translation_from_index(0), turned: true }
    );
    assert!(segments[2].target.turned);
    let m = DealMove { entity: 8u32, pile_index: 45, target: Target::Table(3), delay_ms: 1000 };
    let segments = m.motion();
    assert_eq!(segments[3].target.translation, Table::<u32>::translation_from_index(3));
    assert!(!segments[3].target.turned);
}

#[test]
fn setup_places_every_card_on_the_pile() {
    let mut pile: Pile<Card> = Pile::new();
    let placements = setup_game(&mut pile, Card::all());
    assert_eq!(pile.cards.len(), 48);
    let mut seen: Vec<usize> = pile.cards.iter().map(|c| c.index()).collect();
    seen.sort();
    assert_eq!(seen, (0..48).collect::<Vec<usize>>());
    assert_eq!(placements.len(), 48);
    for (i, p) in placements.iter().enumerate() {
        assert_eq!(*p, Pile::<Card>::placement_from_index(i));
    }
}

#[test]
fn setup_then_deal_uses_the_shuffled_top() {
    let mut pile: Pile<Card> = Pile::new();
    setup_game(&mut pile, Card::all());
    let top = pile.cards[47];
    let mut table = Table::new();
    let mut player = PlayerHand::new();
    let mut opponent = OpponentHand::new();
    deal_cards(&mut pile, &mut table, &mut player, &mut opponent);
    assert_eq!(player.cards[0], top);
    assert_eq!(pile.cards.len(), 24);
}
