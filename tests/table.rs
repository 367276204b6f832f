use hanafuda::cards::Card;
use hanafuda::geometry::{Placement, Position};
use hanafuda::table::{Pile, Table};

#[test]
fn table_fills_slots_in_order_then_reports_no_slot() {
    let mut table: Table<u32> = Table::new();
    for i in 0..12u32 {
        assert_eq!(table.add_card(100 + i), Some(i as usize));
    }
    assert_eq!(table.add_card(999), None);
    assert_eq!(table.occupied(), 12);
    for i in 0..12usize {
        assert_eq!(table.slot(i), Some(&(100 + i as u32)));
    }
}

#[test]
fn new_table_is_empty() {
    let table: Table<u32> = Table::default();
    assert_eq!(table.occupied(), 0);
    assert_eq!(table.slot(0), None);
    assert_eq!(table.slot(11), None);
}

#[test]
fn table_layout_is_two_per_column() {
    assert_eq!(Table::<u32>::translation_from_index(0), Position { x: -67200, y: 27000, z: -525 });
    assert_eq!(Table::<u32>::translation_from_index(1), Position { x: -67200, y: 27000, z: 525 });
    assert_eq!(Table::<u32>::translation_from_index(2), Position { x: -33600, y: 27000, z: -525 });
    assert_eq!(Table::<u32>::translation_from_index(11), Position { x: 100800, y: 27000, z: 525 });
    assert_eq!(
        Table::<u32>::translation_from_index(7),
        Table::<u32>::translation_from_index(7)
    );
}

#[test]
fn pile_pops_from_the_top() {
    let mut pile: Pile<u32> = Pile::default();
    assert_eq!(pile.pop(), None);
    pile.cards.push(1);
    pile.cards.push(2);
    assert_eq!(pile.len(), 2);
    assert_eq!(pile.pop(), Some(2));
    assert_eq!(pile.pop(), Some(1));
    assert_eq!(pile.pop(), None);
}

#[test]
fn shuffled_pile_holds_every_card_once() {
    let pile = Pile::shuffled(Card::all());
    assert_eq!(pile.cards.len(), 48);
    let mut seen: Vec<usize> = pile.cards.iter().map(|c| c.index()).collect();
    seen.sort();
    assert_eq!(seen, (0..48).collect::<Vec<usize>>());
}

#[test]
fn shuffling_changes_the_order() {
    let canonical = Card::all();
    let differs = (0..5).any(|_| Pile::shuffled(Card::all()).cards != canonical);
    assert!(differs);
    let first = Pile::shuffled(Card::all()).cards;
    let again = (0..5).any(|_| Pile::shuffled(Card::all()).cards != first);
    assert!(again);
}

#[test]
fn pile_layout_stacks_turned_cards() {
    assert_eq!(
        Pile::<u32>::placement_from_index(0),
        Placement { translation: Position { x: -100800, y: 27000, z: 0 }, turned: true }
    );
    assert_eq!(Pile::<u32>::placement_from_index(3).translation.y, 27000 + 3 * 54000);
}
