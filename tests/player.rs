use hanafuda::geometry::Position;
use hanafuda::player::{OpponentHand, PlayerHand};

#[test]
fn hand_layouts_are_pure() {
    for k in 0..8 {
        assert_eq!(
            PlayerHand::<u32>::translation_from_index(k),
            PlayerHand::<u32>::translation_from_index(k)
        );
        assert_eq!(
            OpponentHand::<u32>::translation_from_index(k),
            OpponentHand::<u32>::translation_from_index(k)
        );
    }
}

#[test]
fn hand_layout_values() {
    assert_eq!(
        PlayerHand::<u32>::translation_from_index(0),
        Position { x: -117600, y: 27000, z: 1750 }
    );
    assert_eq!(
        PlayerHand::<u32>::translation_from_index(7),
        Position { x: 117600, y: 27000, z: 1750 }
    );
    assert_eq!(
        OpponentHand::<u32>::translation_from_index(0),
        Position { x: 117600, y: 27000, z: -1750 }
    );
    assert_eq!(
        OpponentHand::<u32>::translation_from_index(7),
        Position { x: -117600, y: 27000, z: -1750 }
    );
}

#[test]
fn hand_layouts_mirror_each_other() {
    for k in 0..8 {
        let p = PlayerHand::<u32>::translation_from_index(k);
        let o = OpponentHand::<u32>::translation_from_index(k);
        assert_eq!(p.y, o.y);
        assert_eq!(p.z, -o.z);
        assert_eq!(o.x, -p.x);
        assert_eq!(o.x, PlayerHand::<u32>::translation_from_index(7 - k).x);
    }
}

#[test]
fn full_hand_is_centred() {
    let first = PlayerHand::<u32>::translation_from_index(0);
    let last = PlayerHand::<u32>::translation_from_index(7);
    assert_eq!(first.x, -last.x);
    assert_eq!(last.x - first.x, 7 * 33600);
}

#[test]
fn new_hands_are_empty() {
    assert!(PlayerHand::<u32>::default().cards.is_empty());
    assert!(OpponentHand::<u32>::new().cards.is_empty());
}
