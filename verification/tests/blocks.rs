use bomberman::block::{Block, EXPLODABLE_FROM, PORTAL_FROM, SOLID_FROM};

fn expected_kind(v: u8) -> Block {
    if v < 200 {
        Block::Background
    } else if v < 220 {
        Block::Explodable
    } else if v < 240 {
        Block::Solid
    } else {
        Block::Portal
    }
}

#[test]
fn every_byte_draws_exactly_one_kind() {
    let kinds = [Block::Background, Block::Explodable, Block::Solid, Block::Portal];
    let mut seen = [0usize; 4];
    for v in 0u8..=255 {
        let kind = Block::classify(v);
        assert_eq!(kind, expected_kind(v), "byte {}", v);
        let matching: Vec<usize> = (0..4).filter(|k| kinds[*k] == kind).collect();
        assert_eq!(matching.len(), 1, "byte {}", v);
        seen[matching[0]] += 1;
    }
    assert_eq!(seen, [200, 20, 20, 16]);
    assert_eq!(seen.iter().sum::<usize>(), 256);
}

#[test]
fn range_edges_are_half_open() {
    assert_eq!(Block::classify(0), Block::Background);
    assert_eq!(Block::classify(199), Block::Background);
    assert_eq!(Block::classify(200), Block::Explodable);
    assert_eq!(Block::classify(219), Block::Explodable);
    assert_eq!(Block::classify(220), Block::Solid);
    assert_eq!(Block::classify(239), Block::Solid);
    assert_eq!(Block::classify(240), Block::Portal);
    assert_eq!(Block::classify(255), Block::Portal);
}

#[test]
fn range_bounds_have_their_values() {
    assert_eq!(EXPLODABLE_FROM, 200);
    assert_eq!(SOLID_FROM, 220);
    assert_eq!(PORTAL_FROM, 240);
}

#[test]
fn only_background_lets_the_player_through() {
    assert!(!Block::Background.is_blocking());
    assert!(Block::Explodable.is_blocking());
    assert!(Block::Solid.is_blocking());
    assert!(Block::Portal.is_blocking());
}
