use bowdraw::synchro::{IdentifierGenerator, OWNER_MASK, PLAYER_CAP};

#[test]
fn generator_hands_out_owner_then_steps_of_player_cap() {
    let mut g = IdentifierGenerator::new(3);
    let a = g.next();
    let b = g.next();
    let c = g.next();
    assert_eq!(a.bits(), 3);
    assert_eq!(b.bits(), 3 + PLAYER_CAP);
    assert_eq!(c.bits(), 3 + 2 * PLAYER_CAP);
}

#[test]
fn every_issued_identifier_carries_its_owner() {
    for owner in 0..=(OWNER_MASK as u8) {
        let mut g = IdentifierGenerator::new(owner);
        for _ in 0..40 {
            assert_eq!(g.next().owner(), owner);
        }
    }
}

#[test]
fn issued_identifiers_are_distinct() {
    let mut g = IdentifierGenerator::new(15);
    let ids: Vec<_> = (0..100).map(|_| g.next()).collect();
    for i in 0..ids.len() {
        for j in 0..ids.len() {
            if i != j {
                assert_ne!(ids[i], ids[j]);
            }
        }
    }
}

#[test]
fn generators_of_different_owners_never_collide() {
    let mut g1 = IdentifierGenerator::new(1);
    let mut g2 = IdentifierGenerator::new(2);
    let a: Vec<u64> = (0..50).map(|_| g1.next().bits()).collect();
    let b: Vec<u64> = (0..50).map(|_| g2.next().bits()).collect();
    for x in &a {
        assert!(!b.contains(x));
    }
}
