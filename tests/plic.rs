use hifive1::plic::{Loc, Plic, Priority, NO_SOURCE};

fn ready(sources: &[(u32, Priority)]) -> Plic {
    let mut p = Plic::new();
    p.init();
    for &(s, prio) in sources {
        p.set_priority(s, prio);
        p.enable(s);
        p.raise(s);
    }
    p
}

#[test]
fn priority_from_register_value() {
    assert_eq!(Priority::from(0), Priority::P0);
    assert_eq!(Priority::from(5), Priority::P5);
    assert_eq!(Priority::from(7), Priority::P7);
}

#[test]
fn priority_into_register_value() {
    let v: u32 = Priority::P3.into();
    assert_eq!(v, 3);
    assert_eq!(u32::from(Priority::P7), 7);
    assert_eq!(Priority::P0.value(), 0);
}

#[test]
fn loc_splits_word_and_bit() {
    let loc = Loc::from(37);
    assert_eq!(loc.offset, 1);
    assert_eq!(loc.bit, 5);
    assert_eq!(loc.mask, 32);
    let low = Loc::from(31);
    assert_eq!(low.offset, 0);
    assert_eq!(low.mask, 0x8000_0000);
}

#[test]
fn loc_tests_sets_and_clears_its_bit() {
    let loc = Loc::from(4);
    assert!(loc.is_set(0b1_0000));
    assert!(loc.is_set(0xFFFF_FFFF));
    assert!(!loc.is_set(0b0_1111));
    assert_eq!(loc.set_in(0b1), 0b1_0001);
    assert_eq!(loc.clear_in(0xFF), 0xEF);
}

#[test]
fn new_controller_is_quiet() {
    let mut p = Plic::new();
    for s in 1..53 {
        assert!(!p.is_pending(s));
        assert!(!p.is_enabled(s));
        assert_eq!(p.get_priority(s), Priority::P0);
    }
    assert_eq!(p.get_threshold(), Priority::P0);
    assert!(!p.is_mext_enabled());
    assert_eq!(p.claim(), NO_SOURCE);
}

#[test]
fn enable_and_disable_touch_one_source() {
    let mut p = Plic::new();
    p.enable(40);
    assert!(p.is_enabled(40));
    assert!(!p.is_enabled(41));
    assert!(!p.is_enabled(8));
    p.enable(8);
    p.disable(40);
    assert!(!p.is_enabled(40));
    assert!(p.is_enabled(8));
}

#[test]
fn enable_does_not_change_pending() {
    let mut p = Plic::new();
    p.raise(12);
    p.disable(12);
    assert!(p.is_pending(12));
    p.enable(12);
    assert!(p.is_pending(12));
}

#[test]
fn claim_clears_pending_and_is_not_repeated() {
    let mut p = ready(&[(12, Priority::P4)]);
    assert!(p.is_pending(12));
    assert_eq!(p.claim(), 12);
    assert!(!p.is_pending(12));
    assert_eq!(p.claim(), NO_SOURCE);
    p.raise(12);
    assert_ne!(p.claim(), 12);
    p.complete(12);
    assert_eq!(p.claim(), 12);
}

#[test]
fn higher_priority_is_claimed_first() {
    let mut p = ready(&[(3, Priority::P3), (9, Priority::P7)]);
    assert_eq!(p.claim(), 9);
    assert_eq!(p.claim(), 3);
    assert_eq!(p.claim(), NO_SOURCE);
}

#[test]
fn equal_priorities_go_by_lowest_identity() {
    let mut p = ready(&[(30, Priority::P2), (6, Priority::P2), (45, Priority::P2)]);
    assert_eq!(p.claim(), 6);
    assert_eq!(p.claim(), 30);
    assert_eq!(p.claim(), 45);
}

#[test]
fn threshold_gates_claims() {
    let mut p = ready(&[(5, Priority::P3), (7, Priority::P6)]);
    p.set_threshold(Priority::P3);
    assert_eq!(p.get_threshold(), Priority::P3);
    assert_eq!(p.claim(), 7);
    assert_eq!(p.claim(), NO_SOURCE);
    assert!(p.is_pending(5));
    p.set_threshold(Priority::P2);
    assert_eq!(p.claim(), 5);
}

#[test]
fn threshold_above_every_pending_priority_gives_none() {
    let mut p = ready(&[(5, Priority::P3), (7, Priority::P6)]);
    p.set_threshold(Priority::P7);
    assert_eq!(p.claim(), NO_SOURCE);
    assert!(p.is_pending(5));
    assert!(p.is_pending(7));
}

#[test]
fn priority_zero_never_fires() {
    let mut p = ready(&[(20, Priority::P0)]);
    assert_eq!(p.claim(), NO_SOURCE);
}

#[test]
fn disabled_source_is_not_claimed() {
    let mut p = ready(&[(20, Priority::P5)]);
    p.disable(20);
    assert_eq!(p.claim(), NO_SOURCE);
    p.enable(20);
    assert_eq!(p.claim(), 20);
}

#[test]
fn init_twice_equals_init_once() {
    let mut p = ready(&[(2, Priority::P1), (50, Priority::P6)]);
    p.set_threshold(Priority::P5);
    p.init();
    let once: Vec<bool> = (1..53).map(|s| p.is_enabled(s)).collect();
    assert_eq!(p.get_threshold(), Priority::P0);
    p.init();
    let twice: Vec<bool> = (1..53).map(|s| p.is_enabled(s)).collect();
    assert_eq!(once, twice);
    assert!(twice.iter().all(|&e| !e));
    assert_eq!(p.get_threshold(), Priority::P0);
    assert!(p.is_mext_enabled());
    assert!(p.is_pending(2));
    assert_eq!(p.get_priority(50), Priority::P6);
}

#[test]
fn claim_complete_scenario() {
    let (a, b) = (3, 8);
    let mut p = Plic::new();
    p.init();
    p.set_priority(a, Priority::P5);
    p.set_priority(b, Priority::P2);
    p.enable(a);
    p.enable(b);
    p.set_threshold(Priority::P0);
    p.raise(a);
    p.raise(b);
    assert_eq!(p.claim(), a);
    p.complete(a);
    assert_eq!(p.claim(), b);
    p.complete(b);
    assert_eq!(p.claim(), NO_SOURCE);
}

#[test]
fn request_during_service_is_pending_after_complete() {
    let mut p = ready(&[(33, Priority::P4)]);
    assert_eq!(p.claim(), 33);
    p.raise(33);
    assert!(!p.is_pending(33));
    assert_eq!(p.claim(), NO_SOURCE);
    p.complete(33);
    assert!(p.is_pending(33));
    assert_eq!(p.claim(), 33);
}

#[test]
fn mext_enable_and_disable() {
    let mut p = Plic::new();
    p.enable_mext();
    assert!(p.is_mext_enabled());
    p.disable_mext();
    assert!(!p.is_mext_enabled());
}

#[test]
fn highest_source_identity_works() {
    let mut p = ready(&[(52, Priority::P1), (1, Priority::P1)]);
    assert!(p.is_enabled(52));
    assert_eq!(p.claim(), 1);
    assert_eq!(p.claim(), 52);
}
