use hifive1::clint::{
    coreclk_hz, hi_word, join_words, lo_word, min_ticks_elapsed, read_coherent, Clint, WouldBlock,
};

#[test]
fn words_of_a_value() {
    assert_eq!(hi_word(0x1234_5678_9ABC_DEF0), 0x1234_5678);
    assert_eq!(lo_word(0x1234_5678_9ABC_DEF0), 0x9ABC_DEF0);
    assert_eq!(join_words(0x1234_5678, 0x9ABC_DEF0), 0x1234_5678_9ABC_DEF0);
    assert_eq!(join_words(hi_word(u64::MAX), lo_word(u64::MAX)), u64::MAX);
}

#[test]
fn coherent_read_needs_matching_high_words() {
    assert_eq!(read_coherent(1, 5, 1), Some(0x1_0000_0005));
    assert_eq!(read_coherent(1, 0xFFFF_FFFF, 2), None);
    assert_eq!(read_coherent(0, 0, 0), Some(0));
}

#[test]
fn mtime_write_then_read_round_trips() {
    let mut c = Clint::new();
    for v in [0u64, 1, 0xFFFF_FFFF, 0x1_0000_0000, 0x1234_5678_9ABC_DEF0, u64::MAX] {
        c.set_mtime(v);
        assert_eq!(c.get_mtime(), v);
    }
}

#[test]
fn compare_and_counters_round_trip() {
    let mut c = Clint::new();
    c.set_mtimecmp(0xDEAD_BEEF_0000_0001);
    assert_eq!(c.get_mtimecmp(), 0xDEAD_BEEF_0000_0001);
    c.set_mcycle(0x0000_0002_FFFF_FFFF);
    assert_eq!(c.get_mcycle(), 0x0000_0002_FFFF_FFFF);
    c.set_minstret(42);
    assert_eq!(c.get_minstret(), 42);
    assert_eq!(c.get_mtimecmp(), 0xDEAD_BEEF_0000_0001);
}

#[test]
fn compare_match_makes_timer_pending() {
    let mut c = Clint::new();
    c.set_mtimecmp(1000);
    c.set_mtime(999);
    c.enable_mtimer();
    assert!(!c.is_mtimer_pending());
    c.set_mtime(1000);
    assert!(c.is_mtimer_pending());
    c.set_mtime(0x1_0000_0000);
    assert!(c.is_mtimer_pending());
}

#[test]
fn timer_reaches_compare_by_advancing() {
    let mut c = Clint::new();
    c.set_timeout(0x1_0000_0010);
    assert_eq!(c.wait(), Err(WouldBlock));
    c.advance(0xFFFF_FFFF);
    assert_eq!(c.wait(), Err(WouldBlock));
    c.advance(0x11);
    assert_eq!(c.get_mtime(), 0x1_0000_0010);
    assert_eq!(c.wait(), Ok(()));
}

#[test]
fn advance_wraps_the_counter() {
    let mut c = Clint::new();
    c.set_mtime(u64::MAX - 1);
    c.advance(3);
    assert_eq!(c.get_mtime(), 1);
}

#[test]
fn set_timeout_resets_and_enables() {
    let mut c = Clint::new();
    c.set_mtime(500);
    c.set_timeout(64);
    assert_eq!(c.get_mtime(), 0);
    assert_eq!(c.get_timeout(), 64);
    assert!(c.is_mtimer_enabled());
    assert!(!c.is_mtimer_pending());
}

#[test]
fn pause_keeps_a_match_and_restart_clears_it() {
    let mut c = Clint::new();
    c.set_timeout(10);
    c.advance(10);
    c.pause();
    assert!(!c.is_mtimer_enabled());
    assert!(c.is_mtimer_pending());
    c.restart();
    assert!(c.is_mtimer_enabled());
    assert!(!c.is_mtimer_pending());
    assert_eq!(c.get_mtime(), 0);
}

#[test]
fn disable_mtimer_keeps_counter() {
    let mut c = Clint::new();
    c.set_mtime(77);
    c.enable_mtimer();
    c.disable_mtimer();
    assert!(!c.is_mtimer_enabled());
    assert_eq!(c.get_mtime(), 77);
}

#[test]
fn coreclk_from_counts() {
    assert_eq!(coreclk_hz(48828, 100), 15_999_959);
    assert_eq!(coreclk_hz(1000, 2), 16_384_000);
    assert_eq!(coreclk_hz(0, 7), 0);
    assert_eq!(coreclk_hz(10, 3), 109_226);
}

#[test]
fn coreclk_with_long_interval_does_not_overflow() {
    assert_eq!(coreclk_hz(2_000_000_000, 200_000), 327_680_000);
}

#[test]
fn elapsed_ticks() {
    assert!(min_ticks_elapsed(100, 110, 10));
    assert!(!min_ticks_elapsed(100, 109, 10));
    assert!(!min_ticks_elapsed(u64::MAX, u64::MAX, 1));
    assert!(min_ticks_elapsed(5, 5, 0));
    assert!(!min_ticks_elapsed(10, 5, 0));
}
