use hifive1::clint::WouldBlock;
use hifive1::plic::Priority;
use hifive1::rtc::{Rtc, RtcConf};

#[test]
fn default_configuration() {
    let mut rtc = Rtc::new();
    RtcConf::new().end(&mut rtc);
    assert!(rtc.is_running());
    assert_eq!(rtc.get_scale(), 0);
    assert_eq!(rtc.get_counter(), 0);
    assert_eq!(rtc.get_timeout(), 0);
}

#[test]
fn chained_configuration_is_written() {
    let mut rtc = Rtc::new();
    let mut conf = RtcConf::new();
    conf.set_scale(3)
        .set_counter(80)
        .set_cmp(10)
        .set_enalways(false)
        .set_priority(Priority::P4);
    conf.end(&mut rtc);
    assert!(!rtc.is_running());
    assert_eq!(rtc.get_scale(), 3);
    assert_eq!(rtc.get_counter(), 80);
    assert_eq!(rtc.get_timeout(), 10);
    assert_eq!(rtc.wait(), Ok(()));
}

#[test]
fn configured_counter_below_compare_waits() {
    let mut rtc = Rtc::new();
    let mut conf = RtcConf::new();
    conf.set_scale(3).set_counter(79).set_cmp(10);
    conf.end(&mut rtc);
    assert_eq!(rtc.wait(), Err(WouldBlock));
}

#[test]
fn set_timeout_uses_the_duration() {
    let mut rtc = Rtc::new();
    rtc.set_timeout(25);
    assert_eq!(rtc.get_timeout(), 25);
    assert_eq!(rtc.get_counter(), 0);
    assert!(rtc.is_running());
    assert_eq!(rtc.wait(), Err(WouldBlock));
    rtc.advance(24);
    assert_eq!(rtc.wait(), Err(WouldBlock));
    rtc.advance(1);
    assert_eq!(rtc.wait(), Ok(()));
}

#[test]
fn scaled_counter_is_compared() {
    let mut rtc = Rtc::new();
    let mut conf = RtcConf::new();
    conf.set_scale(2).set_cmp(5);
    conf.end(&mut rtc);
    rtc.advance(19);
    assert_eq!(rtc.wait(), Err(WouldBlock));
    rtc.advance(1);
    assert_eq!(rtc.get_counter(), 20);
    assert_eq!(rtc.wait(), Ok(()));
}

#[test]
fn pause_keeps_latched_match_and_restart_clears_it() {
    let mut rtc = Rtc::new();
    rtc.set_timeout(4);
    rtc.advance(4);
    rtc.pause();
    assert!(!rtc.is_running());
    assert_eq!(rtc.wait(), Ok(()));
    rtc.advance(100);
    assert_eq!(rtc.get_counter(), 4);
    rtc.resume();
    assert_eq!(rtc.wait(), Ok(()));
    rtc.restart();
    assert_eq!(rtc.get_counter(), 0);
    assert_eq!(rtc.wait(), Err(WouldBlock));
}

#[test]
fn counter_is_forty_eight_bits() {
    let mut rtc = Rtc::new();
    let mut conf = RtcConf::new();
    conf.set_counter(0xFFFF_FFFF_FFFF).set_cmp(u32::MAX);
    conf.end(&mut rtc);
    assert_eq!(rtc.get_counter(), 0xFFFF_FFFF_FFFF);
    rtc.advance(2);
    assert_eq!(rtc.get_counter(), 1);
    let mut wide = RtcConf::new();
    wide.set_counter(0x1_0000_0000_0005);
    wide.end(&mut rtc);
    assert_eq!(rtc.get_counter(), 5);
}
