use hifive1::gpio::{Gpio, PinConfig, PinState};
use hifive1::pwm::{channel_pin, Align, Channel, Instance, Pwm};

const CHANNELS: [Channel; 4] = [Channel::_0, Channel::_1, Channel::_2, Channel::_3];

#[test]
fn channel_pin_table() {
    let pins: Vec<u32> = CHANNELS.iter().map(|&c| channel_pin(Instance::Pwm0, c)).collect();
    assert_eq!(pins, vec![0, 1, 2, 3]);
    let pins: Vec<u32> = CHANNELS.iter().map(|&c| channel_pin(Instance::Pwm1, c)).collect();
    assert_eq!(pins, vec![20, 19, 21, 22]);
    let pins: Vec<u32> = CHANNELS.iter().map(|&c| channel_pin(Instance::Pwm2, c)).collect();
    assert_eq!(pins, vec![10, 11, 12, 13]);
}

#[test]
fn gpio_pin_configuration() {
    let mut g = Gpio::new();
    assert_eq!(g.pin(7), PinState { config: PinConfig::Input, inverted: false });
    g.init(7, PinConfig::Output);
    assert_eq!(g.pin(7).config, PinConfig::Output);
    g.init(7, PinConfig::IoFn0);
    assert_eq!(g.pin(7).config, PinConfig::IoFn0);
    g.init(7, PinConfig::IoFn1);
    assert_eq!(g.pin(7).config, PinConfig::IoFn1);
    g.set_invert(7, true);
    g.init(7, PinConfig::Input);
    assert_eq!(g.pin(7), PinState { config: PinConfig::Input, inverted: true });
    g.invert(7);
    assert!(!g.pin(7).inverted);
    assert_eq!(g.pin(6), PinState { config: PinConfig::Input, inverted: false });
    assert_eq!(g.pin(31), PinState { config: PinConfig::Input, inverted: false });
}

#[test]
fn enable_left_aligned_inverts_pin() {
    let mut g = Gpio::new();
    let mut p = Pwm::new(Instance::Pwm1);
    p.set_center(Channel::_1, true);
    p.enable(Channel::_1, Align::Left, &mut g);
    assert_eq!(g.pin(19), PinState { config: PinConfig::IoFn1, inverted: true });
    assert_eq!(g.pin(20), PinState { config: PinConfig::Input, inverted: false });
}

#[test]
fn enable_center_aligned() {
    let mut g = Gpio::new();
    g.set_invert(12, true);
    let mut p = Pwm::new(Instance::Pwm2);
    p.enable(Channel::_2, Align::Center, &mut g);
    assert_eq!(g.pin(12), PinState { config: PinConfig::IoFn1, inverted: false });
}

#[test]
fn enable_right_aligned() {
    let mut g = Gpio::new();
    g.set_invert(3, true);
    let mut p = Pwm::new(Instance::Pwm0);
    p.enable(Channel::_3, Align::Right, &mut g);
    assert_eq!(g.pin(3), PinState { config: PinConfig::IoFn1, inverted: false });
}

#[test]
fn disable_returns_pin_to_input() {
    let mut g = Gpio::new();
    let mut p = Pwm::new(Instance::Pwm1);
    p.enable(Channel::_0, Align::Left, &mut g);
    p.disable(Channel::_0, &mut g);
    assert_eq!(g.pin(20), PinState { config: PinConfig::Input, inverted: true });
}

#[test]
fn invert_and_align_left_flip_the_pin() {
    let mut g = Gpio::new();
    let mut p = Pwm::new(Instance::Pwm2);
    p.enable(Channel::_0, Align::Center, &mut g);
    p.invert(Channel::_0, &mut g);
    assert!(g.pin(10).inverted);
    p.align_left(Channel::_0, &mut g);
    assert!(!g.pin(10).inverted);
    assert_eq!(g.pin(10).config, PinConfig::IoFn1);
}

#[test]
fn period_and_scale() {
    let mut p = Pwm::new(Instance::Pwm0);
    p.init();
    assert_eq!(p.get_period(), 8 * 65535);
    p.set_period(5000);
    assert_eq!(p.get_period(), 13 * 65535);
    p.set_period(65535);
    assert_eq!(p.get_period(), 65535);
    p.set_period(100_000);
    assert_eq!(p.get_period(), 0);
}

#[test]
fn compare_values_per_channel() {
    let mut p = Pwm::new(Instance::Pwm0);
    for (i, &c) in CHANNELS.iter().enumerate() {
        p.set_cmp(c, 1000 * i as u16 + 7);
    }
    for (i, &c) in CHANNELS.iter().enumerate() {
        assert_eq!(p.get_cmp(c), 1000 * i as u16 + 7);
    }
    p.set_cmp(Channel::_2, u16::MAX);
    assert_eq!(p.get_cmp(Channel::_2), u16::MAX);
    assert_eq!(p.get_cmp(Channel::_1), 1007);
}
