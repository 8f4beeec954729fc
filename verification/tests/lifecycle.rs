use hal_core::bits::{get_bit, set_bit};
use hal_core::device::{Device, GPIO_CLOCK_BIT, TIMER1_CLOCK_BIT, TIMER1_START_BIT};

#[test]
fn fresh_set_has_all_clock_gates_closed() {
    let mut device = Device::at_reset();
    let set = device.take_peripherals().unwrap();
    assert!(!set.clock.gate_open(TIMER1_CLOCK_BIT));
    assert!(!set.clock.gate_open(GPIO_CLOCK_BIT));
    assert_eq!(set.clock.read_gating(), 0);
}

#[test]
fn enable_opens_exactly_the_peripherals_gate() {
    let mut device = Device::at_reset();
    let set = device.take_peripherals().unwrap();
    let mut clock = set.clock;
    let _timer = set.timer1.enable(&mut clock);
    assert!(clock.gate_open(TIMER1_CLOCK_BIT));
    assert!(!clock.gate_open(GPIO_CLOCK_BIT));
    assert_eq!(clock.read_gating(), 1u32 << TIMER1_CLOCK_BIT);
}

#[test]
fn enable_then_disable_restores_the_gating_word() {
    let mut device = Device::at_reset();
    let set = device.take_peripherals().unwrap();
    let mut clock = set.clock;
    let _gpio = set.gpio.enable(&mut clock);
    let before = clock.read_gating();
    let timer = set.timer1.enable(&mut clock);
    assert_ne!(clock.read_gating(), before);
    let _timer = timer.disable(&mut clock);
    assert_eq!(clock.read_gating(), before);
    assert!(clock.gate_open(GPIO_CLOCK_BIT));
}

#[test]
fn peripheral_set_is_taken_at_most_once() {
    let mut device = Device::at_reset();
    let first = device.take_peripherals();
    assert!(first.is_some());
    let second = device.take_peripherals();
    assert!(second.is_none());
}

#[test]
fn timer_start_scenario() {
    let mut device = Device::at_reset();
    let set = device.take_peripherals().unwrap();
    let mut clock = set.clock;
    let mut bus = set.bus;
    let timer = set.timer1.enable(&mut clock);
    let ctrl = timer.ctrl();
    let status_before = ctrl.read(&bus);
    assert!(!get_bit(status_before, TIMER1_START_BIT));
    ctrl.write(&mut bus, set_bit(status_before, TIMER1_START_BIT));
    let status_after = ctrl.read(&bus);
    assert!(get_bit(status_after, TIMER1_START_BIT));
}

#[test]
fn shared_safe_proxy_duplicates_to_the_same_address() {
    let mut device = Device::at_reset();
    let set = device.take_peripherals().unwrap();
    let mut clock = set.clock;
    let mut bus = set.bus;
    let gpio = set.gpio.enable(&mut clock);
    let out_set = gpio.out_set();
    let aliased = out_set.duplicate();
    assert_eq!(aliased.address(), out_set.address());
    out_set.write(&mut bus, 0b10);
    assert_eq!(aliased.read(&bus), 0b10);
}

#[test]
fn released_proxy_keeps_the_control_register_address() {
    let mut device = Device::at_reset();
    let set = device.take_peripherals().unwrap();
    let mut clock = set.clock;
    let timer = set.timer1.enable(&mut clock);
    let from_handle = timer.ctrl().address();
    let released = timer.release();
    assert_eq!(released.address(), from_handle);
}
