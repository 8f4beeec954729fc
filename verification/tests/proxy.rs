use hal_core::device::{Device, Timer1Ctrl, TIMER1_CTRL_ADDR};
use hal_core::reg_proxy::RegProxy;

/// A long-lived driver struct that a setup routine hands a proxy into.
struct TimerDriver {
    ctrl: RegProxy<Timer1Ctrl>,
}

#[test]
fn two_proxies_resolve_to_same_address() {
    let a: RegProxy<Timer1Ctrl> = RegProxy::new();
    let b: RegProxy<Timer1Ctrl> = RegProxy::new();
    assert_eq!(a.address(), b.address());
    assert_eq!(a.address(), TIMER1_CTRL_ADDR);
}

#[test]
fn moving_a_proxy_preserves_its_address() {
    let proxy: RegProxy<Timer1Ctrl> = RegProxy::new();
    let before = proxy.address();
    let driver = TimerDriver { ctrl: proxy };
    assert_eq!(driver.ctrl.address(), before);
}

fn movable_into_another_execution_context<T: Send>(_: &T) {}

#[test]
fn proxy_can_be_sent_across_execution_contexts() {
    let proxy: RegProxy<Timer1Ctrl> = RegProxy::new();
    movable_into_another_execution_context(&proxy);
}

#[test]
fn proxy_reads_what_another_proxy_wrote() {
    let mut device = Device::at_reset();
    let set = device.take_peripherals().unwrap();
    let mut bus = set.bus;
    let writer: RegProxy<Timer1Ctrl> = RegProxy::new();
    let reader: RegProxy<Timer1Ctrl> = RegProxy::new();
    writer.write(&mut bus, 0xC0DE_u32);
    assert_eq!(reader.read(&bus), 0xC0DE_u32);
}
