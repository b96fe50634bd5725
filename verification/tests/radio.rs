use lorawan_radio::radio::{rx_from_events, rx_poll_step, IrqState, PacketStatus, SimTimer, Timer};
use lorawan_radio::Error;

#[test]
fn done_state_decodes() {
    let state = IrqState::Done(7, PacketStatus { rssi: -40, snr: 3 });
    let (length, quality) = rx_poll_step(state).expect("a Done state ends the loop");
    assert_eq!(length, 7);
    assert_eq!(quality.rssi(), -40);
    assert_eq!(quality.snr(), 3);
}

#[test]
fn intermediate_state_continues() {
    assert!(rx_poll_step(IrqState::PreambleReceived).is_none());
}

#[test]
fn snr_narrowing_truncates() {
    // 200 does not fit an i8; the documented narrowing truncates it into
    // the 8-bit signed range.
    let state = IrqState::Done(1, PacketStatus { rssi: 0, snr: 200 });
    let (_, quality) = rx_poll_step(state).unwrap();
    assert_eq!(quality.snr(), -56);
    assert_eq!(quality.rssi(), 0);
}

#[test]
fn receive_stops_at_first_done() {
    let events = vec![
        IrqState::PreambleReceived,
        IrqState::PreambleReceived,
        IrqState::Done(5, PacketStatus { rssi: -90, snr: -2 }),
        IrqState::Done(9, PacketStatus { rssi: -10, snr: 9 }),
    ];
    let (length, quality) = rx_from_events(&events).expect("a Done report arrived");
    assert_eq!(length, 5);
    assert_eq!(quality.rssi(), -90);
    assert_eq!(quality.snr(), -2);
}

#[test]
fn receive_pending_without_done() {
    let events = vec![IrqState::PreambleReceived; 3];
    assert!(rx_from_events(&events).is_none());
    assert!(rx_from_events(&Vec::new()).is_none());
}

#[test]
fn driver_failure_wraps_once() {
    let cause = lorawan_radio::radio::Error(42u8);
    let unified: Error<u8> = Error::from(cause);
    assert!(matches!(unified, Error::Radio(42)));
}

#[test]
fn waits_share_one_baseline() {
    let mut t = SimTimer::new();
    t.delay_ms(50);
    assert_eq!(t.now_ms(), 50);
    t.reset();
    t.at(100);
    assert_eq!(t.now_ms(), 150);
    // The second wait measures from the same baseline, not from the
    // first wait's completion: it adds nothing.
    t.at(100);
    assert_eq!(t.now_ms(), 150);
    t.at(120);
    assert_eq!(t.now_ms(), 170);
}

#[test]
fn wait_never_resolves_early() {
    let mut t = SimTimer::new();
    t.reset();
    t.at(5);
    assert!(t.now_ms() >= 5);
}

#[test]
fn delays_accumulate() {
    let mut t = SimTimer::new();
    t.delay_ms(10);
    t.delay_ms(20);
    assert_eq!(t.now_ms(), 30);
}
