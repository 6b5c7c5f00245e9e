use media_remote::config::device_config;
use media_remote::control::{
    connected, cycle_step, CycleAction, CYCLE_INTERVAL_MS, INITIAL_RETRY_COUNT, RETRY_THRESHOLD,
};

#[test]
fn backoff_increments_without_advertising() {
    for v in 0..=RETRY_THRESHOLD {
        let (action, next) = cycle_step(v, false);
        assert_eq!(action, CycleAction::Backoff);
        assert_ne!(action, CycleAction::Advertise);
        assert_eq!(next, v + 1);
    }
}

#[test]
fn past_grace_window_every_disconnected_cycle_advertises() {
    let mut counter = RETRY_THRESHOLD + 1;
    for _ in 0..10 {
        let (action, next) = cycle_step(counter, false);
        assert_eq!(action, CycleAction::Advertise);
        assert_eq!(next, counter);
        counter = next;
    }
    // the counter never decreases, even at its largest value
    let (action, next) = cycle_step(255, false);
    assert_eq!(action, CycleAction::Advertise);
    assert_eq!(next, 255);
}

#[test]
fn connected_cycle_plays_whatever_the_counter() {
    for v in [0, 1, 2, 3, 100, 255] {
        let (action, next) = cycle_step(v, true);
        assert_eq!(action, CycleAction::PlayPause);
        assert_eq!(next, v);
    }
}

#[test]
fn run_from_start_backs_off_then_retries() {
    // never connected: three quiet cycles, then advertising forever
    let mut counter = INITIAL_RETRY_COUNT;
    let mut actions = Vec::new();
    for _ in 0..6 {
        let (action, next) = cycle_step(counter, false);
        actions.push(action);
        counter = next;
    }
    assert_eq!(
        actions,
        vec![
            CycleAction::Backoff,
            CycleAction::Backoff,
            CycleAction::Backoff,
            CycleAction::Advertise,
            CycleAction::Advertise,
            CycleAction::Advertise,
        ]
    );
    assert_eq!(counter, 3);
}

#[test]
fn reconnect_does_not_reset_the_counter() {
    // drive past the window, connect once, drop again: advertising
    // resumes at once, with no new grace window
    let mut counter = INITIAL_RETRY_COUNT;
    for _ in 0..4 {
        let (_, next) = cycle_step(counter, false);
        counter = next;
    }
    let (action, next) = cycle_step(counter, true);
    assert_eq!(action, CycleAction::PlayPause);
    counter = next;
    let (action, next) = cycle_step(counter, false);
    assert_eq!(action, CycleAction::Advertise);
    assert_eq!(next, 3);
}

#[test]
fn connected_reads_peer_count() {
    assert!(!connected(0));
    assert!(connected(1));
    assert!(connected(7));
}

#[test]
fn loop_interval_is_five_seconds() {
    assert_eq!(CYCLE_INTERVAL_MS, 5000);
}

#[test]
fn device_identity_values() {
    let c = device_config();
    assert_eq!(c.name, "Rusty Scooter");
    assert_eq!(c.manufacturer, "Shaun Keys");
    assert_eq!(c.appearance, 0x03C1);
    assert_eq!(c.pnp_vendor_id_source, 0x02);
    assert_eq!(c.pnp_vendor_id, 0x05AC);
    assert_eq!(c.pnp_product_id, 0x820A);
    assert_eq!(c.pnp_product_version, 0x0210);
    assert_eq!(c.hid_country_code, 0x00);
    assert_eq!(c.hid_info_flags, 0x01);
    assert_eq!(c.battery_level, 100);
    assert!(!c.scan_response);
}
