use adc_monitor::fanout::{Broadcast, Delivery};
use adc_monitor::sampling::make_sample;
use adc_monitor::web::{
    get_threshold, set_threshold, AdcValue, AppState, ThresholdRequest, ThresholdResponse,
    BACKLOG_CAPACITY, DEFAULT_THRESHOLD,
};

fn sample(raw: i16) -> AdcValue {
    make_sample(raw, 10000, 1_700_000_000)
}

#[test]
fn state_starts_with_the_default_threshold() {
    let state = AppState::new();
    assert_eq!(DEFAULT_THRESHOLD, 10000);
    assert_eq!(state.current_threshold(), 10000);
    assert_eq!(state.tx.total(), 0);
    assert_eq!(state.tx.capacity(), BACKLOG_CAPACITY);
    assert_eq!(BACKLOG_CAPACITY, 100);
}

#[test]
fn threshold_round_trip() {
    let mut state = AppState::new();
    state.set_threshold(500);
    assert_eq!(state.current_threshold(), 500);
    for value in [0, -1, -500, i32::MIN, i32::MAX, 32768, 1_000_000] {
        state.set_threshold(value);
        assert_eq!(state.current_threshold(), value);
    }
}

#[test]
fn threshold_handlers_report_the_value_in_force() {
    let mut state = AppState::new();
    assert_eq!(get_threshold(&state), ThresholdResponse { threshold: 10000 });
    let response = set_threshold(&mut state, ThresholdRequest { value: -42 });
    assert_eq!(response, ThresholdResponse { threshold: -42 });
    assert_eq!(get_threshold(&state).threshold, -42);
    assert_eq!(state.threshold, -42);
}

#[test]
fn setting_the_threshold_leaves_the_channel_alone() {
    let mut state = AppState::new();
    let mut subscription = state.subscribe();
    state.tx.publish(sample(7));
    state.set_threshold(1);
    assert_eq!(state.tx.total(), 1);
    assert_eq!(state.tx.receive(&mut subscription), Delivery::Sample(sample(7)));
}

#[test]
fn two_subscribers_receive_the_same_sample() {
    let mut channel = Broadcast::new(4);
    let mut first = channel.subscribe();
    let mut second = channel.subscribe();
    channel.publish(sample(11));
    assert_eq!(channel.receive(&mut first), Delivery::Sample(sample(11)));
    assert_eq!(channel.receive(&mut second), Delivery::Sample(sample(11)));
    assert_eq!(channel.receive(&mut first), Delivery::Empty);
    assert_eq!(channel.receive(&mut second), Delivery::Empty);
}

#[test]
fn late_subscriber_misses_earlier_samples() {
    let mut channel = Broadcast::new(4);
    channel.publish(sample(1));
    let mut late = channel.subscribe();
    assert_eq!(late.position(), 1);
    assert_eq!(channel.receive(&mut late), Delivery::Empty);
    channel.publish(sample(2));
    assert_eq!(channel.receive(&mut late), Delivery::Sample(sample(2)));
    assert_eq!(channel.receive(&mut late), Delivery::Empty);
}

#[test]
fn publishing_without_subscribers_is_fine() {
    let mut channel = Broadcast::new(2);
    for raw in 0..10 {
        channel.publish(sample(raw));
    }
    assert_eq!(channel.total(), 10);
    assert_eq!(channel.backlog_len(), 2);
}

#[test]
fn slow_subscriber_sees_a_gap_and_goes_on() {
    let mut channel = Broadcast::new(3);
    let mut slow = channel.subscribe();
    let mut quick = channel.subscribe();
    for raw in 0..8 {
        channel.publish(sample(raw));
        assert_eq!(channel.receive(&mut quick), Delivery::Sample(sample(raw)));
    }
    assert_eq!(channel.total(), 8);
    assert_eq!(channel.backlog_len(), 3);
    assert_eq!(channel.receive(&mut slow), Delivery::Lagged(5));
    assert_eq!(slow.position(), 5);
    assert_eq!(channel.receive(&mut slow), Delivery::Sample(sample(5)));
    assert_eq!(channel.receive(&mut slow), Delivery::Sample(sample(6)));
    assert_eq!(channel.receive(&mut slow), Delivery::Sample(sample(7)));
    assert_eq!(channel.receive(&mut slow), Delivery::Empty);
}

#[test]
fn subscriber_exactly_a_backlog_behind_loses_nothing() {
    let mut channel = Broadcast::new(3);
    let mut subscription = channel.subscribe();
    for raw in 0..3 {
        channel.publish(sample(raw));
    }
    for raw in 0..3 {
        assert_eq!(channel.receive(&mut subscription), Delivery::Sample(sample(raw)));
    }
    assert_eq!(channel.receive(&mut subscription), Delivery::Empty);
}

#[test]
fn samples_arrive_in_publication_order() {
    let mut channel = Broadcast::new(100);
    let mut subscription = channel.subscribe();
    for raw in 0..50 {
        channel.publish(sample(raw));
    }
    for raw in 0..50 {
        assert_eq!(channel.receive(&mut subscription), Delivery::Sample(sample(raw)));
    }
}

#[test]
fn foreign_cursor_ahead_of_the_channel_receives_nothing() {
    let mut busy = Broadcast::new(2);
    busy.publish(sample(1));
    busy.publish(sample(2));
    let mut ahead = busy.subscribe();
    let idle = Broadcast::new(2);
    assert_eq!(idle.receive(&mut ahead), Delivery::Empty);
    assert_eq!(ahead.position(), 2);
}
