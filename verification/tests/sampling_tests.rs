use adc_monitor::alert::{
    alert_request, authorization_header, basic_header, credentials, AlertRequest,
};
use adc_monitor::bus::{begin, finish_read, step, Action, Outcome, Phase, Step};
use adc_monitor::codec::ConfigFields;
use adc_monitor::fanout::Delivery;
use adc_monitor::fields::DataRate;
use adc_monitor::sampling::{alert_message, make_sample, plan_cycle, BusError, CYCLE_MILLIS};
use adc_monitor::synthetic::{reduce, synthetic_sample, SYNTHETIC_BOUND};
use adc_monitor::text::{render, render_nat};
use adc_monitor::web::{AdcValue, AppState, StreamStep};

#[test]
fn decimal_text_of_integers() {
    assert_eq!(render(0), "0");
    assert_eq!(render(7), "7");
    assert_eq!(render(10), "10");
    assert_eq!(render(10000), "10000");
    assert_eq!(render(-1), "-1");
    assert_eq!(render(-32768), "-32768");
    assert_eq!(render(i64::MAX), "9223372036854775807");
    assert_eq!(render(i64::MIN), "-9223372036854775808");
    assert_eq!(render_nat(u64::MAX), "18446744073709551615");
    assert_eq!(render_nat(1234567890), "1234567890");
}

#[test]
fn alert_message_names_threshold_and_value() {
    assert_eq!(alert_message(10000, 15000), "Wert höher als 10000: 15000");
    assert_eq!(alert_message(-5, -3), "Wert höher als -5: -3");
}

#[test]
fn sample_holds_voltage_time_and_threshold() {
    let sample = make_sample(10000, 9000, 1_700_000_000);
    assert_eq!(
        sample,
        AdcValue {
            raw_value: 10000,
            picovolts: 1_250_000_000_000,
            timestamp: 1_700_000_000,
            threshold: 9000
        }
    );
    let volts = (sample.picovolts as f64 / 1.0e12) as f32;
    assert!((volts - 1.25).abs() < 1.0e-6);
    let negative = make_sample(-10000, 9000, 0);
    assert_eq!(negative.picovolts, -1_250_000_000_000);
    assert!(((negative.picovolts as f64 / 1.0e12) as f32 + 1.25).abs() < 1.0e-6);
}

#[test]
fn plan_for_a_failed_read() {
    for error in [BusError::Unavailable, BusError::NotAcknowledged, BusError::ShortRead] {
        let plan = plan_cycle(Err(error), 10000, 5);
        assert!(plan.alert.is_none());
        assert!(plan.publish.is_none());
        assert_eq!(plan.delay_millis, 100);
    }
    assert_eq!(CYCLE_MILLIS, 100);
}

#[test]
fn plan_alerts_only_strictly_above_the_threshold() {
    let at = plan_cycle(Ok(10000), 10000, 5);
    assert!(at.alert.is_none());
    assert_eq!(at.publish, Some(make_sample(10000, 10000, 5)));
    let above = plan_cycle(Ok(10001), 10000, 5);
    assert_eq!(above.alert, Some(String::from("Wert höher als 10000: 10001")));
    assert_eq!(above.publish, Some(make_sample(10001, 10000, 5)));
    let below = plan_cycle(Ok(-20000), -30000, 5);
    assert_eq!(below.alert, Some(String::from("Wert höher als -30000: -20000")));
    let huge = plan_cycle(Ok(32767), 32768, 5);
    assert!(huge.alert.is_none());
    assert!(huge.publish.is_some());
}

#[test]
fn five_cycles_with_one_bus_failure() {
    let mut state = AppState::new();
    state.set_threshold(10000);
    let mut subscription = state.subscribe();
    let outcomes: [Result<i16, BusError>; 5] =
        [Ok(100), Ok(9999), Err(BusError::NotAcknowledged), Ok(10000), Ok(15000)];
    let mut alerts: Vec<String> = Vec::new();
    let mut alerts_per_cycle: Vec<usize> = Vec::new();
    let mut time: u64 = 1_700_000_000;
    for outcome in outcomes {
        let plan = plan_cycle(outcome, state.current_threshold(), time);
        let before = alerts.len();
        if let Some(message) = plan.alert {
            alerts.push(message);
        }
        alerts_per_cycle.push(alerts.len() - before);
        if let Some(sample) = plan.publish {
            state.tx.publish(sample);
        }
        assert_eq!(plan.delay_millis, 100);
        time += 1;
    }
    assert_eq!(state.tx.total(), 4);
    assert_eq!(alerts_per_cycle, vec![0, 0, 0, 0, 1]);
    assert_eq!(alerts.len(), 1);
    assert!(alerts[0].contains("10000"));
    assert!(alerts[0].contains("15000"));
    let mut received: Vec<i16> = Vec::new();
    let mut stamps: Vec<u64> = Vec::new();
    while let Delivery::Sample(sample) = state.tx.receive(&mut subscription) {
        assert_eq!(sample.threshold, 10000);
        received.push(sample.raw_value);
        stamps.push(sample.timestamp);
    }
    assert_eq!(received, vec![100, 9999, 10000, 15000]);
    assert_eq!(stamps, vec![1_700_000_000, 1_700_000_001, 1_700_000_003, 1_700_000_004]);
}

#[test]
fn sample_carries_the_threshold_in_force_when_taken() {
    let mut state = AppState::new();
    let first = plan_cycle(Ok(1), state.current_threshold(), 1).publish;
    state.set_threshold(77);
    let second = plan_cycle(Ok(1), state.current_threshold(), 2).publish;
    assert_eq!(first.map(|sample| sample.threshold), Some(10000));
    assert_eq!(second.map(|sample| sample.threshold), Some(77));
}

#[test]
fn bus_transaction_runs_through_its_four_actions() {
    let fields = ConfigFields::fixed();
    assert_eq!(begin(), (Phase::Opening, Action::Open { address: 0x48 }));
    assert_eq!(
        step(Phase::Opening, fields, &Outcome::Completed),
        Step::Continue(Phase::Writing, Action::Write { register: 0x01, bytes: [0x83, 0x83] })
    );
    assert_eq!(
        step(Phase::Writing, fields, &Outcome::Completed),
        Step::Continue(Phase::Settling, Action::Wait { millis: 8 })
    );
    assert_eq!(
        step(Phase::Settling, fields, &Outcome::Completed),
        Step::Continue(Phase::Reading, Action::Read { register: 0x00, count: 2 })
    );
    assert_eq!(
        step(Phase::Reading, fields, &Outcome::Data(vec![0x3A, 0x98])),
        Step::Finished(Ok(15000))
    );
}

#[test]
fn settle_delay_follows_the_configured_rate() {
    let slow = ConfigFields { rate: DataRate::Sps8, ..ConfigFields::fixed() };
    assert_eq!(
        step(Phase::Writing, slow, &Outcome::Completed),
        Step::Continue(Phase::Settling, Action::Wait { millis: 125 })
    );
    let fast = ConfigFields { rate: DataRate::Sps860, ..ConfigFields::fixed() };
    assert_eq!(
        step(Phase::Writing, fast, &Outcome::Completed),
        Step::Continue(Phase::Settling, Action::Wait { millis: 2 })
    );
}

#[test]
fn bus_failures_end_the_transaction() {
    let fields = ConfigFields::fixed();
    assert_eq!(
        step(Phase::Opening, fields, &Outcome::Failed),
        Step::Finished(Err(BusError::Unavailable))
    );
    assert_eq!(
        step(Phase::Writing, fields, &Outcome::Failed),
        Step::Finished(Err(BusError::NotAcknowledged))
    );
    assert_eq!(
        step(Phase::Settling, fields, &Outcome::Failed),
        Step::Finished(Err(BusError::Unavailable))
    );
    assert_eq!(
        step(Phase::Reading, fields, &Outcome::Failed),
        Step::Finished(Err(BusError::NotAcknowledged))
    );
    assert_eq!(
        step(Phase::Reading, fields, &Outcome::Data(vec![0x12])),
        Step::Finished(Err(BusError::ShortRead))
    );
    assert_eq!(
        step(Phase::Reading, fields, &Outcome::Data(Vec::new())),
        Step::Finished(Err(BusError::ShortRead))
    );
    assert_eq!(
        step(Phase::Reading, fields, &Outcome::Completed),
        Step::Finished(Err(BusError::ShortRead))
    );
}

#[test]
fn read_results() {
    assert_eq!(finish_read(&[0x80, 0x00]), Ok(-32768));
    assert_eq!(finish_read(&[0x7F, 0xFF, 0x55]), Ok(32767));
    assert_eq!(finish_read(&[0x7F]), Err(BusError::ShortRead));
}

#[test]
fn basic_authorization_header() {
    assert_eq!(credentials("user", "pass"), "user:pass");
    assert_eq!(basic_header("dXNlcjpwYXNz"), "Basic dXNlcjpwYXNz");
    assert_eq!(authorization_header("user", "pass"), Some(String::from("Basic dXNlcjpwYXNz")));
    assert_eq!(authorization_header("", ""), Some(String::from("Basic Og==")));
    assert_eq!(
        authorization_header("Aladdin", "open sesame"),
        Some(String::from("Basic QWxhZGRpbjpvcGVuIHNlc2FtZQ=="))
    );
}

#[test]
fn synthetic_samples_stay_in_range() {
    assert_eq!(SYNTHETIC_BOUND, 20000);
    assert_eq!(reduce(0), 0);
    assert_eq!(reduce(19999), 19999);
    assert_eq!(reduce(20000), 0);
    assert_eq!(reduce(25000), 5000);
    assert_eq!(reduce(-25000), -5000);
    assert_eq!(reduce(i16::MIN), -12768);
    assert_eq!(reduce(i16::MAX), 12767);
    for drawn in i16::MIN..=i16::MAX {
        assert_eq!(reduce(drawn), drawn % 20000);
    }
    let mut distinct = false;
    let first = synthetic_sample();
    for _ in 0..200 {
        let raw = synthetic_sample();
        assert!(-20000 < raw && raw < 20000);
        if raw != first {
            distinct = true;
        }
    }
    assert!(distinct);
}

#[test]
fn alert_request_carries_headers_and_body() {
    let request = alert_request(
        String::from("https://push.example/topic"),
        "user",
        "pass",
        String::from("Wert höher als 10000: 15000"),
    );
    assert_eq!(
        request,
        Some(AlertRequest {
            url: String::from("https://push.example/topic"),
            authorization: String::from("Basic dXNlcjpwYXNz"),
            content_type: String::from("text/plain"),
            body: String::from("Wert höher als 10000: 15000"),
        })
    );
}

#[test]
fn non_ascii_credentials_are_encoded_as_utf8() {
    assert_eq!(authorization_header("ö", "ü"), Some(String::from("Basic w7Y6w7w=")));
}

#[test]
fn stream_emits_waits_and_closes() {
    let mut state = AppState::new();
    let mut subscription = state.subscribe();
    assert_eq!(state.next_event(&mut subscription), StreamStep::Wait);
    state.publish(make_sample(5, 10000, 1));
    assert_eq!(state.current_threshold(), 10000);
    assert_eq!(state.next_event(&mut subscription), StreamStep::Emit(make_sample(5, 10000, 1)));
    assert_eq!(state.next_event(&mut subscription), StreamStep::Wait);
    for raw in 0..101 {
        state.publish(make_sample(raw, 10000, 2));
    }
    assert_eq!(state.next_event(&mut subscription), StreamStep::Close);
    assert_eq!(subscription.position(), 2);
    assert_eq!(state.next_event(&mut subscription), StreamStep::Emit(make_sample(1, 10000, 2)));
}
