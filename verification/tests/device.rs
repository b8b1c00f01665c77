use embassy_usb::driver::EndpointError;
use thermoline::blinker::Blinker;
use thermoline::convert::{scaling, temp_centi_of_mv, voltage_mv};
use thermoline::indicator::{indicator_decide, Indicator, IndicatorAction};
use thermoline::linefmt::{format_line, LINE_CAPACITY};
use thermoline::sampler::sampler_step;
use thermoline::session::{
    handle_write_result, session_step, stream_pending, stream_sample, SessionAction, SessionEvent,
    SessionState, StreamDecision,
};
use thermoline::signal::BroadcastSignal;

#[test]
fn conversion_low_endpoint() {
    assert_eq!(voltage_mv(0), 0);
    assert_eq!(scaling(0), -5000);
}

#[test]
fn conversion_high_endpoint() {
    assert_eq!(voltage_mv(4095), 3300);
    assert_eq!(scaling(4095), 12500);
}

#[test]
fn conversion_midpoint() {
    // Integer millivolts truncate: within 1 mV of the ideal 1650.
    assert_eq!(voltage_mv(2047), 1649);
    assert_eq!(scaling(2047), 3744);
    // An exact half-reference voltage lands exactly mid-range.
    assert_eq!(temp_centi_of_mv(1650), 3750);
}

#[test]
fn broadcast_latest_value_wins() {
    let mut sig = BroadcastSignal::new();
    sig.publish(100);
    sig.publish(250);
    sig.publish(-75);
    assert_eq!(sig.try_take(), Some(-75));
}

#[test]
fn broadcast_observed_exactly_once() {
    let mut sig = BroadcastSignal::new();
    assert!(!sig.is_ready());
    sig.publish(2150);
    assert!(sig.is_ready());
    assert_eq!(sig.try_take(), Some(2150));
    assert!(!sig.is_ready());
    assert_eq!(sig.try_take(), None);
}

#[test]
fn sampler_publishes_converted_reading() {
    let mut sig = BroadcastSignal::new();
    let t = sampler_step(&mut sig, 2047);
    assert_eq!(t, 3744);
    assert_eq!(sig.try_take(), Some(3744));
}

#[test]
fn sampler_overwrites_missed_reading() {
    let mut sig = BroadcastSignal::new();
    sampler_step(&mut sig, 0);
    sampler_step(&mut sig, 4095);
    assert_eq!(sig.try_take(), Some(12500));
}

#[test]
fn band_bounds_are_exclusive() {
    assert_eq!(indicator_decide(1000), IndicatorAction::Idle);
    assert_eq!(indicator_decide(1001), IndicatorAction::Pulse);
    assert_eq!(indicator_decide(2999), IndicatorAction::Pulse);
    assert_eq!(indicator_decide(3000), IndicatorAction::Idle);
    assert_eq!(indicator_decide(-5000), IndicatorAction::Idle);
    assert_eq!(indicator_decide(12500), IndicatorAction::Idle);
}

#[test]
fn band_decision_is_stateless() {
    let first = indicator_decide(2000);
    let second = indicator_decide(2000);
    assert_eq!(first, IndicatorAction::Pulse);
    assert_eq!(first, second);
}

#[test]
fn session_streams_and_recovers() {
    let (s, a) = session_step(SessionState::AwaitingConnection, SessionEvent::HostOpened);
    assert_eq!(s, SessionState::StreamingConnected);
    assert_eq!(a, SessionAction::EmitConnectNotice);

    let (s, a) = session_step(s, SessionEvent::WriteOk);
    assert_eq!(s, SessionState::StreamingConnected);
    assert_eq!(a, SessionAction::WaitCadence);

    let (s, a) = session_step(s, SessionEvent::EndpointDisabled);
    assert_eq!(s, SessionState::AwaitingConnection);
    assert_eq!(a, SessionAction::EmitDisconnectNotice);

    let (s, a) = session_step(s, SessionEvent::HostOpened);
    assert_eq!(s, SessionState::StreamingConnected);
    assert_eq!(a, SessionAction::EmitConnectNotice);
}

#[test]
fn session_ignores_irrelevant_events() {
    let (s, a) = session_step(SessionState::AwaitingConnection, SessionEvent::WriteOk);
    assert_eq!(s, SessionState::AwaitingConnection);
    assert_eq!(a, SessionAction::Stay);

    let (s, a) = session_step(SessionState::StreamingConnected, SessionEvent::HostOpened);
    assert_eq!(s, SessionState::StreamingConnected);
    assert_eq!(a, SessionAction::Stay);
}

#[test]
fn session_fatal_is_terminal() {
    let (s, a) = session_step(SessionState::StreamingConnected, SessionEvent::BufferOverflow);
    assert_eq!(s, SessionState::Fatal);
    assert_eq!(a, SessionAction::Halt);

    let (s, a) = session_step(s, SessionEvent::HostOpened);
    assert_eq!(s, SessionState::Fatal);
    assert_eq!(a, SessionAction::Halt);
}

#[test]
fn write_ok_keeps_streaming() {
    let (s, a) = handle_write_result(SessionState::StreamingConnected, Ok(()));
    assert_eq!(s, SessionState::StreamingConnected);
    assert_eq!(a, SessionAction::WaitCadence);
}

#[test]
fn disabled_endpoint_is_a_disconnection() {
    let (s, a) =
        handle_write_result(SessionState::StreamingConnected, Err(EndpointError::Disabled));
    assert_eq!(s, SessionState::AwaitingConnection);
    assert_eq!(a, SessionAction::EmitDisconnectNotice);
}

#[test]
fn overflowed_write_is_fatal() {
    let (s, a) =
        handle_write_result(SessionState::StreamingConnected, Err(EndpointError::BufferOverflow));
    assert_eq!(s, SessionState::Fatal);
    assert_eq!(a, SessionAction::Halt);
}

#[test]
fn line_for_positive_reading() {
    let line = format_line(3744, LINE_CAPACITY).unwrap();
    assert_eq!(line.as_slice(), b"Temperature: 37.44 \xC2\xB0C\r\n");
}

#[test]
fn line_for_negative_reading() {
    let line = format_line(-5000, LINE_CAPACITY).unwrap();
    assert_eq!(line.as_slice(), b"Temperature: -50.00 \xC2\xB0C\r\n");
}

#[test]
fn line_for_zero_and_padding() {
    let line = format_line(0, LINE_CAPACITY).unwrap();
    assert_eq!(line.as_slice(), b"Temperature: 0.00 \xC2\xB0C\r\n");
    let line = format_line(-7, LINE_CAPACITY).unwrap();
    assert_eq!(line.as_slice(), b"Temperature: -0.07 \xC2\xB0C\r\n");
    let line = format_line(12500, LINE_CAPACITY).unwrap();
    assert_eq!(line.as_slice(), b"Temperature: 125.00 \xC2\xB0C\r\n");
}

#[test]
fn line_fits_exactly_at_its_length() {
    let line = format_line(3744, LINE_CAPACITY).unwrap();
    let exact = line.len();
    assert!(format_line(3744, exact).is_ok());
    assert!(format_line(3744, exact - 1).is_err());
}

#[test]
fn overflow_halts_instead_of_truncating() {
    // Shrink the buffer so the rendered line cannot fit.
    assert!(format_line(3744, 10).is_err());
    let decision = stream_sample(3744, 10);
    assert!(matches!(decision, StreamDecision::FatalOverflow));
    // The session routes the overflow to the halt path, not to a write.
    let (s, a) = session_step(SessionState::StreamingConnected, SessionEvent::BufferOverflow);
    assert_eq!(s, SessionState::Fatal);
    assert_eq!(a, SessionAction::Halt);
}

#[test]
fn streaming_sends_the_rendered_line() {
    match stream_sample(-125, LINE_CAPACITY) {
        StreamDecision::Send(line) => {
            assert_eq!(line.as_slice(), b"Temperature: -1.25 \xC2\xB0C\r\n");
            assert!(line.len() <= LINE_CAPACITY);
        }
        StreamDecision::FatalOverflow => panic!("a short line must be sent"),
    }
}

#[test]
fn indicator_pulses_once_at_startup() {
    let mut ind = Indicator::new();
    assert!(!ind.has_proved_liveness());
    assert_eq!(ind.startup(), IndicatorAction::Pulse);
    assert!(ind.has_proved_liveness());
    assert_eq!(ind.on_reading(2000), IndicatorAction::Pulse);
    assert_eq!(ind.on_reading(500), IndicatorAction::Idle);
}

#[test]
fn streaming_consumes_the_pending_reading() {
    let mut sig = BroadcastSignal::new();
    assert!(stream_pending(&mut sig, LINE_CAPACITY).is_none());
    sig.publish(-125);
    match stream_pending(&mut sig, LINE_CAPACITY) {
        Some(StreamDecision::Send(line)) => {
            assert_eq!(line.as_slice(), b"Temperature: -1.25 \xC2\xB0C\r\n");
        }
        _ => panic!("a pending reading must yield its line"),
    }
    // The pass consumed the reading; nothing is pending now.
    assert!(stream_pending(&mut sig, LINE_CAPACITY).is_none());
}

#[test]
fn blinkers_toggle_independently() {
    let mut slow = Blinker::new(1000);
    let mut fast = Blinker::new(350);
    assert!(!slow.level_high());
    assert!(!fast.level_high());

    let slow_toggles = slow.run_for(2000);
    let fast_toggles = fast.run_for(2000);

    assert_eq!(slow_toggles, 2000 / 1000);
    assert_eq!(fast_toggles, 2000 / 350);
    assert_eq!(slow_toggles, 2);
    assert_eq!(fast_toggles, 5);

    // Even toggle count: back low; odd: left high.
    assert!(!slow.level_high());
    assert!(fast.level_high());
    assert_eq!(slow.interval_ms(), 1000);
    assert_eq!(fast.interval_ms(), 350);
}

#[test]
fn blinker_single_step_flips_the_level() {
    let mut b = Blinker::new(350);
    let delay = b.step();
    assert_eq!(delay, 350);
    assert!(b.level_high());
    let delay = b.step();
    assert_eq!(delay, 350);
    assert!(!b.level_high());
}
