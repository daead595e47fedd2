use latency_reader::orchestrator::evaluate_attempt;
use latency_reader::orchestrator::crop_origin;
use latency_reader::orchestrator::CaptureBox;
use latency_reader::orchestrator::Round;
use latency_reader::orchestrator::RoundEvent;
use latency_reader::orchestrator::MAX_TRIES;

#[test]
fn retry_bound_emits_one_terminal_event_after_four_attempts() {
    assert_eq!(MAX_TRIES, 3);
    let mut round = Round::new_round(MAX_TRIES);
    let mut events = Vec::new();
    let mut attempts = 0;
    while !round.finished {
        attempts += 1;
        if let Some(ev) = round.on_attempt(None) {
            events.push(ev);
        }
    }
    assert_eq!(attempts, 4);
    assert_eq!(events, vec![RoundEvent::DelayMeasured(None)]);
    // A finished round reacts to nothing further.
    assert_eq!(round.on_attempt(None), None);
    assert_eq!(round.on_attempt(Some(5)), None);
}

#[test]
fn successful_attempt_ends_the_round_with_its_delay() {
    let mut round = Round::new_round(MAX_TRIES);
    assert_eq!(round.on_attempt(None), None);
    let ev = round.on_attempt(Some(42));
    assert_eq!(ev, Some(RoundEvent::DelayMeasured(Some(42))));
    assert!(round.finished);
    assert_eq!(round.tries_done, 2);
}

#[test]
fn attempt_outcome_requires_two_nonzero_readouts() {
    assert_eq!(evaluate_attempt(Some(5000), Some(3000)), Some(2000));
    assert_eq!(evaluate_attempt(Some(3000), Some(5000)), Some(2000));
    assert_eq!(evaluate_attempt(Some(0), Some(3000)), None);
    assert_eq!(evaluate_attempt(Some(5000), Some(0)), None);
    assert_eq!(evaluate_attempt(None, Some(3000)), None);
    assert_eq!(evaluate_attempt(Some(5000), None), None);
    assert_eq!(evaluate_attempt(None, None), None);
}

#[test]
fn debug_image_is_written_only_on_the_final_attempt() {
    let mut round = Round::new_round(MAX_TRIES);
    assert!(!round.should_write_debug(true));
    round.on_attempt(None);
    round.on_attempt(None);
    assert!(!round.should_write_debug(true));
    round.on_attempt(None);
    assert!(round.should_write_debug(true));
    assert!(!round.should_write_debug(false));
    round.on_attempt(None);
    assert!(!round.should_write_debug(true));
}

#[test]
fn capture_box_keeps_its_metrics() {
    let cb = CaptureBox::new(120, 40, -160, 0);
    assert_eq!(cb.width, 120);
    assert_eq!(cb.height, 40);
    assert_eq!(cb.x_offset, -160);
    assert_eq!(cb.y_offset, 0);
}

#[test]
fn crop_origin_applies_the_offsets() {
    let cb = CaptureBox::new(120, 40, -30, 5);
    assert_eq!(crop_origin(100, 50, &cb), Some((70, 55)));

    let too_far_left = CaptureBox::new(120, 40, -200, 0);
    assert_eq!(crop_origin(100, 50, &too_far_left), None);

    let overflowing = CaptureBox::new(120, 40, 1, 0);
    assert_eq!(crop_origin(u32::MAX, 0, &overflowing), None);
}
