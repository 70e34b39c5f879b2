//! Tests of the change channel, the watch-loop decisions, the reconnect
//! schedule, and the facade decisions.

use clipwatch::facade::{
    choose_backend, load_attempts, wrap_image_read, wrap_text_read, BackendChoice, LoadTarget,
};
use clipwatch::listener::{
    listener_step, next_reconnect_action, watch_retry_policy, ListenerAction, PollOutcome,
    ReconnectStep, MAX_RETRY_COUNT,
};
use clipwatch::{
    ClipFilter, ClipboardContent, ClipboardKind, Error, RetryInterval, WaitStatus,
};

fn strings(v: &[&str]) -> Vec<String> {
    v.iter().map(|s| s.to_string()).collect()
}

#[test]
fn wait_blocks_until_first_notify() {
    let (mut p, mut s) = clipwatch::pubsub::new(ClipboardKind::Clipboard);
    assert_eq!(s.wait(&p), WaitStatus::Pending);
    p.notify_all();
    assert_eq!(s.wait(&p), WaitStatus::Notified(ClipboardKind::Clipboard));
    assert_eq!(s.wait(&p), WaitStatus::Pending);
}

#[test]
fn notify_before_wait_is_not_lost() {
    let (mut p, mut s) = clipwatch::pubsub::new(ClipboardKind::Primary);
    p.notify_all();
    assert_eq!(s.wait(&p), WaitStatus::Notified(ClipboardKind::Primary));
}

#[test]
fn close_is_terminal_for_every_wait() {
    let (mut p, mut s) = clipwatch::pubsub::new(ClipboardKind::Clipboard);
    let mut s2 = s.clone();
    p.close();
    assert_eq!(s.wait(&p), WaitStatus::Closed);
    assert_eq!(s2.wait(&p), WaitStatus::Closed);
    // A notification after the close changes nothing.
    p.notify_all();
    assert_eq!(s.wait(&p), WaitStatus::Closed);
    assert_eq!(s2.wait(&p), WaitStatus::Closed);
}

#[test]
fn every_clone_wakes_exactly_once() {
    let (mut p, mut s1) = clipwatch::pubsub::new(ClipboardKind::Clipboard);
    let mut s2 = s1.clone();
    p.notify_all();
    assert_eq!(s1.wait(&p), WaitStatus::Notified(ClipboardKind::Clipboard));
    assert_eq!(s2.wait(&p), WaitStatus::Notified(ClipboardKind::Clipboard));
    assert_eq!(s1.wait(&p), WaitStatus::Pending);
    assert_eq!(s2.wait(&p), WaitStatus::Pending);
}

#[test]
fn burst_collapses_to_one_wake_with_latest_content() {
    let (mut p, mut s) = clipwatch::pubsub::new(ClipboardKind::Clipboard);
    // Two selection changes land before the subscriber wakes. The channel
    // carries no payload, so the subscriber re-reads the authoritative state
    // and sees only the later content.
    let mut latest = ClipboardContent::Plaintext(String::from("first"));
    p.notify_all();
    latest = ClipboardContent::Plaintext(String::from("second"));
    p.notify_all();
    let mut wakes = 0;
    while s.wait(&p) == WaitStatus::Notified(ClipboardKind::Clipboard) {
        wakes += 1;
    }
    assert_eq!(wakes, 1);
    assert!(latest == ClipboardContent::Plaintext(String::from("second")));
}

#[test]
fn selection_change_publishes_best_format() {
    let filter = ClipFilter::new();
    let outcome = PollOutcome::SelectionChanged {
        formats: strings(&["application/json", "text/html", "image/png"]),
    };
    assert_eq!(
        listener_step(&filter, &outcome),
        ListenerAction::Publish { format: "image/png".to_string() }
    );
}

#[test]
fn legacy_marker_is_publishable() {
    let filter = ClipFilter::new();
    let outcome = PollOutcome::SelectionChanged { formats: strings(&["zzz", "UTF8_STRING"]) };
    assert_eq!(
        listener_step(&filter, &outcome),
        ListenerAction::Publish { format: "UTF8_STRING".to_string() }
    );
}

#[test]
fn unparseable_formats_are_skipped_silently() {
    let filter = ClipFilter::new();
    let outcome = PollOutcome::SelectionChanged { formats: strings(&["no-slash", "TIMESTAMP"]) };
    assert_eq!(listener_step(&filter, &outcome), ListenerAction::Ignore);
}

#[test]
fn sensitive_change_never_notifies() {
    let filter = ClipFilter::new();
    let (mut p, mut s) = clipwatch::pubsub::new(ClipboardKind::Clipboard);
    let outcome = PollOutcome::SelectionChanged {
        formats: strings(&["x-kde-passwordManagerHint"]),
    };
    let mut notify_count = 0;
    for _ in 0..3 {
        match listener_step(&filter, &outcome) {
            ListenerAction::Publish { .. } => {
                p.notify_all();
                notify_count += 1;
            }
            _ => {}
        }
    }
    assert_eq!(notify_count, 0);
    assert_eq!(s.wait(&p), WaitStatus::Pending);
}

#[test]
fn quiet_polls_are_ignored_and_errors_reconnect() {
    let filter = ClipFilter::new();
    assert_eq!(listener_step(&filter, &PollOutcome::NoEvent), ListenerAction::Ignore);
    assert_eq!(listener_step(&filter, &PollOutcome::OtherEvent), ListenerAction::Ignore);
    assert_eq!(
        listener_step(&filter, &PollOutcome::FormatsUnavailable),
        ListenerAction::Ignore
    );
    assert_eq!(listener_step(&filter, &PollOutcome::ProtocolError), ListenerAction::Reconnect);
}

#[test]
fn watch_schedule_counts_every_phase() {
    let mut policy = watch_retry_policy();
    assert_eq!(policy.limit(), MAX_RETRY_COUNT);
    let mut at_100 = 0u64;
    let mut at_500 = 0u64;
    let mut at_2500 = 0u64;
    let mut at_3000 = 0u64;
    let mut total = 0u64;
    while let Some(delay) = policy.next() {
        match delay {
            100 => at_100 += 1,
            500 => at_500 += 1,
            2500 => at_2500 += 1,
            3000 => at_3000 += 1,
            other => panic!("unexpected delay {other}"),
        }
        total += 1;
    }
    assert_eq!(at_100, 10);
    assert_eq!(at_500, 50);
    assert_eq!(at_2500, 100);
    assert_eq!(at_3000, MAX_RETRY_COUNT as u64 - 160);
    assert_eq!(total, MAX_RETRY_COUNT as u64);
    assert_eq!(policy.next(), None);
}

#[test]
fn schedule_phases_come_in_order() {
    let mut policy = RetryInterval::new(5, 9).add_phase(2, 1).add_phase(1, 4);
    assert_eq!(policy.next(), Some(1));
    assert_eq!(policy.next(), Some(1));
    assert_eq!(policy.next(), Some(4));
    assert_eq!(policy.next(), Some(9));
    assert_eq!(policy.next(), Some(9));
    assert_eq!(policy.next(), None);
    assert_eq!(policy.next(), None);
}

#[test]
fn schedule_clone_keeps_position() {
    let mut policy = RetryInterval::new(3, 9).add_phase(1, 1);
    assert_eq!(policy.next(), Some(1));
    let mut cloned = policy.clone();
    assert_eq!(cloned.next(), Some(9));
    assert_eq!(policy.next(), Some(9));
}

#[test]
fn stop_mid_retry_aborts_before_sleeping() {
    let mut policy = watch_retry_policy();
    assert_eq!(policy.next(), Some(100));
    let taken_before = |p: &RetryInterval| p.taken;
    let before = taken_before(&policy);
    // Stop signal set: no sleep is served and the schedule is untouched.
    assert_eq!(next_reconnect_action(&mut policy, false, false), ReconnectStep::Aborted);
    assert_eq!(policy.taken, before);
    // Still running: the next delay of the schedule is served.
    assert_eq!(
        next_reconnect_action(&mut policy, false, true),
        ReconnectStep::SleepThenRetry { delay_ms: 100 }
    );
    assert_eq!(policy.taken, before + 1);
    // A successful attempt ends the loop without consuming the schedule.
    assert_eq!(next_reconnect_action(&mut policy, true, true), ReconnectStep::Connected);
    assert_eq!(policy.taken, before + 1);
}

#[test]
fn exhausted_schedule_gives_up_with_ceiling() {
    let mut policy = RetryInterval::new(1, 5);
    assert_eq!(
        next_reconnect_action(&mut policy, false, true),
        ReconnectStep::SleepThenRetry { delay_ms: 5 }
    );
    assert_eq!(
        next_reconnect_action(&mut policy, false, true),
        ReconnectStep::GaveUp { limit: 1 }
    );
}

#[test]
fn backend_prefers_wayland_then_x11() {
    assert_eq!(
        choose_backend(Some("wayland-0".to_string()), Some(":0".to_string())),
        BackendChoice::Wayland { display: "wayland-0".to_string() }
    );
    assert_eq!(
        choose_backend(None, Some(":0".to_string())),
        BackendChoice::X11 { display: Some(":0".to_string()) }
    );
    assert_eq!(choose_backend(None, None), BackendChoice::X11 { display: None });
}

#[test]
fn load_attempt_order_follows_hint() {
    assert_eq!(load_attempts(None), vec![LoadTarget::Text, LoadTarget::Image]);
    assert_eq!(
        load_attempts(Some("text/plain; charset=utf-8")),
        vec![LoadTarget::Text]
    );
    assert_eq!(load_attempts(Some("image/png")), vec![LoadTarget::Image]);
    assert_eq!(load_attempts(Some("application/json")), Vec::<LoadTarget>::new());
    assert_eq!(load_attempts(Some("not a mime")), Vec::<LoadTarget>::new());
}

#[test]
fn native_reads_wrap_into_content_or_empty() {
    assert!(
        wrap_text_read(Some("hi".to_string()))
            == Ok(ClipboardContent::Plaintext("hi".to_string()))
    );
    assert!(wrap_text_read(None) == Err(Error::Empty));
    assert!(
        wrap_image_read(Some((2, 1, vec![7, 8])))
            == Ok(ClipboardContent::Image { width: 2, height: 1, bytes: vec![7, 8] })
    );
    assert!(wrap_image_read(None) == Err(Error::Empty));
}
