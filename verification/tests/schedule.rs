use mbar::schedule::MAX_WAIT_NS;
use mbar::schedule::RepaintDecision;
use mbar::schedule::schedule_repaint;

#[test]
fn zero_suggestion_repaints_immediately() {
    assert_eq!(schedule_repaint(0), RepaintDecision::Immediate);
}

#[test]
fn short_suggestion_is_taken_as_is() {
    assert_eq!(schedule_repaint(1), RepaintDecision::WaitNs(1));
    assert_eq!(schedule_repaint(30_000_000), RepaintDecision::WaitNs(30_000_000));
}

#[test]
fn long_suggestion_is_capped_at_fifty_milliseconds() {
    assert_eq!(MAX_WAIT_NS, 50_000_000);
    assert_eq!(schedule_repaint(50_000_001), RepaintDecision::WaitNs(MAX_WAIT_NS));
    assert_eq!(schedule_repaint(u64::MAX), RepaintDecision::WaitNs(MAX_WAIT_NS));
    assert_eq!(schedule_repaint(MAX_WAIT_NS), RepaintDecision::WaitNs(MAX_WAIT_NS));
}
