use mbar::bridge::bridge_run_script;
use mbar::bridge::BridgeStep;
use mbar::bridge::DesktopState;
use mbar::bridge::QueryError;
use mbar::bridge::SendOutcome;
use mbar::bridge::bridge_on_query;
use mbar::bridge::bridge_on_send;

fn names(names: &[&str]) -> Vec<String> {
    names.iter().map(|n| n.to_string()).collect()
}

#[test]
fn successful_query_is_delivered_unchanged() {
    let step = bridge_on_query(Ok(names(&["1", "2", "3"])));
    let expected = DesktopState { desktop_names: names(&["1", "2", "3"]), desktop_layout: String::new() };
    assert_eq!(step, BridgeStep::Deliver(expected));
}

#[test]
fn unreachable_window_manager_stops_the_bridge_with_an_error() {
    let step = bridge_on_query(Err(QueryError::ConnectionLost));
    assert_eq!(step, BridgeStep::StopFailed(QueryError::ConnectionLost));
}

#[test]
fn delivery_is_followed_by_a_sleep_and_another_poll() {
    assert_eq!(bridge_on_send(SendOutcome::Delivered), BridgeStep::SleepThenPoll);
}

#[test]
fn closed_channel_is_clean_termination() {
    assert_eq!(bridge_on_send(SendOutcome::ChannelClosed), BridgeStep::StopClean);
}

#[test]
fn an_unchanged_snapshot_is_still_delivered() {
    // No de-duplication: two identical replies each become a delivery.
    let a = bridge_on_query(Ok(names(&["1"])));
    let b = bridge_on_query(Ok(names(&["1"])));
    assert_eq!(a, b);
    assert!(matches!(a, BridgeStep::Deliver(_)));
}

#[test]
fn a_clean_script_is_delivered_in_order() {
    let (delivered, outcome) = bridge_run_script(vec![
        Ok(names(&["1"])),
        Ok(names(&["1", "2"])),
        Ok(names(&["3"])),
    ]);
    assert_eq!(outcome, Ok(()));
    let got: Vec<Vec<String>> = delivered.into_iter().map(|s| s.desktop_names).collect();
    assert_eq!(got, vec![names(&["1"]), names(&["1", "2"]), names(&["3"])]);
}

#[test]
fn a_failing_script_stops_at_the_failure() {
    let (delivered, outcome) = bridge_run_script(vec![
        Ok(names(&["1"])),
        Err(QueryError::ConnectionLost),
        Ok(names(&["never polled"])),
    ]);
    assert_eq!(outcome, Err(QueryError::ConnectionLost));
    assert_eq!(delivered.len(), 1);
    assert_eq!(delivered[0].desktop_names, names(&["1"]));
}

#[test]
fn empty_desktop_list_is_a_valid_snapshot() {
    let step = bridge_on_query(Ok(Vec::new()));
    let expected = DesktopState { desktop_names: Vec::new(), desktop_layout: String::new() };
    assert_eq!(step, BridgeStep::Deliver(expected));
}
