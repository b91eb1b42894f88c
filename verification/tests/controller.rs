use mbar::bridge::BridgeStep;
use mbar::bridge::DesktopState;
use mbar::bridge::bridge_on_query;
use mbar::controller::Controller;
use mbar::controller::Phase;
use mbar::controller::WindowEvent;
use mbar::geometry::Size;
use mbar::geometry::initial_window_size;
use mbar::geometry::resolve_geometry;
use mbar::schedule::RepaintDecision;

fn snapshot(names: &[&str]) -> DesktopState {
    DesktopState {
        desktop_names: names.iter().map(|n| n.to_string()).collect(),
        desktop_layout: String::new(),
    }
}

#[test]
fn fit_fit_bar_resizes_to_content_exactly_once() {
    // Policy fit/fit on a 1920x1080 monitor; content measures 200x40.
    let g = resolve_geometry(Size::Fit, Size::Fit, 1920, 1080);
    let (w, h) = initial_window_size(&g, 1920, 1080);
    let mut c = Controller::new(g, w, h);

    let pass = c.render_pass(Some((200, 40)), 0);
    assert_eq!(pass.resize_request, Some((200, 40)));

    // The system applies the request and reports it back.
    c.handle_window_event(&WindowEvent::Resized(200, 40));

    // A second identical pass does not resize again.
    let pass = c.render_pass(Some((200, 40)), 0);
    assert_eq!(pass.resize_request, None);
}

#[test]
fn screen_fixed_bar_never_follows_content() {
    // Policy screen/fixed(300) on a 1920x1080 monitor.
    let g = resolve_geometry(Size::Screen, Size::Fixed(300), 1920, 1080);
    assert_eq!((g.width, g.height), (Some(1920), Some(300)));
    let (w, h) = initial_window_size(&g, 1920, 1080);
    assert_eq!((w, h), (1920, 300));
    let c = Controller::new(g, w, h);

    for measured in [(1, 1), (5000, 5000), (200, 40)] {
        let pass = c.render_pass(Some(measured), 0);
        assert_eq!(pass.resize_request, None);
    }
}

#[test]
fn delivered_names_reach_the_next_render_pass() {
    // A bridge delivery of ["1", "2", "3"] is what the very next pass draws
    // from, and the pass is scheduled within the 50 ms cap.
    let g = resolve_geometry(Size::Fit, Size::Fit, 1920, 1080);
    let mut c = Controller::new(g, 1920, 1080);

    let step = bridge_on_query(Ok(vec!["1".to_string(), "2".to_string(), "3".to_string()]));
    let delivered = match step {
        BridgeStep::Deliver(state) => state,
        other => panic!("expected a delivery, got {other:?}"),
    };
    c.handle_state_delivered(delivered);

    let input = c.render_input().as_ref().expect("state was delivered");
    assert_eq!(input.desktop_names, vec!["1", "2", "3"]);

    let pass = c.render_pass(Some((200, 40)), u64::MAX);
    match pass.schedule {
        RepaintDecision::WaitNs(ns) => assert!(ns <= 50_000_000),
        RepaintDecision::Immediate => {}
    }
}

#[test]
fn latest_delivery_supersedes_older_ones() {
    let g = resolve_geometry(Size::Fit, Size::Fit, 800, 600);
    let mut c = Controller::new(g, 800, 600);
    assert_eq!(*c.render_input(), None);

    c.handle_state_delivered(snapshot(&["a"]));
    c.handle_state_delivered(snapshot(&["b", "c"]));
    assert_eq!(*c.render_input(), Some(snapshot(&["b", "c"])));

    // Events and passes do not change the render input.
    c.handle_window_event(&WindowEvent::Resized(100, 100));
    c.render_pass(Some((10, 10)), 0);
    assert_eq!(*c.render_input(), Some(snapshot(&["b", "c"])));
}

#[test]
fn synced_live_size_governs_the_resize_comparison() {
    let g = resolve_geometry(Size::Fit, Size::Fit, 800, 600);
    let mut c = Controller::new(g, 800, 600);
    c.sync_surface_size(200, 40);
    let pass = c.render_pass(Some((200, 40)), 0);
    assert_eq!(pass.resize_request, None);
    c.sync_surface_size(300, 40);
    let pass = c.render_pass(Some((200, 40)), 0);
    assert_eq!(pass.resize_request, Some((200, 40)));
}

#[test]
fn close_request_shuts_down_and_tears_down_the_toolkit() {
    let g = resolve_geometry(Size::Fit, Size::Fit, 800, 600);
    let mut c = Controller::new(g, 800, 600);
    assert_eq!(c.phase, Phase::Idle);

    let resp = c.handle_window_event(&WindowEvent::CloseRequested);
    assert_eq!(c.phase, Phase::ShuttingDown);
    assert!(resp.destroy_toolkit);
    assert!(resp.request_redraw);
    assert_eq!(resp.sync_surface, None);
}

#[test]
fn reported_sizes_are_accepted_as_fact() {
    let g = resolve_geometry(Size::Screen, Size::Fixed(300), 1920, 1080);
    let mut c = Controller::new(g, 1920, 300);

    let resp = c.handle_window_event(&WindowEvent::ScaleFactorChanged(3840, 600));
    assert_eq!(resp.sync_surface, Some((3840, 600)));
    assert!(resp.forward_to_toolkit);
    assert_eq!((c.surface_w, c.surface_h), (3840, 600));
    // The policy still governs the desired size: the next pass asks for the
    // configured geometry back.
    let pass = c.render_pass(Some((1, 1)), 0);
    assert_eq!(pass.resize_request, Some((1920, 300)));
}

#[test]
fn other_events_only_forward_and_redraw() {
    let g = resolve_geometry(Size::Fit, Size::Fit, 800, 600);
    let mut c = Controller::new(g, 800, 600);
    let before = c.clone();
    let resp = c.handle_window_event(&WindowEvent::Other);
    assert_eq!(c, before);
    assert!(resp.forward_to_toolkit);
    assert!(resp.request_redraw);
    assert!(!resp.destroy_toolkit);
    assert_eq!(resp.sync_surface, None);
}

#[test]
fn unmeasured_pass_never_resizes() {
    let g = resolve_geometry(Size::Fit, Size::Fit, 800, 600);
    let c = Controller::new(g, 800, 600);
    let pass = c.render_pass(None, 0);
    assert_eq!(pass.resize_request, None);
    assert_eq!(pass.schedule, RepaintDecision::Immediate);
}
