use xaml_island::event_loop::{Action, Dispatcher, Flow, LoopEvent};
use xaml_island::geometry::{extent, placement, Placement, Rect};
use xaml_island::island::XamlIsland;

fn at_origin(hwnd: isize, width: i32, height: i32) -> Placement {
    Placement { hwnd, rect: Rect { x: 0, y: 0, width, height }, show: true }
}

#[test]
fn extent_keeps_counts_that_fit() {
    assert_eq!(extent(0), 0);
    assert_eq!(extent(800), 800);
    assert_eq!(extent(0x7fff_ffff), i32::MAX);
}

#[test]
fn extent_wraps_counts_above_i32_max() {
    assert_eq!(extent(0x8000_0000), i32::MIN);
    assert_eq!(extent(u32::MAX), -1);
}

#[test]
fn placement_anchors_at_origin_and_shows() {
    assert_eq!(placement(42, 300, 200), at_origin(42, 300, 200));
}

#[test]
fn attached_covers_the_client_area() {
    let island = XamlIsland::attached(11, 800, 600);
    assert_eq!(island.hwnd(), 11);
    assert_eq!(island.region(), Rect { x: 0, y: 0, width: 800, height: 600 });
    assert_eq!(island.placement(), at_origin(11, 800, 600));
}

#[test]
fn attached_to_an_empty_client_area() {
    let island = XamlIsland::attached(3, 0, 0);
    assert_eq!(island.region(), Rect { x: 0, y: 0, width: 0, height: 0 });
}

#[test]
fn resize_moves_only_the_hosted_window() {
    let mut island = XamlIsland::attached(11, 800, 600);
    let p = island.resize(1280, 720);
    assert_eq!(p, at_origin(11, 1280, 720));
    assert_eq!(island.hwnd(), 11);
    assert_eq!(island.region(), Rect { x: 0, y: 0, width: 1280, height: 720 });
}

#[test]
fn resize_to_zero() {
    let mut island = XamlIsland::attached(11, 800, 600);
    assert_eq!(island.resize(0, 0), at_origin(11, 0, 0));
    assert_eq!(island.region(), Rect { x: 0, y: 0, width: 0, height: 0 });
}

#[test]
fn new_loop_waits() {
    let d = Dispatcher::new(XamlIsland::attached(5, 10, 20));
    assert_eq!(d.flow(), Flow::Wait);
    assert_eq!(d.island().region(), Rect { x: 0, y: 0, width: 10, height: 20 });
}

#[test]
fn other_events_are_ignored() {
    let mut d = Dispatcher::new(XamlIsland::attached(5, 10, 20));
    assert_eq!(d.dispatch(LoopEvent::Other), Action::Idle);
    assert_eq!(d.flow(), Flow::Wait);
    assert_eq!(d.island().region(), Rect { x: 0, y: 0, width: 10, height: 20 });
}

#[test]
fn resized_event_with_wrapping_size() {
    let mut d = Dispatcher::new(XamlIsland::attached(5, 10, 20));
    let a = d.dispatch(LoopEvent::Resized { width: 0x8000_0000, height: 7 });
    assert_eq!(a, Action::Reposition(at_origin(5, i32::MIN, 7)));
}

#[test]
fn close_is_final() {
    let mut d = Dispatcher::new(XamlIsland::attached(5, 10, 20));
    let events = vec![
        LoopEvent::Resized { width: 30, height: 40 },
        LoopEvent::CloseRequested,
        LoopEvent::Resized { width: 50, height: 60 },
        LoopEvent::CloseRequested,
        LoopEvent::Other,
    ];
    let actions = d.run(&events);
    assert_eq!(
        actions,
        vec![
            Action::Reposition(at_origin(5, 30, 40)),
            Action::Exit,
            Action::Idle,
            Action::Idle,
            Action::Idle,
        ]
    );
    assert_eq!(actions.iter().filter(|a| **a == Action::Exit).count(), 1);
    assert_eq!(d.flow(), Flow::Exit);
    assert_eq!(d.island().region(), Rect { x: 0, y: 0, width: 30, height: 40 });
}

#[test]
fn run_of_no_events() {
    let mut d = Dispatcher::new(XamlIsland::attached(5, 10, 20));
    assert_eq!(d.run(&Vec::new()), Vec::new());
    assert_eq!(d.flow(), Flow::Wait);
}

#[test]
fn resize_then_close_scenario() {
    let island = XamlIsland::attached(9, 800, 600);
    assert_eq!(island.region(), Rect { x: 0, y: 0, width: 800, height: 600 });
    let mut d = Dispatcher::new(island);
    let a = d.dispatch(LoopEvent::Resized { width: 1024, height: 768 });
    assert_eq!(a, Action::Reposition(at_origin(9, 1024, 768)));
    assert_eq!(d.island().region(), Rect { x: 0, y: 0, width: 1024, height: 768 });
    assert_eq!(d.flow(), Flow::Wait);
    assert_eq!(d.dispatch(LoopEvent::CloseRequested), Action::Exit);
    assert_eq!(d.flow(), Flow::Exit);
}
