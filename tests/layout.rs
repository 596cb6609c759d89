use x11_clock::builder::WindowBuilder;
use x11_clock::event::{first_expose, Event, EXPOSE};
use x11_clock::placement::bottom_edge_y;
use x11_clock::screen::{Context, Screen};
use x11_clock::session::{BuildAction, BuildInput, BuildSession, BuildStage};
use x11_clock::shape::{corner_radius, rounded_rectangle, QuarterArc};

#[test]
fn bottom_placement_scenario() {
    assert_eq!(bottom_edge_y(1080, 20, 40), Some(1020));
}

#[test]
fn bottom_placement_edges() {
    assert_eq!(bottom_edge_y(60, 20, 40), Some(0));
    assert_eq!(bottom_edge_y(59, 20, 40), None);
    assert_eq!(bottom_edge_y(65535, 65535, 65535), None);
}

#[test]
fn builder_defaults() {
    let b = WindowBuilder::new(1, 2);
    assert_eq!(b.title, "Unnamed");
    assert_eq!((b.width, b.height, b.x, b.y), (100, 100, 0, 0));
    assert_eq!((b.parent, b.visual), (1, 2));
}

#[test]
fn builder_setters_and_build() {
    let s = Screen::new(0x100, 0x21, vec![vec![0x20, 0x21]]);
    let mut b = s.get_window_builder();
    assert_eq!((b.parent, b.visual), (0x100, 0x21));
    b.set_title("X11SimpleClock");
    b.set_width(145);
    b.set_height(40);
    b.set_x(20);
    b.set_y(1020);
    assert_eq!(b.title, "X11SimpleClock");
    let w = b.build(42);
    assert_eq!(w.window, 42);
    assert_eq!(w.size, (145, 40));
    assert_eq!(w.pos, (20, 1020));
    let c = w.create_window(b.parent, b.visual);
    assert_eq!((c.x, c.y, c.width, c.height), (20, 1020, 145, 40));
}

#[test]
fn preferred_screen_selection() {
    let screens = vec![Screen::new(1, 10, vec![]), Screen::new(2, 20, vec![])];
    assert_eq!(Context::new(1).get_preferred_screen(&screens).map(|s| s.root), Some(2));
    assert_eq!(Context::new(0).get_preferred_screen(&screens).map(|s| s.root), Some(1));
    assert!(Context::new(2).get_preferred_screen(&screens).is_none());
    assert!(Context::new(-1).get_preferred_screen(&screens).is_none());
}

#[test]
fn root_visual_found_by_scan() {
    let s = Screen::new(1, 0x21, vec![vec![0x20], vec![], vec![0x22, 0x21, 0x21]]);
    assert_eq!(s.root_visual_position(), Some((2, 1)));
    let missing = Screen::new(1, 0x99, vec![vec![0x20], vec![0x21]]);
    assert_eq!(missing.root_visual_position(), None);
}

#[test]
fn expose_recognised_with_sent_bit() {
    let e = Event { response_type: EXPOSE | 0x80, window: 4 };
    assert!(e.is_expose_for(4));
    assert!(!e.is_expose_for(5));
    assert!(!Event { response_type: 2, window: 4 }.is_expose_for(4));
}

#[test]
fn first_expose_skips_other_windows() {
    let events = vec![
        Event { response_type: 2, window: 4 },
        Event { response_type: EXPOSE, window: 9 },
        Event { response_type: EXPOSE, window: 4 },
        Event { response_type: EXPOSE, window: 4 },
    ];
    assert_eq!(first_expose(&events, 4), Some(2));
    assert_eq!(first_expose(&events[..2], 4), None);
}

#[test]
fn build_session_waits_for_own_exposure() {
    let mut s = BuildSession::new(4);
    assert_eq!(s.next_action(), BuildAction::SetName);
    s.advance(BuildInput::RequestDone);
    assert_eq!(s.next_action(), BuildAction::MapWindow);
    s.advance(BuildInput::RequestDone);
    assert_eq!(s.next_action(), BuildAction::AwaitEvent);
    s.advance(BuildInput::Received(Event { response_type: EXPOSE, window: 9 }));
    s.advance(BuildInput::NoEvent);
    s.advance(BuildInput::RequestDone);
    assert_eq!(s.stage, BuildStage::Mapped);
    assert!(!s.is_ready());
    s.advance(BuildInput::Received(Event { response_type: EXPOSE, window: 4 }));
    assert_eq!(s.next_action(), BuildAction::ReassertPosition);
    s.advance(BuildInput::RequestDone);
    assert_eq!(s.next_action(), BuildAction::Done);
    assert!(s.is_ready());
}

#[test]
fn rounded_rectangle_corners() {
    let r = corner_radius(40);
    assert_eq!(r, 8);
    let p = rounded_rectangle(0, 0, 145, 40, r);
    assert_eq!(
        p,
        vec![
            QuarterArc { cx: 137, cy: 8, radius: 8, quarter: 3 },
            QuarterArc { cx: 137, cy: 32, radius: 8, quarter: 0 },
            QuarterArc { cx: 8, cy: 32, radius: 8, quarter: 1 },
            QuarterArc { cx: 8, cy: 8, radius: 8, quarter: 2 },
        ]
    );
    let left = p.iter().map(|a| a.cx - a.radius).min().unwrap();
    let right = p.iter().map(|a| a.cx + a.radius).max().unwrap();
    let top = p.iter().map(|a| a.cy - a.radius).min().unwrap();
    let bottom = p.iter().map(|a| a.cy + a.radius).max().unwrap();
    assert_eq!((left, top, right, bottom), (0, 0, 145, 40));
    let c = p[3];
    assert!((0 - c.cx) * (0 - c.cx) + (0 - c.cy) * (0 - c.cy) > c.radius * c.radius);
}
