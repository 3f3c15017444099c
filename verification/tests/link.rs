use link_widget::theme::link_hot_color;
use link_widget::{
    Action, Color, ControllerHost, ExClick, Key, KeyOrValue, Length, LifeCycle, Link, LinkExt,
    Point, Size,
};

#[test]
fn new_holds_the_child() {
    let link = Link::new(41u32);
    assert_eq!(*link.inner(), 41);
    assert_eq!(link.into_inner(), 41);
}

#[test]
fn inner_mut_changes_the_child_only() {
    let mut link = Link::new(1u32).circle();
    *link.inner_mut() = 2;
    assert_eq!(*link.inner(), 2);
    assert_eq!(*link.corner_radius(), KeyOrValue::Concrete(Length::from_points(64)));
}

#[test]
fn border_sets_colour_and_width() {
    let red = Color::rgb8(255, 0, 0);
    let link = Link::new(()).rounded(Length::from_points(5)).border(red, Length::from_points(3));
    assert_eq!(*link.border_color(), KeyOrValue::Concrete(red));
    assert_eq!(*link.border_width(), KeyOrValue::Concrete(Length::from_points(3)));
    assert_eq!(*link.corner_radius(), KeyOrValue::Concrete(Length::from_points(5)));
}

#[test]
fn set_border_sets_colour_and_width() {
    let mut link = Link::new(());
    link.set_border(Key::new("edge"), Key::new("thick"));
    assert_eq!(*link.border_color(), KeyOrValue::Key(Key::new("edge")));
    assert_eq!(*link.border_width(), KeyOrValue::Key(Key::new("thick")));
    assert_eq!(*link.corner_radius(), KeyOrValue::Concrete(Length::zero()));
}

#[test]
fn circle_sets_radius_to_64() {
    let link = Link::new(()).circle();
    assert_eq!(*link.corner_radius(), KeyOrValue::Concrete(Length::new(64, 0)));
}

#[test]
fn circle_overrides_an_earlier_radius() {
    let link = Link::new(()).rounded(Length::from_points(3)).circle();
    assert_eq!(*link.corner_radius(), KeyOrValue::Concrete(Length::new(64, 0)));
    let link = Link::new(()).rounded(Key::new("round")).circle();
    assert_eq!(*link.corner_radius(), KeyOrValue::Concrete(Length::new(64, 0)));
}

#[test]
fn circle_keeps_the_border() {
    let red = Color::rgb8(255, 0, 0);
    let link = Link::new(7u8).border(red, Length::from_points(3)).circle();
    assert_eq!(*link.border_color(), KeyOrValue::Concrete(red));
    assert_eq!(*link.border_width(), KeyOrValue::Concrete(Length::from_points(3)));
    assert_eq!(*link.inner(), 7);
}

#[test]
fn rounded_sets_the_radius() {
    let link = Link::new(()).circle().rounded(Length::new(9, 1));
    assert_eq!(*link.corner_radius(), KeyOrValue::Concrete(Length::new(9, 1)));
}

#[test]
fn set_rounded_sets_the_radius() {
    let mut link = Link::new(());
    link.set_rounded(Key::new("round"));
    assert_eq!(*link.corner_radius(), KeyOrValue::Key(Key::new("round")));
    assert_eq!(*link.border_color(), KeyOrValue::Key(link_hot_color()));
}

#[test]
fn event_is_forwarded() {
    assert_eq!(Link::new(()).event(), vec![Action::Forward]);
}

#[test]
fn update_is_forwarded() {
    assert_eq!(Link::new(()).update(), vec![Action::Forward]);
}

#[test]
fn hot_changed_requests_one_repaint() {
    let link = Link::new(());
    for now_hot in [true, false] {
        assert_eq!(
            link.lifecycle(&LifeCycle::HotChanged(now_hot)),
            vec![Action::RequestPaint, Action::Forward]
        );
    }
}

#[test]
fn other_lifecycle_signals_request_no_repaint() {
    let link = Link::new(());
    let others = [
        LifeCycle::WidgetAdded,
        LifeCycle::Size,
        LifeCycle::DisabledChanged(true),
        LifeCycle::DisabledChanged(false),
        LifeCycle::BuildFocusChain,
        LifeCycle::FocusChanged(true),
        LifeCycle::FocusChanged(false),
        LifeCycle::ViewContextChanged,
        LifeCycle::Internal,
    ];
    for event in others {
        assert!(!event.is_hot_changed());
        assert_eq!(link.lifecycle(&event), vec![Action::Forward]);
    }
}

#[test]
fn layout_takes_the_size_of_the_child() {
    let link = Link::new(()).border(Color::rgb8(0, 0, 0), Length::from_points(10));
    let child = Size::new(Length::from_points(100), Length::from_points(30));
    let layout = link.layout(child);
    assert_eq!(layout.size, child);
    assert_eq!(layout.child_origin, Point::new(Length::zero(), Length::zero()));
    assert_eq!(layout.child_origin, Point::origin());
}

#[test]
fn layout_keeps_fractions_of_a_point() {
    let link = Link::new(());
    let child = Size::new(Length::new(-3, 2), Length::new(i64::MAX, u32::MAX));
    assert_eq!(link.layout(child).size, child);
}

#[test]
fn link_wraps_any_value() {
    let link = "label".link();
    assert_eq!(*link.inner(), "label");
    assert_eq!(*link.border_color(), KeyOrValue::Key(link_hot_color()));
    assert_eq!(*link.border_width(), KeyOrValue::Concrete(Length::zero()));
    assert_eq!(*link.corner_radius(), KeyOrValue::Concrete(Length::zero()));
}

#[test]
fn on_ex_click_keeps_widget_and_handler() {
    let host: ControllerHost<&str, ExClick<fn(u8) -> u8>> = "label".on_ex_click(twice as fn(u8) -> u8);
    assert_eq!(host.widget, "label");
    assert_eq!((host.controller.action)(21), 42);
}

fn twice(x: u8) -> u8 {
    2 * x
}
