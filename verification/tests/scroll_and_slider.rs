use sickle_ui::drag_interaction::{DragSource, DragState, Draggable};
use sickle_ui::scroll_interaction::{
    update_scrollables, MouseScrollUnit, MouseWheel, Scroll, ScrollAxis, Scrollable,
};
use sickle_ui::scroll_view::{
    update_scroll_view_layout, update_scroll_view_offset, update_scroll_view_on_drag,
    update_scroll_view_on_scroll, BarLayout, ScrollView, ScrollViewLayout, BAR_PADDING, LINE_HEIGHT,
    MIN_BAR_LENGTH,
};
use sickle_ui::slider::{
    update_slider_handle, update_slider_on_drag, update_slider_on_scroll, Slider, SliderAxis,
    SliderConfig,
};
use sickle_ui::units::Vec2;

fn wheel(unit: MouseScrollUnit, x: i64, y: i64) -> MouseWheel {
    MouseWheel { unit, x, y }
}

fn dragging(state: DragState, dx: i64, dy: i64) -> Draggable {
    Draggable {
        state,
        origin: Some(Vec2 { x: 0, y: 0 }),
        position: Some(Vec2 { x: dx, y: dy }),
        diff: Some(Vec2 { x: dx, y: dy }),
        source: DragSource::Mouse,
    }
}

fn view(x: i64, y: i64) -> ScrollView {
    ScrollView { scroll_offset: Vec2 { x, y }, has_horizontal_bar: true, has_vertical_bar: true }
}

#[test]
fn last_wheel_event_counts() {
    let mut scrollable = Scrollable::default();
    assert_eq!(scrollable.last_change(), None);
    let events = vec![
        wheel(MouseScrollUnit::Pixel, 0, 5_000_000),
        wheel(MouseScrollUnit::Line, 0, -1_000_000),
    ];
    assert!(update_scrollables(&events, false, true, &mut scrollable));
    assert_eq!(
        scrollable.last_change(),
        Some(Scroll { axis: ScrollAxis::Vertical, diff: 1_000_000, unit: MouseScrollUnit::Line })
    );
    assert!(!update_scrollables(&vec![], false, true, &mut scrollable));
    assert!(!update_scrollables(&events, false, false, &mut scrollable));
    assert_eq!(scrollable.diff, 1_000_000);
    assert_eq!(ScrollAxis::default(), ScrollAxis::Horizontal);
}

#[test]
fn shift_and_rightward_turns_scroll_horizontally() {
    let mut scrollable = Scrollable::default();
    update_scrollables(&vec![wheel(MouseScrollUnit::Line, 0, 2_000_000)], true, true, &mut scrollable);
    assert_eq!(
        scrollable.last_change(),
        Some(Scroll { axis: ScrollAxis::Horizontal, diff: -2_000_000, unit: MouseScrollUnit::Line })
    );
    update_scrollables(&vec![wheel(MouseScrollUnit::Pixel, 3, 9)], false, true, &mut scrollable);
    assert_eq!(
        scrollable.last_change(),
        Some(Scroll { axis: ScrollAxis::Horizontal, diff: -3, unit: MouseScrollUnit::Pixel })
    );
    update_scrollables(&vec![wheel(MouseScrollUnit::Pixel, -3, 9)], false, true, &mut scrollable);
    assert_eq!(
        scrollable.last_change(),
        Some(Scroll { axis: ScrollAxis::Vertical, diff: 3, unit: MouseScrollUnit::Pixel })
    );
    update_scrollables(&vec![wheel(MouseScrollUnit::Pixel, i64::MIN, 0)], false, true, &mut scrollable);
    assert_eq!(scrollable.diff, i64::MAX);
}

#[test]
fn wheel_scrolls_the_view() {
    assert_eq!(LINE_HEIGHT, 20);
    let mut v = view(10, 10);
    update_scroll_view_on_scroll(
        &mut v,
        Scroll { axis: ScrollAxis::Vertical, diff: 1_500_000, unit: MouseScrollUnit::Line },
    );
    assert_eq!(v.scroll_offset, Vec2 { x: 10, y: 40 });
    update_scroll_view_on_scroll(
        &mut v,
        Scroll { axis: ScrollAxis::Horizontal, diff: -7_500_000, unit: MouseScrollUnit::Pixel },
    );
    assert_eq!(v.scroll_offset, Vec2 { x: 2, y: 40 });
    update_scroll_view_on_scroll(
        &mut v,
        Scroll { axis: ScrollAxis::Vertical, diff: i64::MAX, unit: MouseScrollUnit::Line },
    );
    assert_eq!(v.scroll_offset.y, 40 + 184_467_440_737_095);
}

#[test]
fn bar_drag_scrolls_by_the_ratio_of_overflow_to_room() {
    let mut v = view(0, 0);
    let bar = Vec2 { x: 10, y: 50 };
    let content = Vec2 { x: 300, y: 500 };
    let container = Vec2 { x: 300, y: 200 };
    update_scroll_view_on_drag(&mut v, &dragging(DragState::Dragging, 9, 15), ScrollAxis::Vertical, bar, content, container);
    assert_eq!(v.scroll_offset, Vec2 { x: 0, y: 30 });
    update_scroll_view_on_drag(&mut v, &dragging(DragState::Dragging, 9, -1), ScrollAxis::Vertical, bar, content, container);
    assert_eq!(v.scroll_offset, Vec2 { x: 0, y: 28 });
    update_scroll_view_on_drag(&mut v, &dragging(DragState::Dragging, 9, 15), ScrollAxis::Horizontal, bar, content, container);
    assert_eq!(v.scroll_offset, Vec2 { x: 0, y: 28 });
    update_scroll_view_on_drag(&mut v, &dragging(DragState::MaybeDragged, 9, 15), ScrollAxis::Vertical, bar, content, container);
    assert_eq!(v.scroll_offset, Vec2 { x: 0, y: 28 });
    update_scroll_view_on_drag(&mut v, &dragging(DragState::Dragging, 9, 15), ScrollAxis::Vertical, Vec2 { x: 10, y: 200 }, content, container);
    assert_eq!(v.scroll_offset, Vec2 { x: 0, y: 28 });
}

#[test]
fn offset_is_held_within_the_overflow() {
    let mut v = view(-5, 700);
    update_scroll_view_offset(&mut v, Vec2 { x: 300, y: 200 }, Vec2 { x: 400, y: 500 });
    assert_eq!(v.scroll_offset, Vec2 { x: 0, y: 300 });
    let mut w = view(-5, 700);
    update_scroll_view_offset(&mut w, Vec2 { x: 300, y: 200 }, Vec2 { x: 300, y: 100 });
    assert_eq!(w.scroll_offset, Vec2 { x: -5, y: 700 });
    update_scroll_view_offset(&mut w, Vec2 { x: 0, y: 200 }, Vec2 { x: 400, y: 500 });
    assert_eq!(w.scroll_offset, Vec2 { x: -5, y: 700 });
}

#[test]
fn layout_of_a_scroll_view() {
    assert_eq!(MIN_BAR_LENGTH, 5);
    assert_eq!(BAR_PADDING, 12);
    let v = view(50, 150);
    assert_eq!(
        update_scroll_view_layout(&v, Vec2 { x: 300, y: 200 }, Vec2 { x: 300, y: 500 }),
        Some(ScrollViewLayout {
            content_left: 0,
            content_top: -150,
            vertical_bar: Some(BarLayout { length: 80, offset: 60 }),
            horizontal_bar: None,
            padding_right: 12,
            padding_bottom: 0,
        })
    );
    assert_eq!(
        update_scroll_view_layout(&v, Vec2 { x: 100, y: 200 }, Vec2 { x: 400, y: 100 }),
        Some(ScrollViewLayout {
            content_left: -50,
            content_top: 0,
            vertical_bar: None,
            horizontal_bar: Some(BarLayout { length: 25, offset: 12 }),
            padding_right: 0,
            padding_bottom: 12,
        })
    );
    assert_eq!(
        update_scroll_view_layout(&view(0, 10_000), Vec2 { x: 100, y: 10 }, Vec2 { x: 50, y: 1000 }),
        Some(ScrollViewLayout {
            content_left: 0,
            content_top: -990,
            vertical_bar: Some(BarLayout { length: 5, offset: 5 }),
            horizontal_bar: None,
            padding_right: 12,
            padding_bottom: 0,
        })
    );
    let bare = ScrollView { has_horizontal_bar: false, has_vertical_bar: false, ..view(0, 0) };
    let layout = update_scroll_view_layout(&bare, Vec2 { x: 4, y: 4 }, Vec2 { x: 50, y: 50 }).unwrap();
    assert_eq!(layout.padding_right, 12);
    assert_eq!(layout.padding_bottom, 12);
    assert_eq!(layout.vertical_bar, None);
    assert_eq!(update_scroll_view_layout(&v, Vec2 { x: 4, y: 4 }, Vec2 { x: 50, y: 50 }).unwrap().vertical_bar, None);
    assert_eq!(update_scroll_view_layout(&v, Vec2 { x: 0, y: 200 }, Vec2 { x: 300, y: 500 }), None);
    assert_eq!(update_scroll_view_layout(&v, Vec2 { x: 10, y: -1 }, Vec2 { x: 300, y: 500 }), None);
}

#[test]
fn slider_configuration() {
    let config = SliderConfig::default();
    assert_eq!((config.min, config.max, config.initial_value), (0, 1_000_000, 500_000));
    assert_eq!(SliderAxis::default(), SliderAxis::Horizontal);
    assert_eq!(SliderConfig::checked(5, 5, 5, false, SliderAxis::Vertical), None);
    assert_eq!(SliderConfig::checked(0, 10, 11, false, SliderAxis::Vertical), None);
    assert_eq!(SliderConfig::checked(0, 10, -1, false, SliderAxis::Vertical), None);
    assert_eq!(
        SliderConfig::checked(0, 10, 10, true, SliderAxis::Vertical),
        Some(SliderConfig::vertical(0, 10, 10, true))
    );
    assert_eq!(SliderConfig::horizontal(0, 10, 3, false).axis, SliderAxis::Horizontal);
    assert_eq!(SliderConfig::new(0, 10, 3, false, SliderAxis::Vertical).with_value(7).initial_value, 7);
}

#[test]
fn slider_value_and_ratio() {
    let mut slider = Slider::new(SliderConfig::horizontal(-100, 300, 0, false));
    assert_eq!(slider.ratio, 250_000);
    assert_eq!(slider.value(), 0);
    slider.set_value(300);
    assert_eq!(slider.ratio, 1_000_000);
    assert_eq!(slider.value(), 300);
    slider.set_value(301);
    assert_eq!(slider.ratio, 1_000_000);
    slider.set_value(-101);
    assert_eq!(slider.ratio, 1_000_000);
    slider.set_value(-100);
    assert_eq!(slider.ratio, 0);
    slider.set_value(1);
    assert_eq!(slider.ratio, 252_500);
    assert_eq!(slider.value(), 1);
    let full = Slider::new(SliderConfig::horizontal(i64::MIN, i64::MAX, 0, false));
    assert_eq!(full.ratio, 500_000);
    assert_eq!(Slider::default().ratio, 0);
}

#[test]
fn wheel_moves_the_slider() {
    let mut slider = Slider::default();
    let turn = |diff: i64, unit: MouseScrollUnit, axis: ScrollAxis| Scroll { axis, diff, unit };
    update_slider_on_scroll(&mut slider, turn(-1_000_000, MouseScrollUnit::Line, ScrollAxis::Vertical));
    assert_eq!(slider.ratio, 50_000);
    update_slider_on_scroll(&mut slider, turn(-1_000_000, MouseScrollUnit::Pixel, ScrollAxis::Vertical));
    assert_eq!(slider.ratio, 60_000);
    update_slider_on_scroll(&mut slider, turn(-1_000_000, MouseScrollUnit::Pixel, ScrollAxis::Horizontal));
    assert_eq!(slider.ratio, 60_000);
    update_slider_on_scroll(&mut slider, turn(30_000_000, MouseScrollUnit::Pixel, ScrollAxis::Vertical));
    assert_eq!(slider.ratio, 0);
    update_slider_on_scroll(&mut slider, turn(i64::MIN, MouseScrollUnit::Line, ScrollAxis::Vertical));
    assert_eq!(slider.ratio, 1_000_000);
}

#[test]
fn drag_moves_the_slider() {
    let bar = Vec2 { x: 220, y: 120 };
    let handle = Vec2 { x: 20, y: 20 };
    let mut slider = Slider::new(SliderConfig::horizontal(0, 100, 50, false));
    update_slider_on_drag(&mut slider, &dragging(DragState::DragStart, 20, 99), bar, handle);
    assert_eq!(slider.base_ratio, Some(500_000));
    assert_eq!(slider.ratio, 600_000);
    update_slider_on_drag(&mut slider, &dragging(DragState::Dragging, -50, 0), bar, handle);
    assert_eq!(slider.ratio, 350_000);
    update_slider_on_drag(&mut slider, &dragging(DragState::Dragging, 0, 50), bar, handle);
    assert_eq!(slider.ratio, 350_000);
    update_slider_on_drag(&mut slider, &dragging(DragState::Dragging, 1000, 0), bar, handle);
    assert_eq!(slider.ratio, 1_000_000);
    update_slider_on_drag(&mut slider, &dragging(DragState::MaybeDragged, -50, 0), bar, handle);
    assert_eq!(slider.ratio, 1_000_000);
    update_slider_on_drag(&mut slider, &dragging(DragState::DragCanceled, -50, 0), bar, handle);
    assert_eq!(slider.ratio, 500_000);
    update_slider_on_drag(&mut slider, &dragging(DragState::Dragging, 5, 0), handle, handle);
    assert_eq!(slider.ratio, 500_000);

    let mut upright = Slider::new(SliderConfig::vertical(0, 100, 50, false));
    update_slider_on_drag(&mut upright, &dragging(DragState::Dragging, 7, -25), bar, handle);
    assert_eq!(upright.ratio, 750_000);
    update_slider_on_drag(&mut upright, &dragging(DragState::DragCanceled, 7, -25), bar, handle);
    assert_eq!(upright.ratio, 1_000_000);
    update_slider_on_drag(&mut upright, &dragging(DragState::DragEnd, 7, 30), bar, handle);
    assert_eq!(upright.ratio, 700_000);
}

#[test]
fn handle_lies_at_the_ratio() {
    let bar = Vec2 { x: 220, y: 120 };
    let handle = Vec2 { x: 20, y: 20 };
    let mut slider = Slider::new(SliderConfig::horizontal(0, 100, 25, false));
    assert_eq!(update_slider_handle(&slider, bar, handle), 50);
    slider.config.axis = SliderAxis::Vertical;
    assert_eq!(update_slider_handle(&slider, bar, handle), 75);
    slider.ratio = 2_000_000;
    assert_eq!(update_slider_handle(&slider, bar, handle), 0);
}
