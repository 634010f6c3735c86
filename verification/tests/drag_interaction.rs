use sickle_ui::drag_interaction::{
    update_cursor_confinement_from_drag, update_drag_progress, update_drag_state, CursorGrabMode,
    DragSource, DragState, Draggable,
};
use sickle_ui::flux_interaction::FluxInteraction;
use sickle_ui::units::Vec2;

fn at(x: i64, y: i64) -> Option<Vec2> {
    Some(Vec2 { x, y })
}

fn in_state(state: DragState) -> Draggable {
    Draggable { state, ..Draggable::default() }
}

#[test]
fn default_gesture_is_inactive() {
    let d = Draggable::default();
    assert_eq!(d.state, DragState::Inactive);
    assert_eq!(d.origin, None);
    assert_eq!(d.position, None);
    assert_eq!(d.diff, None);
    assert_eq!(d.source, DragSource::Mouse);
    assert_eq!(DragState::default(), DragState::Inactive);
    assert_eq!(DragSource::default(), DragSource::Mouse);
}

#[test]
fn press_records_the_mouse_as_origin() {
    let mut d = Draggable::default();
    update_drag_state(&mut d, FluxInteraction::Pressed, at(10, 20), Some((7, Vec2 { x: 1, y: 1 })));
    assert_eq!(
        d,
        Draggable {
            state: DragState::MaybeDragged,
            origin: at(10, 20),
            position: at(10, 20),
            diff: at(0, 0),
            source: DragSource::Mouse,
        }
    );
}

#[test]
fn press_without_cursor_records_the_first_touch() {
    let mut d = Draggable::default();
    update_drag_state(&mut d, FluxInteraction::Pressed, None, Some((7, Vec2 { x: 3, y: 4 })));
    assert_eq!(d.state, DragState::MaybeDragged);
    assert_eq!(d.source, DragSource::Touch(7));
    assert_eq!(d.origin, at(3, 4));
}

#[test]
fn press_without_any_pointer_is_skipped() {
    let mut d = Draggable::default();
    update_drag_state(&mut d, FluxInteraction::Pressed, None, None);
    assert_eq!(d, Draggable::default());
}

#[test]
fn drag_start_lasts_exactly_one_tick() {
    let mut d = Draggable::default();
    update_drag_state(&mut d, FluxInteraction::Pressed, at(0, 0), None);
    assert!(!update_drag_progress(&mut d, FluxInteraction::Pressed, at(0, 0), false));
    assert_eq!(d.state, DragState::MaybeDragged);

    assert!(update_drag_progress(&mut d, FluxInteraction::Pressed, at(5, 0), false));
    assert_eq!(d.state, DragState::DragStart);
    assert_eq!(d.position, at(5, 0));
    assert_eq!(d.diff, at(5, 0));
    assert_eq!(d.origin, at(0, 0));

    assert!(update_drag_progress(&mut d, FluxInteraction::Pressed, at(5, 0), false));
    assert_eq!(d.state, DragState::Dragging);
    assert_eq!(d.diff, at(5, 0));

    assert!(update_drag_progress(&mut d, FluxInteraction::Pressed, at(4, 9), false));
    assert_eq!(d.state, DragState::Dragging);
    assert_eq!(d.diff, at(-1, 9));

    assert!(!update_drag_progress(&mut d, FluxInteraction::Pressed, at(4, 9), false));
    assert_eq!(d.state, DragState::Dragging);

    let mut starts = 0;
    let mut g = Draggable::default();
    update_drag_state(&mut g, FluxInteraction::Pressed, at(0, 0), None);
    for x in 1..6 {
        update_drag_progress(&mut g, FluxInteraction::Pressed, at(x, 0), false);
        if g.state == DragState::DragStart {
            starts += 1;
        }
    }
    assert_eq!(starts, 1);
    assert_eq!(g.state, DragState::Dragging);
}

#[test]
fn release_ends_a_started_drag_and_drops_an_unstarted_one() {
    let mut d = Draggable::default();
    update_drag_state(&mut d, FluxInteraction::Pressed, at(0, 0), None);
    update_drag_state(&mut d, FluxInteraction::Released, at(0, 0), None);
    assert_eq!(d.state, DragState::Inactive);
    assert_eq!(d.origin, None);
    assert_eq!(d.position, None);
    assert_eq!(d.diff, at(0, 0));

    update_drag_state(&mut d, FluxInteraction::Pressed, at(0, 0), None);
    update_drag_progress(&mut d, FluxInteraction::Pressed, at(1, 1), false);
    update_drag_state(&mut d, FluxInteraction::PressCanceled, at(1, 1), None);
    assert_eq!(d.state, DragState::DragEnd);
    assert_eq!(d.position, at(1, 1));
    assert!(update_drag_progress(&mut d, FluxInteraction::PressCanceled, at(1, 1), false));
    assert_eq!(d.state, DragState::Inactive);
    assert_eq!(d.position, None);
    assert_eq!(d.diff, at(0, 0));
}

#[test]
fn escape_cancels_only_a_started_drag() {
    let mut d = Draggable::default();
    update_drag_state(&mut d, FluxInteraction::Pressed, at(0, 0), None);
    update_drag_progress(&mut d, FluxInteraction::Pressed, at(0, 0), true);
    assert_eq!(d.state, DragState::MaybeDragged);
    update_drag_progress(&mut d, FluxInteraction::Pressed, at(2, 0), false);
    assert_eq!(d.state, DragState::DragStart);
    assert!(update_drag_progress(&mut d, FluxInteraction::Pressed, at(3, 0), true));
    assert_eq!(d.state, DragState::DragCanceled);
    assert_eq!(d.position, None);
    assert_eq!(d.origin, None);
    assert_eq!(d.diff, at(0, 0));
    assert!(update_drag_progress(&mut d, FluxInteraction::Pressed, at(3, 0), false));
    assert_eq!(d.state, DragState::Inactive);
}

#[test]
fn unpressed_element_does_not_follow_the_pointer() {
    let mut d = Draggable::default();
    update_drag_state(&mut d, FluxInteraction::Pressed, at(0, 0), None);
    assert!(!update_drag_progress(&mut d, FluxInteraction::PointerLeave, at(9, 9), false));
    assert_eq!(d.state, DragState::MaybeDragged);
    assert_eq!(d.position, at(0, 0));
    assert!(!update_drag_progress(&mut d, FluxInteraction::Pressed, None, false));
    assert_eq!(d.position, at(0, 0));
}

#[test]
fn clear_forgets_positions() {
    let mut d = Draggable {
        state: DragState::Dragging,
        origin: at(1, 1),
        position: at(2, 2),
        diff: at(1, 1),
        source: DragSource::Touch(3),
    };
    d.clear();
    assert_eq!(d.origin, None);
    assert_eq!(d.position, None);
    assert_eq!(d.diff, at(0, 0));
    assert_eq!(d.state, DragState::Dragging);
    assert_eq!(d.source, DragSource::Touch(3));
}

#[test]
fn far_apart_positions_saturate_the_delta() {
    let mut d = Draggable::default();
    update_drag_state(&mut d, FluxInteraction::Pressed, at(i64::MIN, 0), None);
    update_drag_progress(&mut d, FluxInteraction::Pressed, at(i64::MAX, 0), false);
    assert_eq!(d.diff, at(i64::MAX, 0));
}

#[test]
fn cursor_is_confined_while_a_drag_starts() {
    assert_eq!(update_cursor_confinement_from_drag(&vec![]), None);
    assert_eq!(
        update_cursor_confinement_from_drag(&vec![in_state(DragState::Dragging), in_state(DragState::Inactive)]),
        None
    );
    assert_eq!(
        update_cursor_confinement_from_drag(&vec![in_state(DragState::DragEnd), in_state(DragState::DragStart)]),
        Some(CursorGrabMode::Confined)
    );
    assert_eq!(
        update_cursor_confinement_from_drag(&vec![in_state(DragState::Dragging), in_state(DragState::DragEnd)]),
        Some(CursorGrabMode::Free)
    );
    assert_eq!(
        update_cursor_confinement_from_drag(&vec![in_state(DragState::DragCanceled)]),
        Some(CursorGrabMode::Free)
    );
}
