use sickle_ui::flux_interaction::FluxInteraction;
use sickle_ui::resize_interaction::{
    update_cursor_on_resize_handles, CursorIcon, ResizeDirection, ResizeHandle,
};
use sickle_ui::units::Vec2;

fn handle(direction: ResizeDirection, flux: FluxInteraction) -> (ResizeHandle, FluxInteraction) {
    (ResizeHandle { direction }, flux)
}

#[test]
fn size_diff_follows_the_side_of_the_handle() {
    let drag = Vec2 { x: 3, y: -5 };
    assert_eq!(ResizeDirection::North.to_size_diff(drag), Vec2 { x: 0, y: 5 });
    assert_eq!(ResizeDirection::NorthEast.to_size_diff(drag), Vec2 { x: 3, y: 5 });
    assert_eq!(ResizeDirection::East.to_size_diff(drag), Vec2 { x: 3, y: 0 });
    assert_eq!(ResizeDirection::SouthEast.to_size_diff(drag), Vec2 { x: 3, y: -5 });
    assert_eq!(ResizeDirection::South.to_size_diff(drag), Vec2 { x: 0, y: -5 });
    assert_eq!(ResizeDirection::SouthWest.to_size_diff(drag), Vec2 { x: -3, y: -5 });
    assert_eq!(ResizeDirection::West.to_size_diff(drag), Vec2 { x: -3, y: 0 });
    assert_eq!(ResizeDirection::NorthWest.to_size_diff(drag), Vec2 { x: -3, y: 5 });
    assert_eq!(
        ResizeDirection::West.to_size_diff(Vec2 { x: i64::MIN, y: 0 }),
        Vec2 { x: i64::MAX, y: 0 }
    );
}

#[test]
fn cursors_point_along_the_direction() {
    assert_eq!(ResizeDirection::North.cursor(), CursorIcon::NResize);
    assert_eq!(ResizeDirection::NorthEast.cursor(), CursorIcon::NeResize);
    assert_eq!(ResizeDirection::East.cursor(), CursorIcon::EResize);
    assert_eq!(ResizeDirection::SouthEast.cursor(), CursorIcon::SeResize);
    assert_eq!(ResizeDirection::South.cursor(), CursorIcon::SResize);
    assert_eq!(ResizeDirection::SouthWest.cursor(), CursorIcon::SwResize);
    assert_eq!(ResizeDirection::West.cursor(), CursorIcon::WResize);
    assert_eq!(ResizeDirection::NorthWest.cursor(), CursorIcon::NwResize);
    assert_eq!(ResizeDirection::default(), ResizeDirection::North);
    assert_eq!(ResizeHandle::default().direction(), ResizeDirection::North);
    assert_eq!(ResizeHandle::resize_zone_size(), 4);
    assert_eq!(ResizeHandle::resize_zone_pullback(), 2);
}

#[test]
fn hovered_handle_shows_its_cursor() {
    let mut locked = false;
    let handles = vec![
        handle(ResizeDirection::East, FluxInteraction::PointerEnter),
        handle(ResizeDirection::North, FluxInteraction::Idle),
    ];
    assert_eq!(update_cursor_on_resize_handles(&handles, &mut locked), Some(CursorIcon::EResize));
    assert!(!locked);
}

#[test]
fn two_active_handles_show_the_move_cursor() {
    let mut locked = false;
    let handles = vec![
        handle(ResizeDirection::East, FluxInteraction::PointerEnter),
        handle(ResizeDirection::North, FluxInteraction::Pressed),
    ];
    assert_eq!(update_cursor_on_resize_handles(&handles, &mut locked), Some(CursorIcon::Move));
    assert!(locked);
}

#[test]
fn press_locks_and_release_unlocks() {
    let mut locked = false;
    let pressed = vec![handle(ResizeDirection::South, FluxInteraction::Pressed)];
    assert_eq!(update_cursor_on_resize_handles(&pressed, &mut locked), Some(CursorIcon::SResize));
    assert!(locked);

    let entering = vec![
        handle(ResizeDirection::South, FluxInteraction::Pressed),
        handle(ResizeDirection::West, FluxInteraction::PointerEnter),
    ];
    assert_eq!(update_cursor_on_resize_handles(&entering, &mut locked), Some(CursorIcon::SResize));

    let leaving = vec![handle(ResizeDirection::West, FluxInteraction::PointerLeave)];
    assert_eq!(update_cursor_on_resize_handles(&leaving, &mut locked), None);
    assert!(locked);

    let released = vec![handle(ResizeDirection::South, FluxInteraction::Released)];
    assert_eq!(update_cursor_on_resize_handles(&released, &mut locked), Some(CursorIcon::Default));
    assert!(!locked);

    let mut again = true;
    let canceled = vec![
        handle(ResizeDirection::South, FluxInteraction::PressCanceled),
        handle(ResizeDirection::West, FluxInteraction::PointerEnter),
    ];
    assert_eq!(update_cursor_on_resize_handles(&canceled, &mut again), Some(CursorIcon::WResize));
    assert!(!again);
}

#[test]
fn leaving_restores_the_default_cursor() {
    let mut locked = false;
    let handles = vec![handle(ResizeDirection::West, FluxInteraction::PointerLeave)];
    assert_eq!(update_cursor_on_resize_handles(&handles, &mut locked), Some(CursorIcon::Default));
    let both = vec![
        handle(ResizeDirection::East, FluxInteraction::PointerEnter),
        handle(ResizeDirection::West, FluxInteraction::PointerLeave),
    ];
    assert_eq!(update_cursor_on_resize_handles(&both, &mut locked), Some(CursorIcon::EResize));
    assert_eq!(update_cursor_on_resize_handles(&vec![], &mut locked), None);
}
