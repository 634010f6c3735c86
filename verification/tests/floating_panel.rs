use sickle_ui::drag_interaction::{DragSource, DragState, Draggable};
use sickle_ui::floating_panel::{
    clip_position_change, handle_window_resize, index_floating_panel, process_panel_fold_pressed,
    update_floating_panel_panel_id, update_panel_layout, update_panel_on_title_drag,
    update_panel_size_on_resize, FloatingPanel, FloatingPanelConfig, FloatingPanelLayout,
    PanelLayout, TitleDrag, MIN_FLOATING_PANEL_Z_INDEX, MIN_PANEL_HEIGHT, MIN_PANEL_WIDTH,
    PRIORITY_FLOATING_PANEL_Z_INDEX, WINDOW_RESIZE_PADDING,
};
use sickle_ui::resize_interaction::ResizeDirection;
use sickle_ui::style::Val;
use sickle_ui::units::{Entity, Vec2};

fn panel(w: i64, h: i64, x: i64, y: i64) -> FloatingPanel {
    FloatingPanel { size: Vec2 { x: w, y: h }, position: Vec2 { x, y }, ..FloatingPanel::default() }
}

fn stacked(z: Option<usize>) -> FloatingPanel {
    FloatingPanel { z_index: z, ..FloatingPanel::default() }
}

fn drag(state: DragState, dx: i64, dy: i64) -> Draggable {
    Draggable {
        state,
        origin: Some(Vec2 { x: 0, y: 0 }),
        position: Some(Vec2 { x: dx, y: dy }),
        diff: Some(Vec2 { x: dx, y: dy }),
        source: DragSource::Mouse,
    }
}

fn z_of(panels: &Vec<FloatingPanel>) -> Vec<Option<usize>> {
    panels.iter().map(|p| p.z_index).collect()
}

#[test]
fn panel_constants_and_defaults() {
    assert_eq!(MIN_PANEL_WIDTH, 150);
    assert_eq!(MIN_PANEL_HEIGHT, 100);
    assert_eq!(MIN_FLOATING_PANEL_Z_INDEX, 1000);
    assert_eq!(PRIORITY_FLOATING_PANEL_Z_INDEX, 10000);
    assert_eq!(WINDOW_RESIZE_PADDING, 20);
    assert_eq!(FloatingPanelLayout::default().size, Vec2 { x: 300, y: 500 });
    assert_eq!(FloatingPanelLayout::min().size, Vec2 { x: 150, y: 100 });
    let config = FloatingPanelConfig::default();
    assert!(config.draggable && config.resizable && config.foldable && config.closable);
    assert!(!config.folded && !config.has_title);
    assert_eq!(FloatingPanel::default().content_panel_id(), Entity::placeholder());
}

#[test]
fn clip_position_change_cases() {
    assert_eq!(clip_position_change(-30, 150, 140, 110), 0);
    assert_eq!(clip_position_change(30, 150, 170, 140), 20);
    assert_eq!(clip_position_change(-30, 150, 140, 170), -20);
    assert_eq!(clip_position_change(-30, 150, 200, 230), -30);
    assert_eq!(clip_position_change(7, 150, 150, 150), 0);
    assert_eq!(clip_position_change(i64::MIN, 0, 1, -5), i64::MIN);
}

#[test]
fn east_handle_grows_without_moving() {
    let mut p = panel(300, 200, 10, 10);
    update_panel_size_on_resize(&drag(DragState::Dragging, 40, 9), ResizeDirection::East, &mut p, false);
    assert_eq!(p.size, Vec2 { x: 340, y: 200 });
    assert_eq!(p.position, Vec2 { x: 10, y: 10 });
    assert!(p.resizing);
}

#[test]
fn north_west_handle_moves_the_corner() {
    let mut p = panel(300, 200, 100, 100);
    update_panel_size_on_resize(&drag(DragState::Dragging, -40, -10), ResizeDirection::NorthWest, &mut p, false);
    assert_eq!(p.size, Vec2 { x: 340, y: 210 });
    assert_eq!(p.position, Vec2 { x: 60, y: 90 });
}

#[test]
fn west_handle_stops_moving_at_the_least_width() {
    let mut p = panel(200, 200, 100, 100);
    update_panel_size_on_resize(&drag(DragState::Dragging, 80, 0), ResizeDirection::West, &mut p, false);
    assert_eq!(p.size, Vec2 { x: 120, y: 200 });
    assert_eq!(p.position, Vec2 { x: 150, y: 100 });
    update_panel_size_on_resize(&drag(DragState::Dragging, 10, 0), ResizeDirection::West, &mut p, false);
    assert_eq!(p.size, Vec2 { x: 110, y: 200 });
    assert_eq!(p.position, Vec2 { x: 150, y: 100 });
    update_panel_size_on_resize(&drag(DragState::DragEnd, 0, 0), ResizeDirection::West, &mut p, false);
    assert_eq!(p.size, Vec2 { x: 150, y: 200 });
    assert_eq!(p.position, Vec2 { x: 150, y: 100 });
}

#[test]
fn idle_gesture_ends_the_resize() {
    let mut p = panel(300, 200, 10, 10);
    p.resizing = true;
    update_panel_size_on_resize(&drag(DragState::Inactive, 40, 9), ResizeDirection::East, &mut p, false);
    assert_eq!(p, panel(300, 200, 10, 10));
    let mut q = panel(300, 200, 10, 10);
    update_panel_size_on_resize(&drag(DragState::Dragging, 40, 9), ResizeDirection::East, &mut q, true);
    assert_eq!(q, panel(300, 200, 10, 10));
    let mut without = drag(DragState::Dragging, 40, 9);
    without.diff = None;
    update_panel_size_on_resize(&without, ResizeDirection::East, &mut q, false);
    assert_eq!(q, panel(300, 200, 10, 10));
}

#[test]
fn new_panels_are_stacked_on_top() {
    let mut panels = vec![stacked(None), stacked(Some(1005)), stacked(None), stacked(Some(1002))];
    index_floating_panel(&mut panels);
    assert_eq!(z_of(&panels), vec![Some(2006), Some(1005), Some(2007), Some(1002)]);
    let mut fresh = vec![stacked(None)];
    index_floating_panel(&mut fresh);
    assert_eq!(z_of(&fresh), vec![Some(1001)]);
    let mut huge = vec![stacked(Some(usize::MAX)), stacked(None)];
    index_floating_panel(&mut huge);
    assert_eq!(z_of(&huge), vec![Some(usize::MAX), Some(usize::MAX)]);
}

#[test]
fn dragged_panel_rises_and_indices_are_renumbered() {
    let mut panels = vec![stacked(Some(1001)), stacked(Some(1002)), stacked(Some(1003))];
    let drags = vec![TitleDrag { draggable: drag(DragState::Dragging, 5, -5), panel: 0 }];
    update_panel_on_title_drag(&drags, &mut panels);
    assert_eq!(z_of(&panels), vec![Some(1003), Some(1001), Some(1002)]);
    assert_eq!(panels[0].position, Vec2 { x: 5, y: -5 });
    assert!(panels[0].moving);
    assert!(!panels[1].moving);
}

#[test]
fn renumbering_is_stable_for_level_panels() {
    let mut panels = vec![stacked(Some(7)), stacked(None), stacked(Some(7)), stacked(None)];
    let drags = vec![TitleDrag { draggable: drag(DragState::Dragging, 1, 1), panel: 3 }];
    update_panel_on_title_drag(&drags, &mut panels);
    assert_eq!(z_of(&panels), vec![Some(1002), Some(1001), Some(1003), Some(1004)]);
}

#[test]
fn title_drag_without_movement_changes_only_flags() {
    let mut panels = vec![stacked(Some(1001)), stacked(Some(1005))];
    panels[1].moving = true;
    let drags = vec![
        TitleDrag { draggable: drag(DragState::Inactive, 5, 5), panel: 1 },
        TitleDrag { draggable: drag(DragState::Dragging, 5, 5), panel: 9 },
    ];
    update_panel_on_title_drag(&drags, &mut panels);
    assert_eq!(z_of(&panels), vec![Some(1001), Some(1005)]);
    assert!(!panels[1].moving);

    let mut resizing = vec![stacked(Some(1001))];
    resizing[0].resizing = true;
    update_panel_on_title_drag(
        &vec![TitleDrag { draggable: drag(DragState::Dragging, 5, 5), panel: 0 }],
        &mut resizing,
    );
    assert_eq!(resizing[0].position, Vec2 { x: 0, y: 0 });
    assert!(!resizing[0].moving);

    let mut priority = vec![stacked(Some(1001)), stacked(Some(1002))];
    priority[1].priority = true;
    update_panel_on_title_drag(
        &vec![TitleDrag { draggable: drag(DragState::Dragging, 5, 5), panel: 0 }],
        &mut priority,
    );
    assert_eq!(priority[0].position, Vec2 { x: 0, y: 0 });
}

#[test]
fn two_drags_rise_in_order() {
    let mut panels = vec![stacked(Some(1001)), stacked(Some(1002)), stacked(Some(1003))];
    let drags = vec![
        TitleDrag { draggable: drag(DragState::Dragging, 1, 0), panel: 1 },
        TitleDrag { draggable: drag(DragState::DragEnd, 2, 0), panel: 0 },
    ];
    update_panel_on_title_drag(&drags, &mut panels);
    assert_eq!(z_of(&panels), vec![Some(1003), Some(1002), Some(1001)]);
    assert_eq!(panels[0].position, Vec2 { x: 2, y: 0 });
    assert_eq!(panels[1].position, Vec2 { x: 1, y: 0 });
}

#[test]
fn layout_of_a_panel() {
    let mut p = panel(100, 400, 5, 6);
    p.z_index = Some(1003);
    let config = FloatingPanelConfig::default();
    assert_eq!(
        update_panel_layout(&p, &config),
        PanelLayout {
            render_resize_handles: true,
            pass_focus: false,
            title_enabled: true,
            buttons_enabled: true,
            width: Val::Px(150),
            height: Val::Px(400),
            position: Vec2 { x: 5, y: 6 },
            z_index: Some(1003),
        }
    );
    p.moving = true;
    p.priority = true;
    let mut folded = config;
    process_panel_fold_pressed(&mut folded);
    assert!(folded.folded);
    assert_eq!(
        update_panel_layout(&p, &folded),
        PanelLayout {
            render_resize_handles: false,
            pass_focus: true,
            title_enabled: true,
            buttons_enabled: false,
            width: Val::Auto,
            height: Val::Auto,
            position: Vec2 { x: 5, y: 6 },
            z_index: Some(10000),
        }
    );
    process_panel_fold_pressed(&mut folded);
    assert!(!folded.folded);
    p.moving = false;
    p.resizing = true;
    let layout = update_panel_layout(&p, &config);
    assert!(!layout.title_enabled);
    assert!(!layout.buttons_enabled);
    assert!(layout.render_resize_handles);
}

#[test]
fn window_resize_pulls_the_panel_back() {
    let mut p = panel(300, 200, 900, 100);
    handle_window_resize(&mut p, Vec2 { x: 900, y: 100 }, Vec2 { x: 800, y: 600 });
    assert_eq!(p.position, Vec2 { x: 620, y: 100 });

    let mut q = panel(300, 200, 900, 500);
    handle_window_resize(&mut q, Vec2 { x: 900, y: 500 }, Vec2 { x: 800, y: 600 });
    assert_eq!(q.position, Vec2 { x: 620, y: 400 });

    let mut r = panel(300, 200, 100, 590);
    handle_window_resize(&mut r, Vec2 { x: 100, y: 590 }, Vec2 { x: 800, y: 600 });
    assert_eq!(r.position, Vec2 { x: 100, y: 410 });

    let mut s = panel(300, 200, 790, 590);
    handle_window_resize(&mut s, Vec2 { x: 790, y: 590 }, Vec2 { x: 800, y: 600 });
    assert_eq!(s.position, Vec2 { x: 220, y: 220 });

    let mut inside = panel(300, 200, 100, 100);
    handle_window_resize(&mut inside, Vec2 { x: 100, y: 100 }, Vec2 { x: 800, y: 600 });
    assert_eq!(inside.position, Vec2 { x: 100, y: 100 });

    let mut tiny = panel(300, 200, 50, 50);
    handle_window_resize(&mut tiny, Vec2 { x: 50, y: 50 }, Vec2 { x: 10, y: 10 });
    assert_eq!(tiny.position, Vec2 { x: 0, y: 0 });
}

#[test]
fn panel_content_is_replaced_once() {
    let mut p = FloatingPanel { content_panel: Entity(4), ..FloatingPanel::default() };
    assert_eq!(update_floating_panel_panel_id(&mut p, Entity(4)), None);
    assert_eq!(update_floating_panel_panel_id(&mut p, Entity(5)), Some(Entity(4)));
    assert_eq!(p.content_panel_id(), Entity(5));
}
