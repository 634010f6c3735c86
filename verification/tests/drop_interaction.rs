use sickle_ui::drag_interaction::{DragSource, DragState, Draggable};
use sickle_ui::drop_interaction::{
    should_update_drop_zones, update_drop_zone_single_frame_state, update_drop_zones, DropPhase,
    DropZone, DropZoneTarget,
};
use sickle_ui::units::{Entity, Vec2};

fn gesture(state: DragState) -> Draggable {
    Draggable {
        state,
        origin: Some(Vec2 { x: 0, y: 0 }),
        position: Some(Vec2 { x: 40, y: 50 }),
        diff: Some(Vec2 { x: 1, y: 1 }),
        source: DragSource::Mouse,
    }
}

fn target(id: u64, hovered: bool, stack_index: u32, phase: DropPhase) -> DropZoneTarget {
    DropZoneTarget {
        entity: Entity(id),
        hovered,
        stack_index,
        zone: DropZone { drop_phase: phase, incoming_droppable: None, position: None },
    }
}

fn phases(targets: &Vec<DropZoneTarget>) -> Vec<DropPhase> {
    targets.iter().map(|t| t.zone.drop_phase()).collect()
}

#[test]
fn top_most_zone_receives_the_droppable() {
    let droppables = vec![(Entity(100), gesture(DragState::Dragging))];
    let mut targets = vec![
        target(1, true, 3, DropPhase::Inactive),
        target(2, true, 7, DropPhase::Inactive),
    ];
    update_drop_zones(&droppables, &mut targets);
    assert_eq!(phases(&targets), vec![DropPhase::Inactive, DropPhase::DroppableEntered]);
    assert_eq!(targets[1].zone.incoming_droppable(), Some(Entity(100)));
    assert_eq!(targets[1].zone.position(), Some(Vec2 { x: 40, y: 50 }));
    assert_eq!(targets[0].zone, DropZone::default());

    let mut reversed = vec![
        target(2, true, 7, DropPhase::Inactive),
        target(1, true, 3, DropPhase::Inactive),
    ];
    update_drop_zones(&droppables, &mut reversed);
    assert_eq!(phases(&reversed), vec![DropPhase::DroppableEntered, DropPhase::Inactive]);
}

#[test]
fn last_of_equal_stacking_indices_wins() {
    let droppables = vec![(Entity(100), gesture(DragState::Dragging))];
    let mut targets = vec![
        target(1, true, 5, DropPhase::Inactive),
        target(2, true, 5, DropPhase::Inactive),
        target(3, false, 9, DropPhase::Inactive),
    ];
    update_drop_zones(&droppables, &mut targets);
    assert_eq!(
        phases(&targets),
        vec![DropPhase::Inactive, DropPhase::DroppableEntered, DropPhase::Inactive]
    );
}

#[test]
fn zones_that_are_no_longer_on_top_are_left() {
    let droppables = vec![(Entity(100), gesture(DragState::Dragging))];
    let mut targets = vec![
        target(1, true, 3, DropPhase::DroppableHover),
        target(2, true, 7, DropPhase::DroppableHover),
        target(3, false, 1, DropPhase::DroppableEntered),
        target(4, false, 1, DropPhase::Dropped),
    ];
    targets[0].zone.incoming_droppable = Some(Entity(100));
    update_drop_zones(&droppables, &mut targets);
    assert_eq!(
        phases(&targets),
        vec![
            DropPhase::DroppableLeft,
            DropPhase::DroppableHover,
            DropPhase::DroppableLeft,
            DropPhase::Dropped
        ]
    );
    assert_eq!(targets[0].zone.incoming_droppable(), None);
    assert_eq!(targets[1].zone.incoming_droppable(), Some(Entity(100)));
}

#[test]
fn nothing_hovered_leaves_every_occupied_zone() {
    let droppables = vec![(Entity(100), gesture(DragState::Dragging))];
    let mut targets = vec![
        target(1, false, 3, DropPhase::DroppableHover),
        target(2, false, 7, DropPhase::Inactive),
    ];
    update_drop_zones(&droppables, &mut targets);
    assert_eq!(phases(&targets), vec![DropPhase::DroppableLeft, DropPhase::Inactive]);
}

#[test]
fn drag_end_drops_and_cancel_cancels() {
    let mut targets = vec![target(1, true, 3, DropPhase::DroppableHover)];
    update_drop_zones(&vec![(Entity(100), gesture(DragState::DragEnd))], &mut targets);
    assert_eq!(targets[0].zone.drop_phase(), DropPhase::Dropped);
    assert_eq!(targets[0].zone.incoming_droppable(), Some(Entity(100)));
    assert_eq!(targets[0].zone.position(), Some(Vec2 { x: 40, y: 50 }));

    let mut canceled = vec![target(1, true, 3, DropPhase::DroppableHover)];
    update_drop_zones(&vec![(Entity(100), gesture(DragState::DragCanceled))], &mut canceled);
    assert_eq!(canceled[0].zone.drop_phase(), DropPhase::DropCanceled);
    assert_eq!(canceled[0].zone.incoming_droppable(), None);
    assert_eq!(canceled[0].zone.position(), None);

    let mut entering = vec![target(1, true, 3, DropPhase::Inactive)];
    update_drop_zones(&vec![(Entity(100), gesture(DragState::DragEnd))], &mut entering);
    assert_eq!(entering[0].zone.drop_phase(), DropPhase::DroppableEntered);
}

#[test]
fn first_moving_droppable_is_the_one_that_counts() {
    let droppables = vec![
        (Entity(100), gesture(DragState::MaybeDragged)),
        (Entity(101), gesture(DragState::DragStart)),
        (Entity(102), gesture(DragState::Dragging)),
    ];
    let mut targets = vec![target(1, true, 3, DropPhase::Inactive)];
    update_drop_zones(&droppables, &mut targets);
    assert_eq!(targets[0].zone.incoming_droppable(), Some(Entity(101)));
}

#[test]
fn without_a_moving_droppable_nothing_changes() {
    let droppables = vec![
        (Entity(100), gesture(DragState::Inactive)),
        (Entity(101), gesture(DragState::MaybeDragged)),
    ];
    assert!(!should_update_drop_zones(&droppables));
    assert!(!should_update_drop_zones(&vec![]));
    let mut targets = vec![target(1, true, 3, DropPhase::DroppableHover)];
    let before = targets.clone();
    update_drop_zones(&droppables, &mut targets);
    assert_eq!(targets, before);
    assert!(should_update_drop_zones(&vec![(Entity(1), gesture(DragState::DragCanceled))]));
}

#[test]
fn single_frame_phases_fall_back() {
    for phase in [DropPhase::DroppableLeft, DropPhase::Dropped, DropPhase::DropCanceled] {
        let mut zone = DropZone {
            drop_phase: phase,
            incoming_droppable: Some(Entity(1)),
            position: Some(Vec2 { x: 1, y: 2 }),
        };
        assert!(update_drop_zone_single_frame_state(&mut zone));
        assert_eq!(zone, DropZone::default());
    }
    let mut entered = DropZone {
        drop_phase: DropPhase::DroppableEntered,
        incoming_droppable: Some(Entity(1)),
        position: Some(Vec2 { x: 1, y: 2 }),
    };
    assert!(update_drop_zone_single_frame_state(&mut entered));
    assert_eq!(entered.drop_phase(), DropPhase::DroppableHover);
    assert_eq!(entered.incoming_droppable(), Some(Entity(1)));
    assert!(!update_drop_zone_single_frame_state(&mut entered));
    assert_eq!(entered.drop_phase(), DropPhase::DroppableHover);
    let mut idle = DropZone::default();
    assert!(!update_drop_zone_single_frame_state(&mut idle));
    assert_eq!(DropPhase::default(), DropPhase::Inactive);
}
