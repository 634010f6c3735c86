//! Drop zones: from the drag gestures of droppables and the zones under the
//! pointer to entered, hover, left, dropped and canceled phases.
use vstd::prelude::*;
use crate::drag_interaction::{DragState, Draggable};
use crate::units::{Entity, Vec2};

verus! {

/// Where a drop zone stands with respect to a dragged droppable.
#[derive(Clone, Copy, Debug, PartialEq, Eq, Structural, Hash)]
pub enum DropPhase {
    Inactive,
    DroppableEntered,
    DroppableHover,
    DroppableLeft,
    Dropped,
    DropCanceled,
}

impl Default for DropPhase {
    fn default() -> (r: Self)
        ensures
            r == DropPhase::Inactive,
    {
        DropPhase::Inactive
    }
}

/// Marks an element that drop zones accept.
#[derive(Clone, Copy, Debug, PartialEq, Eq, Structural)]
pub struct Droppable;

/// The state of one drop zone.
#[derive(Clone, Copy, Debug, PartialEq, Eq, Structural)]
pub struct DropZone {
    pub drop_phase: DropPhase,
    pub incoming_droppable: Option<Entity>,
    pub position: Option<Vec2>,
}

impl Default for DropZone {
    fn default() -> (r: Self)
        ensures
            r == DropZone::idle(),
    {
        DropZone { drop_phase: DropPhase::Inactive, incoming_droppable: None, position: None }
    }
}

impl DropZone {
    /// A zone that no droppable concerns.
    pub open spec fn idle() -> DropZone {
        DropZone { drop_phase: DropPhase::Inactive, incoming_droppable: None, position: None }
    }

    pub fn drop_phase(&self) -> (r: DropPhase)
        ensures
            r == self.drop_phase,
    {
        self.drop_phase
    }

    pub fn incoming_droppable(&self) -> (r: Option<Entity>)
        ensures
            r == self.incoming_droppable,
    {
        self.incoming_droppable
    }

    pub fn position(&self) -> (r: Option<Vec2>)
        ensures
            r == self.position,
    {
        self.position
    }

    /// Whether a droppable is over the zone as far as the zone knows.
    pub open spec fn is_occupied(self) -> bool {
        self.drop_phase == DropPhase::DroppableEntered || self.drop_phase
            == DropPhase::DroppableHover
    }

    /// The zone at the start of the next tick: the phases that last one tick
    /// fall back to `Inactive`, and an entered zone is hovered.
    pub open spec fn settled(self) -> DropZone {
        if self.drop_phase == DropPhase::DroppableLeft || self.drop_phase == DropPhase::DropCanceled
            || self.drop_phase == DropPhase::Dropped {
            DropZone::idle()
        } else if self.drop_phase == DropPhase::DroppableEntered {
            DropZone { drop_phase: DropPhase::DroppableHover, ..self }
        } else {
            self
        }
    }

    /// The zone once the pointer is no longer over it, or another zone lies
    /// above it.
    pub open spec fn vacated(self) -> DropZone {
        if self.is_occupied() {
            DropZone { drop_phase: DropPhase::DroppableLeft, incoming_droppable: None, position: None }
        } else {
            self
        }
    }

    /// The top-most hovered zone under the droppable `entity` with gesture
    /// `draggable`.
    pub open spec fn targeted(self, entity: Entity, draggable: Draggable) -> DropZone {
        let carries = draggable.state == DragState::DragStart || draggable.state
            == DragState::Dragging || draggable.state == DragState::DragEnd;
        DropZone {
            drop_phase: if self.drop_phase == DropPhase::Inactive {
                DropPhase::DroppableEntered
            } else if draggable.state == DragState::DragEnd {
                DropPhase::Dropped
            } else if draggable.state == DragState::DragCanceled {
                DropPhase::DropCanceled
            } else {
                self.drop_phase
            },
            incoming_droppable: if carries {
                Some(entity)
            } else {
                None
            },
            position: if carries {
                draggable.position
            } else {
                None
            },
        }
    }
}

/// Ages one drop zone by a tick: `DroppableLeft`, `Dropped` and
/// `DropCanceled` last a single tick, `DroppableEntered` becomes
/// `DroppableHover`. Says whether the zone was written.
pub fn update_drop_zone_single_frame_state(drop_zone: &mut DropZone) -> (written: bool)
    ensures
        *final(drop_zone) == old(drop_zone).settled(),
        written == (old(drop_zone).drop_phase != DropPhase::Inactive && old(drop_zone).drop_phase
            != DropPhase::DroppableHover),
{
    if drop_zone.drop_phase == DropPhase::DroppableLeft || drop_zone.drop_phase
        == DropPhase::DropCanceled || drop_zone.drop_phase == DropPhase::Dropped {
        drop_zone.drop_phase = DropPhase::Inactive;
        drop_zone.incoming_droppable = None;
        drop_zone.position = None;
        true
    } else if drop_zone.drop_phase == DropPhase::DroppableEntered {
        drop_zone.drop_phase = DropPhase::DroppableHover;
        true
    } else {
        false
    }
}

/// Whether a gesture moves its element: it has started and has not yet
/// fallen back to `Inactive`.
pub open spec fn is_moving(draggable: Draggable) -> bool {
    draggable.state != DragState::Inactive && draggable.state != DragState::MaybeDragged
}

/// The first droppable of `droppables` that moves, where there is one.
pub open spec fn first_moving(droppables: Seq<(Entity, Draggable)>) -> Option<int>
    decreases droppables.len(),
{
    if droppables.len() == 0 {
        None
    } else if is_moving(droppables[0].1) {
        Some(0)
    } else {
        match first_moving(droppables.skip(1)) {
            Some(i) => Some(i + 1),
            None => None,
        }
    }
}

/// What `first_moving` selects: a moving droppable before which none moves;
/// and it selects none only where none moves.
pub proof fn lemma_first_moving(droppables: Seq<(Entity, Draggable)>)
    ensures
        match first_moving(droppables) {
            Some(i) => {
                &&& 0 <= i < droppables.len()
                &&& is_moving(droppables[i].1)
                &&& forall|j: int| 0 <= j < i ==> !is_moving(#[trigger] droppables[j].1)
            },
            None => forall|j: int| 0 <= j < droppables.len() ==> !is_moving(#[trigger] droppables[j].1),
        },
    decreases droppables.len(),
{
    if droppables.len() == 0 {
    } else if is_moving(droppables[0].1) {
    } else {
        let rest = droppables.skip(1);
        lemma_first_moving(rest);
        match first_moving(rest) {
            Some(i) => {
                assert forall|j: int| 0 <= j < i + 1 implies !is_moving(
                    #[trigger] droppables[j].1,
                ) by {
                    if j > 0 {
                        assert(rest[j - 1] == droppables[j]);
                    }
                }
                assert(rest[i] == droppables[i + 1]);
            },
            None => {
                assert forall|j: int| 0 <= j < droppables.len() implies !is_moving(
                    #[trigger] droppables[j].1,
                ) by {
                    if j > 0 {
                        assert(rest[j - 1] == droppables[j]);
                    }
                }
            },
        }
    }
}

/// Whether the drop zones have anything to follow: some droppable whose
/// gesture was written in this tick moves.
pub fn should_update_drop_zones(droppables: &Vec<(Entity, Draggable)>) -> (r: bool)
    ensures
        r == first_moving(droppables@).is_some(),
        r == exists|i: int| 0 <= i < droppables.len() && is_moving(#[trigger] droppables@[i].1),
{
    find_moving(droppables).is_some()
}

fn find_moving(droppables: &Vec<(Entity, Draggable)>) -> (r: Option<usize>)
    ensures
        match r {
            Some(i) => first_moving(droppables@) == Some(i as int) && i < droppables.len(),
            None => first_moving(droppables@).is_none(),
        },
        r.is_some() == exists|i: int| 0 <= i < droppables.len() && is_moving(#[trigger] droppables@[i].1),
{
    let mut i: usize = 0;
    while i < droppables.len()
        invariant
            i <= droppables.len(),
            forall|j: int| 0 <= j < i ==> !is_moving(#[trigger] droppables@[j].1),
        decreases droppables.len() - i,
    {
        let state = droppables[i].1.state;
        if state != DragState::Inactive && state != DragState::MaybeDragged {
            assert(is_moving(droppables@[i as int].1));
            assert(first_moving(droppables@) == Some(i as int)) by {
                lemma_first_moving(droppables@);
                match first_moving(droppables@) {
                    Some(k) => {
                        if k < i {
                            assert(!is_moving(droppables@[k].1));
                        } else if k > i {
                            assert(!is_moving(droppables@[i as int].1));
                        }
                    },
                    None => {
                        assert(!is_moving(droppables@[i as int].1));
                    },
                }
            }
            return Some(i);
        }
        i += 1;
    }
    assert(first_moving(droppables@).is_none()) by {
        lemma_first_moving(droppables@);
        match first_moving(droppables@) {
            Some(k) => {
                assert(!is_moving(droppables@[k].1));
            },
            None => {},
        }
    }
    None
}

/// A drop zone together with what the host knows of it in this tick.
#[derive(Clone, Copy, Debug, PartialEq, Eq, Structural)]
pub struct DropZoneTarget {
    pub entity: Entity,
    /// Whether the pointer is inside the bounds of the zone.
    pub hovered: bool,
    /// The place of the zone in the paint order; higher is nearer the viewer.
    pub stack_index: u32,
    pub zone: DropZone,
}

/// Whether zone `t` is the top-most hovered zone: it is hovered, no hovered
/// zone has a higher stacking index, and of the hovered zones with its
/// stacking index it comes last.
pub open spec fn is_top_hovered(targets: Seq<DropZoneTarget>, t: int) -> bool {
    &&& 0 <= t < targets.len()
    &&& targets[t].hovered
    &&& forall|j: int|
        0 <= j < targets.len() && (#[trigger] targets[j]).hovered ==> targets[j].stack_index
            <= targets[t].stack_index
    &&& forall|j: int|
        t < j < targets.len() && (#[trigger] targets[j]).hovered ==> targets[j].stack_index
            < targets[t].stack_index
}

/// Whether no zone is hovered.
pub open spec fn none_hovered(targets: Seq<DropZoneTarget>) -> bool {
    forall|j: int| 0 <= j < targets.len() ==> !(#[trigger] targets[j]).hovered
}

/// The top-most hovered zone, where some zone is hovered.
pub open spec fn top_hovered(targets: Seq<DropZoneTarget>) -> Option<int> {
    if exists|t: int| is_top_hovered(targets, t) {
        Some(choose|t: int| is_top_hovered(targets, t))
    } else {
        None
    }
}

/// The zones after the drop-zone pass, given the top-most hovered zone `top`
/// and the moving droppable.
pub open spec fn zones_after(
    targets: Seq<DropZoneTarget>,
    top: Option<int>,
    entity: Entity,
    draggable: Draggable,
) -> Seq<DropZoneTarget> {
    Seq::new(
        targets.len(),
        |i: int|
            DropZoneTarget {
                zone: if top == Some(i) {
                    targets[i].zone.targeted(entity, draggable)
                } else {
                    targets[i].zone.vacated()
                },
                ..targets[i]
            },
    )
}

fn find_top_hovered(targets: &Vec<DropZoneTarget>) -> (r: Option<usize>)
    ensures
        match r {
            Some(t) => is_top_hovered(targets@, t as int) && top_hovered(targets@) == Some(t as int),
            None => none_hovered(targets@) && top_hovered(targets@).is_none(),
        },
{
    let mut best: Option<usize> = None;
    let mut i: usize = 0;
    while i < targets.len()
        invariant
            i <= targets.len(),
            match best {
                Some(t) => {
                    &&& t < i
                    &&& targets@[t as int].hovered
                    &&& forall|j: int|
                        0 <= j < i && (#[trigger] targets@[j]).hovered ==> targets@[j].stack_index
                            <= targets@[t as int].stack_index
                    &&& forall|j: int|
                        t < j < i && (#[trigger] targets@[j]).hovered ==> targets@[j].stack_index
                            < targets@[t as int].stack_index
                },
                None => forall|j: int| 0 <= j < i ==> !(#[trigger] targets@[j]).hovered,
            },
        decreases targets.len() - i,
    {
        if targets[i].hovered {
            best = match best {
                Some(t) => if targets[i].stack_index >= targets[t].stack_index {
                    Some(i)
                } else {
                    Some(t)
                },
                None => Some(i),
            };
        }
        i += 1;
    }
    proof {
        match best {
            Some(t) => {
                lemma_top_hovered(targets@, t as int);
            },
            None => {
                assert forall|t: int| !is_top_hovered(targets@, t) by {
                    if 0 <= t < targets@.len() {
                        assert(!targets@[t].hovered);
                    }
                }
            },
        }
    }
    best
}

/// A zone that meets the description of the top-most hovered zone is the
/// one that `top_hovered` selects.
pub proof fn lemma_top_hovered(targets: Seq<DropZoneTarget>, t: int)
    requires
        is_top_hovered(targets, t),
    ensures
        top_hovered(targets) == Some(t),
{
    let c = choose|c: int| is_top_hovered(targets, c);
    lemma_top_hovered_unique(targets, c, t);
}

/// The top-most hovered zone is unique.
pub proof fn lemma_top_hovered_unique(targets: Seq<DropZoneTarget>, a: int, b: int)
    requires
        is_top_hovered(targets, a),
        is_top_hovered(targets, b),
    ensures
        a == b,
{
    if a < b {
        assert(targets[b].stack_index < targets[a].stack_index);
        assert(targets[a].stack_index <= targets[b].stack_index);
    } else if b < a {
        assert(targets[a].stack_index < targets[b].stack_index);
        assert(targets[b].stack_index <= targets[a].stack_index);
    }
}

/// The drop-zone pass. Nothing happens unless some droppable moves. The
/// hovered zone with the highest stacking index (the last of them in the
/// list, where several share it) is the target of the first moving
/// droppable: an inactive target is entered, a target under a drag that ends
/// receives the drop, one under a canceled drag is canceled, and the target
/// carries the droppable and its position while the drag goes on. Every
/// other zone that held a droppable is left.
pub fn update_drop_zones(droppables: &Vec<(Entity, Draggable)>, targets: &mut Vec<DropZoneTarget>)
    ensures
        final(targets)@.len() == old(targets)@.len(),
        final(targets)@ == match first_moving(droppables@) {
            None => old(targets)@,
            Some(m) => zones_after(
                old(targets)@,
                top_hovered(old(targets)@),
                droppables@[m].0,
                droppables@[m].1,
            ),
        },
{
    let Some(m) = find_moving(droppables) else {
        return ;
    };
    let (droppable_entity, draggable) = droppables[m];
    let top = find_top_hovered(targets);
    let ghost before = targets@;
    let ghost top_index: Option<int> = match top {
        Some(t) => Some(t as int),
        None => None,
    };
    let mut i: usize = 0;
    while i < targets.len()
        invariant
            i <= targets.len(),
            targets@.len() == before.len(),
            match top {
                Some(t) => top_index == Some(t as int) && t < before.len(),
                None => top_index.is_none(),
            },
            top_index == top_hovered(before),
            forall|j: int|
                0 <= j < i ==> targets@[j] == zones_after(
                    before,
                    top_index,
                    droppable_entity,
                    draggable,
                )[j],
            forall|j: int| i <= j < targets.len() ==> targets@[j] == before[j],
        decreases targets.len() - i,
    {
        let current = targets[i];
        let is_top = match top {
            Some(t) => t == i,
            None => false,
        };
        let zone = if is_top {
            let carries = draggable.state == DragState::DragStart || draggable.state
                == DragState::Dragging || draggable.state == DragState::DragEnd;
            DropZone {
                drop_phase: if current.zone.drop_phase == DropPhase::Inactive {
                    DropPhase::DroppableEntered
                } else if draggable.state == DragState::DragEnd {
                    DropPhase::Dropped
                } else if draggable.state == DragState::DragCanceled {
                    DropPhase::DropCanceled
                } else {
                    current.zone.drop_phase
                },
                incoming_droppable: if carries {
                    Some(droppable_entity)
                } else {
                    None
                },
                position: if carries {
                    draggable.position
                } else {
                    None
                },
            }
        } else if current.zone.drop_phase == DropPhase::DroppableEntered || current.zone.drop_phase
            == DropPhase::DroppableHover {
            DropZone { drop_phase: DropPhase::DroppableLeft, incoming_droppable: None, position: None }
        } else {
            current.zone
        };
        targets.set(
            i,
            DropZoneTarget {
                entity: current.entity,
                hovered: current.hovered,
                stack_index: current.stack_index,
                zone,
            },
        );
        i += 1;
    }
    assert(targets@ =~= zones_after(before, top_index, droppable_entity, draggable));
}

/// The top-most zone wins: of the zones under the pointer, the one with
/// the highest stacking index is the one that the drop-zone pass enters; any
/// other inactive zone, hovered or not, stays inactive.
pub proof fn lemma_top_most_zone_wins(
    targets: Seq<DropZoneTarget>,
    top: int,
    other: int,
    entity: Entity,
    draggable: Draggable,
)
    requires
        is_top_hovered(targets, top),
        0 <= other < targets.len(),
        other != top,
        targets[top].zone.drop_phase == DropPhase::Inactive,
        targets[other].zone.drop_phase == DropPhase::Inactive,
    ensures
        top_hovered(targets) == Some(top),
        zones_after(targets, top_hovered(targets), entity, draggable)[top].zone.drop_phase
            == DropPhase::DroppableEntered,
        zones_after(targets, top_hovered(targets), entity, draggable)[other].zone.drop_phase
            == DropPhase::Inactive,
        targets[other].hovered ==> targets[other].stack_index <= targets[top].stack_index,
{
    lemma_top_hovered(targets, top);
}

} // verus!
