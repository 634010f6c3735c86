//! The drag gesture of an element: from presses and pointer moves to a
//! drag state with origin, position and delta.
use vstd::prelude::*;
use crate::flux_interaction::FluxInteraction;
use crate::units::Vec2;

verus! {

/// Where a drag gesture stands.
#[derive(Clone, Copy, Debug, PartialEq, Eq, Structural, Hash)]
pub enum DragState {
    Inactive,
    MaybeDragged,
    DragStart,
    Dragging,
    DragEnd,
    DragCanceled,
}

/// The pointer that drives a drag.
#[derive(Clone, Copy, Debug, PartialEq, Eq, Structural, Hash)]
pub enum DragSource {
    Mouse,
    Touch(u64),
}

/// Whether the system cursor is held inside the window.
#[derive(Clone, Copy, Debug, PartialEq, Eq, Structural, Hash)]
pub enum CursorGrabMode {
    Free,
    Confined,
}

impl Default for DragState {
    fn default() -> (r: Self)
        ensures
            r == DragState::Inactive,
    {
        DragState::Inactive
    }
}

impl Default for DragSource {
    fn default() -> (r: Self)
        ensures
            r == DragSource::Mouse,
    {
        DragSource::Mouse
    }
}

/// The drag gesture of one element.
#[derive(Clone, Copy, Debug, PartialEq, Eq, Structural)]
pub struct Draggable {
    pub state: DragState,
    pub origin: Option<Vec2>,
    pub position: Option<Vec2>,
    pub diff: Option<Vec2>,
    pub source: DragSource,
}

impl Default for Draggable {
    fn default() -> (r: Self)
        ensures
            r == (Draggable {
                state: DragState::Inactive,
                origin: None,
                position: None,
                diff: None,
                source: DragSource::Mouse,
            }),
            r.wf(),
    {
        Draggable {
            state: DragState::Inactive,
            origin: None,
            position: None,
            diff: None,
            source: DragSource::Mouse,
        }
    }
}

impl Draggable {
    /// A gesture that is not under way holds no origin and no position.
    pub open spec fn wf(self) -> bool {
        (self.state == DragState::Inactive || self.state == DragState::DragCanceled) ==> (
        self.origin is None && self.position is None)
    }

    /// The gesture without origin and position, and with a delta of zero.
    pub open spec fn cleared(self) -> Draggable {
        Draggable { origin: None, position: None, diff: Some(Vec2::zero_spec()), ..self }
    }

    /// Whether the gesture has left its start behind and has not ended.
    pub open spec fn is_mid_drag(self) -> bool {
        self.state == DragState::DragStart || self.state == DragState::Dragging
    }

    /// Whether a pressed element follows the pointer.
    pub open spec fn tracks_pointer(self) -> bool {
        self.state == DragState::MaybeDragged || self.is_mid_drag()
    }

    /// The gesture after the progress pass of one tick. `pointer` is the
    /// position of the pointer that `self.source` names, where the host
    /// knows one; `escape` says whether Escape went down in this tick.
    pub open spec fn progressed(self, flux: FluxInteraction, pointer: Option<Vec2>, escape: bool) -> Draggable {
        if self.state == DragState::DragEnd {
            Draggable { state: DragState::Inactive, ..self.cleared() }
        } else if self.state == DragState::DragCanceled {
            Draggable { state: DragState::Inactive, ..self }
        } else if flux == FluxInteraction::Pressed && self.tracks_pointer() {
            if self.is_mid_drag() && escape {
                Draggable { state: DragState::DragCanceled, ..self.cleared() }
            } else {
                let state = if self.state == DragState::DragStart {
                    DragState::Dragging
                } else {
                    self.state
                };
                match (self.position, pointer) {
                    (Some(current), Some(new)) if new != current => Draggable {
                        state: if state == DragState::MaybeDragged {
                            DragState::DragStart
                        } else {
                            state
                        },
                        position: Some(new),
                        diff: Some(new.sub_spec(current)),
                        ..self
                    },
                    _ => Draggable { state, ..self },
                }
            }
        } else {
            self
        }
    }

    /// Whether the progress pass writes the gesture.
    pub open spec fn progress_writes(self, flux: FluxInteraction, pointer: Option<Vec2>, escape: bool) -> bool {
        ||| self.state == DragState::DragEnd
        ||| self.state == DragState::DragCanceled
        ||| flux == FluxInteraction::Pressed && self.is_mid_drag() && escape
        ||| flux == FluxInteraction::Pressed && self.state == DragState::DragStart
        ||| flux == FluxInteraction::Pressed && self.tracks_pointer() && (self.position is Some
            && pointer is Some && pointer != self.position)
    }

    /// The gesture after the state pass of a tick in which the signal of the
    /// element changed to `flux`. `cursor` is the position of the mouse
    /// cursor and `touch` the first active touch, where there is one.
    pub open spec fn restated(self, flux: FluxInteraction, cursor: Option<Vec2>, touch: Option<(u64, Vec2)>) -> Draggable {
        if flux == FluxInteraction::Pressed && self.state != DragState::MaybeDragged {
            match (cursor, touch) {
                (Some(p), _) => Draggable {
                    state: DragState::MaybeDragged,
                    source: DragSource::Mouse,
                    origin: Some(p),
                    position: Some(p),
                    diff: Some(Vec2::zero_spec()),
                },
                (None, Some((id, p))) => Draggable {
                    state: DragState::MaybeDragged,
                    source: DragSource::Touch(id),
                    origin: Some(p),
                    position: Some(p),
                    diff: Some(Vec2::zero_spec()),
                },
                (None, None) => self,
            }
        } else if flux == FluxInteraction::Released || flux == FluxInteraction::PressCanceled {
            if self.is_mid_drag() {
                Draggable { state: DragState::DragEnd, ..self }
            } else if self.state == DragState::MaybeDragged {
                Draggable { state: DragState::Inactive, ..self.cleared() }
            } else {
                self
            }
        } else {
            self
        }
    }

    /// The gesture after one whole tick: the progress pass, then the state
    /// pass where the signal changed in this tick.
    pub open spec fn ticked(
        self,
        flux: FluxInteraction,
        flux_changed: bool,
        pointer: Option<Vec2>,
        escape: bool,
        cursor: Option<Vec2>,
        touch: Option<(u64, Vec2)>,
    ) -> Draggable {
        let after = self.progressed(flux, pointer, escape);
        if flux_changed {
            after.restated(flux, cursor, touch)
        } else {
            after
        }
    }

    /// Forgets origin and position and sets the delta to zero.
    pub fn clear(&mut self)
        ensures
            *final(self) == old(self).cleared(),
    {
        self.origin = None;
        self.position = None;
        self.diff = Some(Vec2::zero());
    }
}

/// The progress pass of the drag engine for one element. Ended and canceled
/// gestures fall back to `Inactive`; a pressed element follows the pointer,
/// its first move starts the drag, and the start lasts this one tick;
/// Escape cancels a drag that has started. Says whether the gesture was
/// written.
pub fn update_drag_progress(
    draggable: &mut Draggable,
    flux: FluxInteraction,
    pointer: Option<Vec2>,
    escape: bool,
) -> (written: bool)
    ensures
        *final(draggable) == old(draggable).progressed(flux, pointer, escape),
        written == old(draggable).progress_writes(flux, pointer, escape),
        !written ==> *final(draggable) == *old(draggable),
        old(draggable).wf() ==> final(draggable).wf(),
{
    if draggable.state == DragState::DragEnd {
        draggable.state = DragState::Inactive;
        draggable.clear();
        true
    } else if draggable.state == DragState::DragCanceled {
        draggable.state = DragState::Inactive;
        true
    } else if flux == FluxInteraction::Pressed && (draggable.state == DragState::MaybeDragged
        || draggable.state == DragState::DragStart || draggable.state == DragState::Dragging) {
        if (draggable.state == DragState::DragStart || draggable.state == DragState::Dragging)
            && escape {
            draggable.state = DragState::DragCanceled;
            draggable.clear();
            return true;
        }
        let mut written = false;

        // Drag start is only a single tick, triggered after initial movement
        if draggable.state == DragState::DragStart {
            draggable.state = DragState::Dragging;
            written = true;
        }
        if let (Some(current_position), Some(new_position)) = (draggable.position, pointer) {
            // No tolerance threshold, just move
            if new_position != current_position {
                if draggable.state == DragState::MaybeDragged {
                    draggable.state = DragState::DragStart;
                }
                draggable.position = Some(new_position);
                draggable.diff = Some(new_position.minus(current_position));
                written = true;
            }
        }
        written
    } else {
        false
    }
}

/// The state pass of the drag engine for one element whose signal changed
/// to `flux`. A press records the pointer as origin (the mouse cursor, else
/// the first active touch; with neither the gesture is left alone); a
/// release or a canceled press ends a drag that has started and drops one
/// that has not.
pub fn update_drag_state(
    draggable: &mut Draggable,
    flux: FluxInteraction,
    cursor: Option<Vec2>,
    touch: Option<(u64, Vec2)>,
)
    ensures
        *final(draggable) == old(draggable).restated(flux, cursor, touch),
        old(draggable).wf() ==> final(draggable).wf(),
{
    if flux == FluxInteraction::Pressed && draggable.state != DragState::MaybeDragged {
        let (drag_source, position) = match cursor {
            Some(p) => (DragSource::Mouse, p),
            None => match touch {
                Some((id, p)) => (DragSource::Touch(id), p),
                None => {
                    return ;
                },
            },
        };

        draggable.state = DragState::MaybeDragged;
        draggable.source = drag_source;
        draggable.origin = Some(position);
        draggable.position = Some(position);
        draggable.diff = Some(Vec2::zero());
    } else if flux == FluxInteraction::Released || flux == FluxInteraction::PressCanceled {
        if draggable.state == DragState::DragStart || draggable.state == DragState::Dragging {
            draggable.state = DragState::DragEnd;
        } else if draggable.state == DragState::MaybeDragged {
            draggable.state = DragState::Inactive;
            draggable.clear();
        }
    }
}

/// Whether some gesture of `draggables` is in state `state`.
pub open spec fn any_in_state(draggables: Seq<Draggable>, state: DragState) -> bool {
    exists|i: int| 0 <= i < draggables.len() && #[trigger] draggables[i].state == state
}

/// The grab mode that the gestures written in this tick ask for: a drag that
/// starts confines the cursor; failing that, one that ends or is canceled
/// frees it; otherwise the mode stays as it is.
pub open spec fn confinement(draggables: Seq<Draggable>) -> Option<CursorGrabMode> {
    if any_in_state(draggables, DragState::DragStart) {
        Some(CursorGrabMode::Confined)
    } else if any_in_state(draggables, DragState::DragEnd) || any_in_state(
        draggables,
        DragState::DragCanceled,
    ) {
        Some(CursorGrabMode::Free)
    } else {
        None
    }
}

fn contains_state(draggables: &Vec<Draggable>, state: DragState) -> (r: bool)
    ensures
        r == any_in_state(draggables@, state),
{
    let mut i: usize = 0;
    while i < draggables.len()
        invariant
            i <= draggables.len(),
            forall|j: int| 0 <= j < i ==> (#[trigger] draggables@[j]).state != state,
        decreases draggables.len() - i,
    {
        if draggables[i].state == state {
            return true;
        }
        i += 1;
    }
    false
}

/// Decides the grab mode of the system cursor from the gestures that were
/// written in this tick.
pub fn update_cursor_confinement_from_drag(draggables: &Vec<Draggable>) -> (r: Option<CursorGrabMode>)
    ensures
        r == confinement(draggables@),
{
    if contains_state(draggables, DragState::DragStart) {
        Some(CursorGrabMode::Confined)
    } else if contains_state(draggables, DragState::DragEnd) || contains_state(
        draggables,
        DragState::DragCanceled,
    ) {
        Some(CursorGrabMode::Free)
    } else {
        None
    }
}

/// A drag start lasts one tick. The first move of a pressed element that may
/// be dragged starts the drag; a drag start is reached from no other state;
/// and the tick after it leaves the start behind: while the signal stays
/// `Pressed` the drag goes on as `Dragging` (or is canceled by Escape), and a
/// change of the signal to `Released` or `PressCanceled` ends it.
pub proof fn lemma_drag_start_lasts_one_tick(
    d: Draggable,
    flux: FluxInteraction,
    flux_changed: bool,
    pointer: Option<Vec2>,
    escape: bool,
    cursor: Option<Vec2>,
    touch: Option<(u64, Vec2)>,
)
    ensures
        (d.state == DragState::MaybeDragged && flux == FluxInteraction::Pressed && !flux_changed
            && d.position is Some && pointer is Some && pointer != d.position) ==> d.ticked(
            flux,
            flux_changed,
            pointer,
            escape,
            cursor,
            touch,
        ).state == DragState::DragStart,
        (d.state != DragState::MaybeDragged && d.state != DragState::DragStart) ==> d.ticked(
            flux,
            flux_changed,
            pointer,
            escape,
            cursor,
            touch,
        ).state != DragState::DragStart,
        (d.state == DragState::DragStart && flux == FluxInteraction::Pressed && !flux_changed)
            ==> d.ticked(
            flux,
            flux_changed,
            pointer,
            escape,
            cursor,
            touch,
        ).state == if escape {
            DragState::DragCanceled
        } else {
            DragState::Dragging
        },
        (d.state == DragState::DragStart && flux_changed && (flux == FluxInteraction::Released || flux
            == FluxInteraction::PressCanceled)) ==> d.ticked(
            flux,
            flux_changed,
            pointer,
            escape,
            cursor,
            touch,
        ).state == DragState::DragEnd,
{
}

} // verus!
