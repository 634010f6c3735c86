//! Resize handles: their directions, the size change that a drag on one
//! asks for, and the cursor that they show.
use vstd::prelude::*;
use crate::flux_interaction::FluxInteraction;
use crate::units::{clamp_i64, sat_neg, Vec2};

verus! {

/// The edge or corner on which a resize handle sits.
#[derive(Clone, Copy, Debug, PartialEq, Eq, Structural, Hash)]
pub enum ResizeDirection {
    North,
    NorthEast,
    East,
    SouthEast,
    South,
    SouthWest,
    West,
    NorthWest,
}

impl Default for ResizeDirection {
    fn default() -> (r: Self)
        ensures
            r == ResizeDirection::North,
    {
        ResizeDirection::North
    }
}

/// The shapes of the system cursor that the toolkit asks for.
#[derive(Clone, Copy, Debug, PartialEq, Eq, Structural, Hash)]
pub enum CursorIcon {
    Default,
    Move,
    NResize,
    NeResize,
    EResize,
    SeResize,
    SResize,
    SwResize,
    WResize,
    NwResize,
}

/// The length `v` taken along (`sign` 1), against (`sign` -1) or across
/// (`sign` 0) an axis.
pub open spec fn directed(sign: int, v: i64) -> i64 {
    if sign == 1 {
        v
    } else if sign == -1 {
        clamp_i64(-v) as i64
    } else {
        0
    }
}

impl ResizeDirection {
    /// The cursor that points along this direction.
    pub open spec fn cursor_spec(self) -> CursorIcon {
        match self {
            ResizeDirection::North => CursorIcon::NResize,
            ResizeDirection::NorthEast => CursorIcon::NeResize,
            ResizeDirection::East => CursorIcon::EResize,
            ResizeDirection::SouthEast => CursorIcon::SeResize,
            ResizeDirection::South => CursorIcon::SResize,
            ResizeDirection::SouthWest => CursorIcon::SwResize,
            ResizeDirection::West => CursorIcon::WResize,
            ResizeDirection::NorthWest => CursorIcon::NwResize,
        }
    }

    pub fn cursor(&self) -> (r: CursorIcon)
        ensures
            r == self.cursor_spec(),
    {
        match self {
            ResizeDirection::North => CursorIcon::NResize,
            ResizeDirection::NorthEast => CursorIcon::NeResize,
            ResizeDirection::East => CursorIcon::EResize,
            ResizeDirection::SouthEast => CursorIcon::SeResize,
            ResizeDirection::South => CursorIcon::SResize,
            ResizeDirection::SouthWest => CursorIcon::SwResize,
            ResizeDirection::West => CursorIcon::WResize,
            ResizeDirection::NorthWest => CursorIcon::NwResize,
        }
    }

    /// How a drag by one unit to the right changes the width of what this
    /// handle resizes: 1, -1, or 0 for a handle that leaves the width alone.
    pub open spec fn horizontal_sign(self) -> int {
        match self {
            ResizeDirection::NorthEast | ResizeDirection::East | ResizeDirection::SouthEast => 1,
            ResizeDirection::SouthWest | ResizeDirection::West | ResizeDirection::NorthWest => -1,
            _ => 0,
        }
    }

    /// How a drag by one unit downwards changes the height of what this
    /// handle resizes.
    pub open spec fn vertical_sign(self) -> int {
        match self {
            ResizeDirection::SouthEast | ResizeDirection::South | ResizeDirection::SouthWest => 1,
            ResizeDirection::North | ResizeDirection::NorthEast | ResizeDirection::NorthWest => -1,
            _ => 0,
        }
    }

    /// The change of size that a drag by `drag_diff` on this handle asks for.
    pub open spec fn size_diff(self, drag_diff: Vec2) -> Vec2 {
        Vec2 {
            x: directed(self.horizontal_sign(), drag_diff.x),
            y: directed(self.vertical_sign(), drag_diff.y),
        }
    }

    /// Turns the delta of a drag into a change of size: a handle on the west
    /// or north side grows its element when dragged against the axis.
    pub fn to_size_diff(&self, drag_diff: Vec2) -> (r: Vec2)
        ensures
            r == self.size_diff(drag_diff),
    {
        match self {
            ResizeDirection::North => Vec2 { x: 0, y: sat_neg(drag_diff.y) },
            ResizeDirection::NorthEast => Vec2 { x: drag_diff.x, y: sat_neg(drag_diff.y) },
            ResizeDirection::East => Vec2 { x: drag_diff.x, y: 0 },
            ResizeDirection::SouthEast => drag_diff,
            ResizeDirection::South => Vec2 { x: 0, y: drag_diff.y },
            ResizeDirection::SouthWest => Vec2 { x: sat_neg(drag_diff.x), y: drag_diff.y },
            ResizeDirection::West => Vec2 { x: sat_neg(drag_diff.x), y: 0 },
            ResizeDirection::NorthWest => Vec2 { x: sat_neg(drag_diff.x), y: sat_neg(drag_diff.y) },
        }
    }
}

/// A handle by which an element is resized.
#[derive(Clone, Copy, Debug, PartialEq, Eq, Structural)]
pub struct ResizeHandle {
    pub direction: ResizeDirection,
}

impl Default for ResizeHandle {
    fn default() -> (r: Self)
        ensures
            r.direction == ResizeDirection::North,
    {
        ResizeHandle { direction: ResizeDirection::North }
    }
}

impl ResizeHandle {
    pub fn direction(&self) -> (r: ResizeDirection)
        ensures
            r == self.direction,
    {
        self.direction
    }

    /// Thickness of a resize handle, in layout units.
    pub fn resize_zone_size() -> (r: i64)
        ensures
            r == 4,
    {
        4
    }

    /// How far a resize handle reaches over the edge of its element.
    pub fn resize_zone_pullback() -> (r: i64)
        ensures
            r == 2,
    {
        2
    }
}

/// Whether a handle counts as active for the choice between its own cursor
/// and the omnidirectional one.
pub open spec fn is_active(flux: FluxInteraction, locked: bool) -> bool {
    (flux == FluxInteraction::PointerEnter && !locked) || flux == FluxInteraction::Pressed
}

/// The number of active handles among the first `n`.
pub open spec fn active_count(handles: Seq<(ResizeHandle, FluxInteraction)>, locked: bool, n: int) -> int
    decreases n,
{
    if n <= 0 {
        0
    } else {
        active_count(handles, locked, n - 1) + if is_active(handles[n - 1].1, locked) {
            1int
        } else {
            0int
        }
    }
}

/// The lock and the cursor after one more handle has been looked at.
pub open spec fn cursor_step(
    state: (bool, Option<CursorIcon>),
    handle: (ResizeHandle, FluxInteraction),
    multiple_active: bool,
) -> (bool, Option<CursorIcon>) {
    let (locked, cursor) = state;
    let shown = if multiple_active {
        CursorIcon::Move
    } else {
        handle.0.direction.cursor_spec()
    };
    match handle.1 {
        FluxInteraction::PointerEnter => if !locked {
            (locked, Some(shown))
        } else {
            state
        },
        FluxInteraction::Pressed => (true, Some(shown)),
        FluxInteraction::Released | FluxInteraction::PressCanceled => (
            false,
            if cursor is None {
                Some(CursorIcon::Default)
            } else {
                cursor
            },
        ),
        FluxInteraction::PointerLeave => if !locked && cursor is None {
            (locked, Some(CursorIcon::Default))
        } else {
            state
        },
        _ => state,
    }
}

/// The lock and the cursor after the first `n` handles have been looked at
/// in order.
pub open spec fn cursor_after(
    handles: Seq<(ResizeHandle, FluxInteraction)>,
    locked: bool,
    multiple_active: bool,
    n: int,
) -> (bool, Option<CursorIcon>)
    decreases n,
{
    if n <= 0 {
        (locked, None)
    } else {
        cursor_step(
            cursor_after(handles, locked, multiple_active, n - 1),
            handles[n - 1],
            multiple_active,
        )
    }
}

/// Chooses the cursor from the signals of all resize handles. A handle that
/// the pointer enters or that is pressed shows its direction, or the
/// omnidirectional cursor where more than one handle is active; a press
/// locks the cursor until a release or a canceled press; a handle that is
/// left, released or canceled brings the default cursor back unless another
/// handle has set one. The result is the cursor to set, if any.
pub fn update_cursor_on_resize_handles(
    handles: &Vec<(ResizeHandle, FluxInteraction)>,
    locked: &mut bool,
) -> (new_cursor: Option<CursorIcon>)
    ensures
        (*final(locked), new_cursor) == cursor_after(
            handles@,
            *old(locked),
            active_count(handles@, *old(locked), handles@.len() as int) > 1,
            handles@.len() as int,
        ),
{
    let was_locked = *locked;
    let mut active: usize = 0;
    let mut i: usize = 0;
    while i < handles.len()
        invariant
            i <= handles.len(),
            active <= i,
            active == active_count(handles@, was_locked, i as int),
        decreases handles.len() - i,
    {
        let flux = handles[i].1;
        if (flux == FluxInteraction::PointerEnter && !was_locked) || flux
            == FluxInteraction::Pressed {
            active += 1;
        }
        i += 1;
    }
    let multiple_active = active > 1;
    let mut new_cursor: Option<CursorIcon> = None;
    let mut k: usize = 0;
    while k < handles.len()
        invariant
            k <= handles.len(),
            *locked == cursor_after(handles@, was_locked, multiple_active, k as int).0,
            new_cursor == cursor_after(handles@, was_locked, multiple_active, k as int).1,
        decreases handles.len() - k,
    {
        let handle = handles[k].0;
        let flux = handles[k].1;
        assert(cursor_after(handles@, was_locked, multiple_active, k + 1) == cursor_step(
            cursor_after(handles@, was_locked, multiple_active, k as int),
            handles@[k as int],
            multiple_active,
        ));
        match flux {
            FluxInteraction::PointerEnter => {
                if !*locked {
                    new_cursor = if multiple_active {
                        Some(CursorIcon::Move)
                    } else {
                        Some(handle.direction.cursor())
                    };
                }
            },
            FluxInteraction::Pressed => {
                new_cursor = if multiple_active {
                    Some(CursorIcon::Move)
                } else {
                    Some(handle.direction.cursor())
                };
                *locked = true;
            },
            FluxInteraction::Released => {
                *locked = false;
                if new_cursor.is_none() {
                    new_cursor = Some(CursorIcon::Default);
                }
            },
            FluxInteraction::PressCanceled => {
                *locked = false;
                if new_cursor.is_none() {
                    new_cursor = Some(CursorIcon::Default);
                }
            },
            FluxInteraction::PointerLeave => {
                if !*locked && new_cursor.is_none() {
                    new_cursor = Some(CursorIcon::Default);
                }
            },
            _ => (),
        }
        k += 1;
    }
    new_cursor
}

} // verus!
