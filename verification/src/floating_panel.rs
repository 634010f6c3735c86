//! Floating panels: resizing by their handles, moving by their title,
//! stacking order, and what a panel asks of the layout.
use vstd::prelude::*;
use crate::drag_interaction::{DragState, Draggable};
use crate::resize_interaction::ResizeDirection;
use crate::style::Val;
use crate::units::{clamp_i64, narrow, sat_add, Entity, Vec2};

verus! {

/// The least width of a floating panel, in layout units.
pub const MIN_PANEL_WIDTH: i64 = 150;

/// The least height of a floating panel, in layout units.
pub const MIN_PANEL_HEIGHT: i64 = 100;

/// The stacking index below which no floating panel lies.
pub const MIN_FLOATING_PANEL_Z_INDEX: usize = 1000;

/// The stacking index of a panel that has priority.
pub const PRIORITY_FLOATING_PANEL_Z_INDEX: usize = 10000;

/// How much of a panel stays inside the window when the window shrinks.
pub const WINDOW_RESIZE_PADDING: i64 = 20;

/// A panel that floats over the scene.
#[derive(Clone, Copy, Debug, PartialEq, Eq, Structural)]
pub struct FloatingPanel {
    pub size: Vec2,
    pub position: Vec2,
    pub z_index: Option<usize>,
    pub content_panel: Entity,
    pub resizing: bool,
    pub moving: bool,
    pub priority: bool,
}

impl Default for FloatingPanel {
    fn default() -> (r: Self)
        ensures
            r == (FloatingPanel {
                size: Vec2 { x: 0, y: 0 },
                position: Vec2 { x: 0, y: 0 },
                z_index: None,
                content_panel: Entity(u64::MAX),
                resizing: false,
                moving: false,
                priority: false,
            }),
    {
        FloatingPanel {
            size: Vec2 { x: 0, y: 0 },
            position: Vec2 { x: 0, y: 0 },
            z_index: None,
            content_panel: Entity::placeholder(),
            resizing: false,
            moving: false,
            priority: false,
        }
    }
}

impl FloatingPanel {
    pub fn content_panel_id(&self) -> (r: Entity)
        ensures
            r == self.content_panel,
    {
        self.content_panel
    }
}

/// What a floating panel offers to the user.
#[derive(Clone, Copy, Debug, PartialEq, Eq, Structural)]
pub struct FloatingPanelConfig {
    pub has_title: bool,
    pub draggable: bool,
    pub resizable: bool,
    pub foldable: bool,
    pub folded: bool,
    pub closable: bool,
}

impl Default for FloatingPanelConfig {
    fn default() -> (r: Self)
        ensures
            r == (FloatingPanelConfig {
                has_title: false,
                draggable: true,
                resizable: true,
                foldable: true,
                folded: false,
                closable: true,
            }),
    {
        FloatingPanelConfig {
            has_title: false,
            draggable: true,
            resizable: true,
            foldable: true,
            folded: false,
            closable: true,
        }
    }
}

/// Where a floating panel starts out.
#[derive(Clone, Copy, Debug, PartialEq, Eq, Structural)]
pub struct FloatingPanelLayout {
    pub size: Vec2,
    pub position: Option<Vec2>,
    pub hidden: bool,
    pub droppable: bool,
}

impl Default for FloatingPanelLayout {
    fn default() -> (r: Self)
        ensures
            r == (FloatingPanelLayout {
                size: Vec2 { x: 300, y: 500 },
                position: None,
                hidden: false,
                droppable: false,
            }),
    {
        FloatingPanelLayout {
            size: Vec2 { x: 300, y: 500 },
            position: None,
            hidden: false,
            droppable: false,
        }
    }
}

impl FloatingPanelLayout {
    /// The layout of a panel of the least size.
    pub fn min() -> (r: Self)
        ensures
            r == (FloatingPanelLayout {
                size: Vec2 { x: MIN_PANEL_WIDTH, y: MIN_PANEL_HEIGHT },
                position: None,
                hidden: false,
                droppable: false,
            }),
    {
        FloatingPanelLayout {
            size: Vec2 { x: MIN_PANEL_WIDTH, y: MIN_PANEL_HEIGHT },
            position: None,
            hidden: false,
            droppable: false,
        }
    }
}

/// How far the near edge of a panel follows a drag by `diff` on a handle of
/// that edge, when the drag takes the extent from `old_size` to `new_size`
/// and the panel shows at least `min`: the edge stands still while the
/// panel shows its least extent, and moves only as far as the shown extent
/// changes.
pub open spec fn clipped_change(diff: int, min: int, old_size: int, new_size: int) -> int {
    if old_size <= min && new_size <= min {
        0
    } else if old_size > min && new_size <= min {
        diff - (min - new_size)
    } else if old_size < min && new_size >= min {
        diff + (min - old_size)
    } else {
        diff
    }
}

/// Clips the move of an edge to the part of a resize that shows.
pub fn clip_position_change(diff: i64, min: i64, old_size: i64, new_size: i64) -> (r: i64)
    ensures
        r == clamp_i64(clipped_change(diff as int, min as int, old_size as int, new_size as int)),
{
    if old_size <= min && new_size <= min {
        0
    } else if old_size > min && new_size <= min {
        narrow(diff as i128 - (min as i128 - new_size as i128))
    } else if old_size < min && new_size >= min {
        narrow(diff as i128 + (min as i128 - old_size as i128))
    } else {
        diff
    }
}

/// Whether a gesture is not under way, or was canceled.
pub open spec fn is_idle(state: DragState) -> bool {
    state == DragState::Inactive || state == DragState::MaybeDragged || state
        == DragState::DragCanceled
}

/// Whether a handle on `direction` moves the left edge of what it resizes.
pub open spec fn moves_left_edge(direction: ResizeDirection) -> bool {
    direction == ResizeDirection::SouthWest || direction == ResizeDirection::West || direction
        == ResizeDirection::NorthWest
}

/// Whether a handle on `direction` moves the top edge of what it resizes.
pub open spec fn moves_top_edge(direction: ResizeDirection) -> bool {
    direction == ResizeDirection::North || direction == ResizeDirection::NorthEast || direction
        == ResizeDirection::NorthWest
}

/// The larger of two lengths.
pub open spec fn at_least(v: i64, min: i64) -> i64 {
    if v < min {
        min
    } else {
        v
    }
}

/// The panel after a drag on one of its resize handles.
pub open spec fn resized_panel(
    panel: FloatingPanel,
    draggable: Draggable,
    direction: ResizeDirection,
) -> FloatingPanel {
    if is_idle(draggable.state) {
        FloatingPanel { resizing: false, ..panel }
    } else {
        match draggable.diff {
            None => panel,
            Some(diff) => {
                let size_diff = direction.size_diff(diff);
                let grown = panel.size.add_spec(size_diff);
                let size = if draggable.state == DragState::DragEnd {
                    Vec2 {
                        x: at_least(grown.x, MIN_PANEL_WIDTH),
                        y: at_least(grown.y, MIN_PANEL_HEIGHT),
                    }
                } else {
                    grown
                };
                let shift = Vec2 {
                    x: if moves_left_edge(direction) {
                        clamp_i64(
                            clipped_change(
                                diff.x as int,
                                MIN_PANEL_WIDTH as int,
                                panel.size.x as int,
                                size.x as int,
                            ),
                        ) as i64
                    } else {
                        0
                    },
                    y: if moves_top_edge(direction) {
                        clamp_i64(
                            clipped_change(
                                diff.y as int,
                                MIN_PANEL_HEIGHT as int,
                                panel.size.y as int,
                                size.y as int,
                            ),
                        ) as i64
                    } else {
                        0
                    },
                };
                FloatingPanel {
                    size,
                    position: panel.position.add_spec(shift),
                    resizing: true,
                    ..panel
                }
            },
        }
    }
}

/// Applies a drag on a resize handle to its panel. The panel grows or
/// shrinks by the drag; a handle on the left or the top also moves the
/// panel, as far as the extent that shows changes; when the drag ends the
/// size is raised to the least size. While some panel has priority no panel
/// is resized.
pub fn update_panel_size_on_resize(
    draggable: &Draggable,
    direction: ResizeDirection,
    panel: &mut FloatingPanel,
    any_priority: bool,
)
    ensures
        *final(panel) == if any_priority {
            *old(panel)
        } else {
            resized_panel(*old(panel), *draggable, direction)
        },
{
    if any_priority {
        return ;
    }
    if draggable.state == DragState::Inactive || draggable.state == DragState::MaybeDragged
        || draggable.state == DragState::DragCanceled {
        panel.resizing = false;
        return ;
    }
    let Some(diff) = draggable.diff else {
        return ;
    };
    let size_diff = direction.to_size_diff(diff);
    let old_size = panel.size;
    panel.resizing = true;
    let mut size = panel.size.plus(size_diff);
    if draggable.state == DragState::DragEnd {
        if size.x < MIN_PANEL_WIDTH {
            size.x = MIN_PANEL_WIDTH;
        }
        if size.y < MIN_PANEL_HEIGHT {
            size.y = MIN_PANEL_HEIGHT;
        }
    }
    panel.size = size;
    let pos_diff = match direction {
        ResizeDirection::North => Vec2 {
            x: 0,
            y: clip_position_change(diff.y, MIN_PANEL_HEIGHT, old_size.y, size.y),
        },
        ResizeDirection::NorthEast => Vec2 {
            x: 0,
            y: clip_position_change(diff.y, MIN_PANEL_HEIGHT, old_size.y, size.y),
        },
        ResizeDirection::East => Vec2 { x: 0, y: 0 },
        ResizeDirection::SouthEast => Vec2 { x: 0, y: 0 },
        ResizeDirection::South => Vec2 { x: 0, y: 0 },
        ResizeDirection::SouthWest => Vec2 {
            x: clip_position_change(diff.x, MIN_PANEL_WIDTH, old_size.x, size.x),
            y: 0,
        },
        ResizeDirection::West => Vec2 {
            x: clip_position_change(diff.x, MIN_PANEL_WIDTH, old_size.x, size.x),
            y: 0,
        },
        ResizeDirection::NorthWest => Vec2 {
            x: clip_position_change(diff.x, MIN_PANEL_WIDTH, old_size.x, size.x),
            y: clip_position_change(diff.y, MIN_PANEL_HEIGHT, old_size.y, size.y),
        },
    };
    panel.position = panel.position.plus(pos_diff);
}

/// The highest stacking index among the first `upto` panels, or zero where
/// none of them has one.
pub open spec fn max_z_index(panels: Seq<FloatingPanel>, upto: nat) -> usize
    decreases upto,
{
    if upto == 0 {
        0
    } else {
        let before = max_z_index(panels, (upto - 1) as nat);
        match panels[upto - 1].z_index {
            Some(z) if z > before => z,
            _ => before,
        }
    }
}

/// The number of panels without stacking index among the first `upto`.
pub open spec fn unindexed(panels: Seq<FloatingPanel>, upto: nat) -> nat
    decreases upto,
{
    if upto == 0 {
        0
    } else {
        unindexed(panels, (upto - 1) as nat) + if panels[upto - 1].z_index is None {
            1nat
        } else {
            0nat
        }
    }
}

/// A stacking index held at the upper end of the range of `usize`.
pub open spec fn capped_index(v: int) -> usize {
    if v > usize::MAX {
        usize::MAX
    } else {
        v as usize
    }
}

/// Panel `i` after new panels got their stacking index: a panel without one
/// lies above all that have one, in the order of the list.
pub open spec fn indexed_panel(panels: Seq<FloatingPanel>, i: int) -> FloatingPanel {
    if panels[i].z_index is None {
        FloatingPanel {
            z_index: Some(
                capped_index(
                    MIN_FLOATING_PANEL_Z_INDEX + max_z_index(panels, panels.len()) + unindexed(
                        panels,
                        (i + 1) as nat,
                    ),
                ),
            ),
            ..panels[i]
        }
    } else {
        panels[i]
    }
}

fn capped_sum(a: usize, b: usize, c: usize) -> (r: usize)
    ensures
        r == capped_index(a + b + c),
{
    let ab: usize = if b > usize::MAX - a {
        usize::MAX
    } else {
        a + b
    };
    if c > usize::MAX - ab {
        usize::MAX
    } else {
        ab + c
    }
}

fn highest_index(panels: &Vec<FloatingPanel>) -> (r: usize)
    ensures
        r == max_z_index(panels@, panels@.len()),
{
    let mut max: usize = 0;
    let mut i: usize = 0;
    while i < panels.len()
        invariant
            i <= panels.len(),
            max == max_z_index(panels@, i as nat),
        decreases panels.len() - i,
    {
        if let Some(z) = panels[i].z_index {
            if z > max {
                max = z;
            }
        }
        i += 1;
    }
    max
}

fn has_priority(panels: &Vec<FloatingPanel>) -> (r: bool)
    ensures
        r == exists|i: int| 0 <= i < panels@.len() && (#[trigger] panels@[i]).priority,
{
    let mut i: usize = 0;
    while i < panels.len()
        invariant
            i <= panels.len(),
            forall|j: int| 0 <= j < i ==> !(#[trigger] panels@[j]).priority,
        decreases panels.len() - i,
    {
        if panels[i].priority {
            return true;
        }
        i += 1;
    }
    false
}

/// Gives every panel without stacking index one above all panels that have
/// one, in the order of the list.
pub fn index_floating_panel(panels: &mut Vec<FloatingPanel>)
    ensures
        final(panels)@.len() == old(panels)@.len(),
        forall|i: int|
            0 <= i < old(panels)@.len() ==> #[trigger] final(panels)@[i] == indexed_panel(
                old(panels)@,
                i,
            ),
{
    let max = highest_index(panels);
    let mut count: usize = 0;
    let mut i: usize = 0;
    while i < panels.len()
        invariant
            i <= panels.len(),
            panels@.len() == old(panels)@.len(),
            max == max_z_index(old(panels)@, old(panels)@.len()),
            count == unindexed(old(panels)@, i as nat),
            count <= i,
            forall|j: int| 0 <= j < i ==> #[trigger] panels@[j] == indexed_panel(old(panels)@, j),
            forall|j: int| i <= j < panels@.len() ==> panels@[j] == old(panels)@[j],
        decreases panels.len() - i,
    {
        let panel = panels[i];
        if panel.z_index.is_none() {
            let below = capped_sum(MIN_FLOATING_PANEL_Z_INDEX, max, count);
            let z = capped_sum(below, 1, 0);
            panels.set(
                i,
                FloatingPanel {
                    size: panel.size,
                    position: panel.position,
                    z_index: Some(z),
                    content_panel: panel.content_panel,
                    resizing: panel.resizing,
                    moving: panel.moving,
                    priority: panel.priority,
                },
            );
            count += 1;
        }
        i += 1;
    }
}

/// Whether panel `a` lies below panel `b` in the stacking order: its index
/// is lower (a panel without index lies below all that have one), or the
/// two are level and `a` comes first in the list.
pub open spec fn lies_below(panels: Seq<FloatingPanel>, a: int, b: int) -> bool {
    let za = panels[a].z_index;
    let zb = panels[b].z_index;
    match (za, zb) {
        (None, None) => a < b,
        (None, Some(_)) => true,
        (Some(_), None) => false,
        (Some(x), Some(y)) => x < y || (x == y && a < b),
    }
}

/// The number of panels among the first `upto` that lie below panel `p`.
pub open spec fn rank(panels: Seq<FloatingPanel>, p: int, upto: nat) -> nat
    decreases upto,
{
    if upto == 0 {
        0
    } else {
        rank(panels, p, (upto - 1) as nat) + if upto - 1 != p && lies_below(panels, upto - 1, p) {
            1nat
        } else {
            0nat
        }
    }
}

/// The panels with their stacking indices renumbered without gaps from the
/// lowest index on, in their stacking order.
pub open spec fn renumbered(panels: Seq<FloatingPanel>) -> Seq<FloatingPanel> {
    Seq::new(
        panels.len(),
        |i: int|
            FloatingPanel {
                z_index: Some(
                    capped_index(MIN_FLOATING_PANEL_Z_INDEX + rank(panels, i, panels.len()) + 1),
                ),
                ..panels[i]
            },
    )
}

/// One drag on the title or the drag handle of a panel.
#[derive(Clone, Copy, Debug, PartialEq, Eq, Structural)]
pub struct TitleDrag {
    pub draggable: Draggable,
    /// The place of the panel in the list of panels.
    pub panel: usize,
}

/// Panel `panel` after the drag `drag`, where `raised` drags before it have
/// raised their panels above the highest index `top`.
pub open spec fn dragged_panel(panel: FloatingPanel, draggable: Draggable, top: usize, raised: nat) -> FloatingPanel {
    if panel.resizing {
        panel
    } else if is_idle(draggable.state) {
        FloatingPanel { moving: false, ..panel }
    } else {
        match draggable.diff {
            None => FloatingPanel { moving: true, ..panel },
            Some(diff) => FloatingPanel {
                moving: true,
                z_index: Some(capped_index(top + raised + 1)),
                position: panel.position.add_spec(diff),
                ..panel
            },
        }
    }
}

/// Whether the drag `drag` raises and moves its panel.
pub open spec fn raises(panels: Seq<FloatingPanel>, drag: TitleDrag) -> bool {
    drag.panel < panels.len() && !panels[drag.panel as int].resizing && !is_idle(
        drag.draggable.state,
    ) && drag.draggable.diff is Some
}

/// The panels after the first `upto` drags, and the number of drags among
/// them that raised a panel.
pub open spec fn after_drags(
    panels: Seq<FloatingPanel>,
    drags: Seq<TitleDrag>,
    top: usize,
    upto: nat,
) -> (Seq<FloatingPanel>, nat)
    decreases upto,
{
    if upto == 0 {
        (panels, 0)
    } else {
        let before = after_drags(panels, drags, top, (upto - 1) as nat);
        let drag = drags[upto - 1];
        if drag.panel < before.0.len() {
            (
                before.0.update(
                    drag.panel as int,
                    dragged_panel(before.0[drag.panel as int], drag.draggable, top, before.1),
                ),
                if raises(before.0, drag) {
                    before.1 + 1
                } else {
                    before.1
                },
            )
        } else {
            before
        }
    }
}

/// The panels after a tick of drags on titles: each dragged panel moves by
/// its drag and rises above all others, and where a panel moved, the
/// stacking indices are renumbered without gaps. While some panel has
/// priority nothing moves.
pub open spec fn after_title_drags(panels: Seq<FloatingPanel>, drags: Seq<TitleDrag>) -> Seq<
    FloatingPanel,
> {
    if exists|i: int| 0 <= i < panels.len() && (#[trigger] panels[i]).priority {
        panels
    } else {
        let moved = after_drags(panels, drags, max_z_index(panels, panels.len()), drags.len());
        if moved.1 > 0 {
            renumbered(moved.0)
        } else {
            moved.0
        }
    }
}

fn below(a: Option<usize>, ia: usize, b: Option<usize>, ib: usize) -> (r: bool)
    ensures
        r == match (a, b) {
            (None, None) => ia < ib,
            (None, Some(_)) => true,
            (Some(_), None) => false,
            (Some(x), Some(y)) => x < y || (x == y && ia < ib),
        },
{
    match a {
        None => match b {
            None => ia < ib,
            Some(_) => true,
        },
        Some(x) => match b {
            None => false,
            Some(y) => x < y || (x == y && ia < ib),
        },
    }
}

fn renumber(panels: &mut Vec<FloatingPanel>)
    ensures
        final(panels)@ == renumbered(old(panels)@),
{
    let n = panels.len();
    let mut ranks: Vec<usize> = Vec::new();
    let mut p: usize = 0;
    while p < n
        invariant
            n == panels@.len(),
            panels@ == old(panels)@,
            p <= n,
            ranks@.len() == p,
            forall|j: int| 0 <= j < p ==> ranks@[j] == rank(panels@, j, n as nat),
        decreases n - p,
    {
        let mut count: usize = 0;
        let mut q: usize = 0;
        while q < n
            invariant
                n == panels@.len(),
                p < n,
                q <= n,
                count <= q,
                count == rank(panels@, p as int, q as nat),
            decreases n - q,
        {
            if q != p && below(panels[q].z_index, q, panels[p].z_index, p) {
                count += 1;
            }
            q += 1;
        }
        ranks.push(count);
        p += 1;
    }
    let mut i: usize = 0;
    while i < n
        invariant
            n == panels@.len(),
            n == old(panels)@.len(),
            i <= n,
            ranks@.len() == n,
            forall|j: int| 0 <= j < n ==> ranks@[j] == rank(old(panels)@, j, n as nat),
            forall|j: int| 0 <= j < i ==> panels@[j] == renumbered(old(panels)@)[j],
            forall|j: int| i <= j < n ==> panels@[j] == old(panels)@[j],
        decreases n - i,
    {
        let panel = panels[i];
        let z = capped_sum(MIN_FLOATING_PANEL_Z_INDEX, ranks[i], 1);
        panels.set(
            i,
            FloatingPanel {
                size: panel.size,
                position: panel.position,
                z_index: Some(z),
                content_panel: panel.content_panel,
                resizing: panel.resizing,
                moving: panel.moving,
                priority: panel.priority,
            },
        );
        i += 1;
    }
    assert(panels@ =~= renumbered(old(panels)@));
}

/// Applies the drags on panel titles and drag handles of one tick. A panel
/// that is dragged moves by the delta of the drag and rises above all other
/// panels; a panel that is being resized stays; a drag that is not under
/// way ends the move. Where a panel moved, the stacking indices of all
/// panels are renumbered without gaps. While some panel has priority
/// nothing changes.
pub fn update_panel_on_title_drag(drags: &Vec<TitleDrag>, panels: &mut Vec<FloatingPanel>)
    ensures
        final(panels)@ == after_title_drags(old(panels)@, drags@),
{
    if has_priority(panels) {
        return ;
    }
    let max_index = highest_index(panels);
    let mut raised: usize = 0;
    let mut k: usize = 0;
    while k < drags.len()
        invariant
            k <= drags.len(),
            raised <= k,
            panels@.len() == old(panels)@.len(),
            (panels@, raised as nat) == after_drags(old(panels)@, drags@, max_index, k as nat),
        decreases drags.len() - k,
    {
        let drag = drags[k];
        if drag.panel < panels.len() {
            let panel = panels[drag.panel];
            let state = drag.draggable.state;
            if panel.resizing {
                assert(panels@.update(drag.panel as int, panel) =~= panels@);
            } else if state == DragState::Inactive || state == DragState::MaybeDragged || state
                == DragState::DragCanceled {
                panels.set(
                    drag.panel,
                    FloatingPanel {
                        size: panel.size,
                        position: panel.position,
                        z_index: panel.z_index,
                        content_panel: panel.content_panel,
                        resizing: panel.resizing,
                        moving: false,
                        priority: panel.priority,
                    },
                );
            } else {
                match drag.draggable.diff {
                    None => {
                        panels.set(
                            drag.panel,
                            FloatingPanel {
                                size: panel.size,
                                position: panel.position,
                                z_index: panel.z_index,
                                content_panel: panel.content_panel,
                                resizing: panel.resizing,
                                moving: true,
                                priority: panel.priority,
                            },
                        );
                    },
                    Some(diff) => {
                        let z = capped_sum(max_index, raised, 1);
                        panels.set(
                            drag.panel,
                            FloatingPanel {
                                size: panel.size,
                                position: panel.position.plus(diff),
                                z_index: Some(z),
                                content_panel: panel.content_panel,
                                resizing: panel.resizing,
                                moving: true,
                                priority: panel.priority,
                            },
                        );
                        raised += 1;
                    },
                }
            }
        }
        k += 1;
    }
    if raised > 0 {
        renumber(panels);
    }
}

/// What a floating panel asks of the layout.
#[derive(Clone, Copy, Debug, PartialEq, Eq, Structural)]
pub struct PanelLayout {
    pub render_resize_handles: bool,
    /// Whether the pointer passes through the panel to what lies below.
    pub pass_focus: bool,
    /// Whether the title and the drag handle react to the pointer.
    pub title_enabled: bool,
    /// Whether the fold and the close button react to the pointer.
    pub buttons_enabled: bool,
    pub width: Val,
    pub height: Val,
    pub position: Vec2,
    pub z_index: Option<usize>,
}

/// The layout of a panel: a folded panel is as large as its title, any
/// other at least of the least size; resize handles show on a panel that is
/// open, resizable and at rest; a panel that moves lets the pointer through
/// and its buttons rest; a panel with priority lies above all others.
pub open spec fn layout_of(panel: FloatingPanel, config: FloatingPanelConfig) -> PanelLayout {
    PanelLayout {
        render_resize_handles: !config.folded && config.resizable && !panel.moving,
        pass_focus: panel.moving,
        title_enabled: !panel.resizing,
        buttons_enabled: !(panel.moving || panel.resizing),
        width: if config.folded {
            Val::Auto
        } else {
            Val::Px(at_least(panel.size.x, MIN_PANEL_WIDTH))
        },
        height: if config.folded {
            Val::Auto
        } else {
            Val::Px(at_least(panel.size.y, MIN_PANEL_HEIGHT))
        },
        position: panel.position,
        z_index: if panel.priority {
            Some(PRIORITY_FLOATING_PANEL_Z_INDEX)
        } else {
            panel.z_index
        },
    }
}

/// Computes what a floating panel asks of the layout.
pub fn update_panel_layout(panel: &FloatingPanel, config: &FloatingPanelConfig) -> (r: PanelLayout)
    ensures
        r == layout_of(*panel, *config),
{
    PanelLayout {
        render_resize_handles: !config.folded && config.resizable && !panel.moving,
        pass_focus: panel.moving,
        title_enabled: !panel.resizing,
        buttons_enabled: !(panel.moving || panel.resizing),
        width: if config.folded {
            Val::Auto
        } else {
            Val::Px(
                if panel.size.x < MIN_PANEL_WIDTH {
                    MIN_PANEL_WIDTH
                } else {
                    panel.size.x
                },
            )
        },
        height: if config.folded {
            Val::Auto
        } else {
            Val::Px(
                if panel.size.y < MIN_PANEL_HEIGHT {
                    MIN_PANEL_HEIGHT
                } else {
                    panel.size.y
                },
            )
        },
        position: panel.position,
        z_index: if panel.priority {
            Some(PRIORITY_FLOATING_PANEL_Z_INDEX)
        } else {
            panel.z_index
        },
    }
}

/// Folds an open panel and opens a folded one.
pub fn process_panel_fold_pressed(config: &mut FloatingPanelConfig)
    ensures
        *final(config) == (FloatingPanelConfig { folded: !old(config).folded, ..*old(config) }),
{
    config.folded = !config.folded;
}

/// A coordinate held at zero from below.
pub open spec fn floored(v: int) -> i64 {
    if v < 0 {
        0
    } else {
        clamp_i64(v) as i64
    }
}

/// The position of a panel after the window changed to `window`. `corner`
/// is the top left corner at which the panel was last laid out. A panel
/// whose corner lies beyond the right or the lower edge of the window less
/// the padding is pulled back so that the padding stays visible, and along
/// the other axis so far that it ends inside the window.
pub open spec fn pulled_back(panel: FloatingPanel, corner: Vec2, window: Vec2) -> Vec2 {
    let first = if corner.x > window.x - WINDOW_RESIZE_PADDING {
        Vec2 {
            x: floored(panel.position.x - panel.size.x + WINDOW_RESIZE_PADDING),
            y: if corner.y > window.y - panel.size.y {
                floored(panel.position.y - (corner.y - (window.y - panel.size.y)))
            } else {
                panel.position.y
            },
        }
    } else {
        panel.position
    };
    if corner.y > window.y - WINDOW_RESIZE_PADDING {
        Vec2 {
            x: if corner.x > window.x - panel.size.x {
                floored(first.x - (corner.x - (window.x - panel.size.x)))
            } else {
                first.x
            },
            y: floored(first.y - panel.size.y + WINDOW_RESIZE_PADDING),
        }
    } else {
        first
    }
}

fn floor_at_zero(v: i128) -> (r: i64)
    ensures
        r == floored(v as int),
{
    if v < 0 {
        0
    } else {
        narrow(v)
    }
}

/// Keeps a panel within reach after the window changed size.
pub fn handle_window_resize(panel: &mut FloatingPanel, corner: Vec2, window: Vec2)
    ensures
        *final(panel) == (FloatingPanel {
            position: pulled_back(*old(panel), corner, window),
            ..*old(panel)
        }),
{
    let size = panel.size;
    if corner.x as i128 > window.x as i128 - WINDOW_RESIZE_PADDING as i128 {
        panel.position.x = floor_at_zero(
            panel.position.x as i128 - size.x as i128 + WINDOW_RESIZE_PADDING as i128,
        );
        if corner.y as i128 > window.y as i128 - size.y as i128 {
            let overflow: i128 = corner.y as i128 - (window.y as i128 - size.y as i128);
            panel.position.y = floor_at_zero(panel.position.y as i128 - overflow);
        }
    }
    if corner.y as i128 > window.y as i128 - WINDOW_RESIZE_PADDING as i128 {
        panel.position.y = floor_at_zero(
            panel.position.y as i128 - size.y as i128 + WINDOW_RESIZE_PADDING as i128,
        );
        if corner.x as i128 > window.x as i128 - size.x as i128 {
            let overflow: i128 = corner.x as i128 - (window.x as i128 - size.x as i128);
            panel.position.x = floor_at_zero(panel.position.x as i128 - overflow);
        }
    }
}

/// The panel whose content is replaced by the panel `panel_id`, and the
/// content that it held: `None` where the panel holds `panel_id` already.
pub fn update_floating_panel_panel_id(panel: &mut FloatingPanel, panel_id: Entity) -> (replaced:
    Option<Entity>)
    ensures
        final(panel).content_panel == panel_id,
        *final(panel) == (FloatingPanel { content_panel: panel_id, ..*old(panel) }),
        replaced == if old(panel).content_panel == panel_id {
            None
        } else {
            Some(old(panel).content_panel)
        },
{
    if panel.content_panel == panel_id {
        return None;
    }
    let old_panel = panel.content_panel;
    panel.content_panel = panel_id;
    Some(old_panel)
}

} // verus!
