//! Scroll views: the scroll offset under wheel and scroll bar, and the
//! layout of content and scroll bars.
use vstd::prelude::*;
use crate::drag_interaction::{DragState, Draggable};
use crate::scroll_interaction::{MouseScrollUnit, Scroll, ScrollAxis};
use crate::units::{clamp_i64, floor_div, narrow, Vec2};

verus! {

/// Layout units that one line of the wheel scrolls.
pub const LINE_HEIGHT: i64 = 20;

/// The least length of the handle of a scroll bar, and the extent up to
/// which a view shows no scroll bar.
pub const MIN_BAR_LENGTH: i64 = 5;

/// The room that a visible scroll bar takes beside the content.
pub const BAR_PADDING: i64 = 12;

/// The scroll offset of a view.
#[derive(Clone, Copy, Debug, PartialEq, Eq, Structural)]
pub struct ScrollView {
    pub scroll_offset: Vec2,
    pub has_horizontal_bar: bool,
    pub has_vertical_bar: bool,
}

impl Default for ScrollView {
    fn default() -> (r: Self)
        ensures
            r == (ScrollView {
                scroll_offset: Vec2 { x: 0, y: 0 },
                has_horizontal_bar: false,
                has_vertical_bar: false,
            }),
    {
        ScrollView {
            scroll_offset: Vec2 { x: 0, y: 0 },
            has_horizontal_bar: false,
            has_vertical_bar: false,
        }
    }
}

/// The layout units that a scroll moves the content by: a line counts for
/// twenty units; the amount is in millionths and is rounded down.
pub open spec fn scroll_distance(scroll: Scroll) -> int {
    match scroll.unit {
        MouseScrollUnit::Line => (scroll.diff * LINE_HEIGHT) / 1_000_000,
        MouseScrollUnit::Pixel => scroll.diff as int / 1_000_000,
    }
}

/// A point moved by `distance` along `axis`, held in range.
pub open spec fn moved_along(point: Vec2, axis: ScrollAxis, distance: int) -> Vec2 {
    match axis {
        ScrollAxis::Horizontal => Vec2 { x: clamp_i64(point.x + distance) as i64, y: point.y },
        ScrollAxis::Vertical => Vec2 { x: point.x, y: clamp_i64(point.y + distance) as i64 },
    }
}

fn move_along(point: Vec2, axis: ScrollAxis, distance: i128) -> (r: Vec2)
    ensures
        r == moved_along(point, axis, distance as int),
{
    let near: i128 = if distance > 0x2_0000_0000_0000_0000 {
        0x2_0000_0000_0000_0000
    } else if distance < -0x2_0000_0000_0000_0000 {
        -0x2_0000_0000_0000_0000
    } else {
        distance
    };
    match axis {
        ScrollAxis::Horizontal => Vec2 { x: narrow(point.x as i128 + near), y: point.y },
        ScrollAxis::Vertical => Vec2 { x: point.x, y: narrow(point.y as i128 + near) },
    }
}

/// Scrolls a view by a turn of the wheel.
pub fn update_scroll_view_on_scroll(scroll_view: &mut ScrollView, scroll: Scroll)
    ensures
        *final(scroll_view) == (ScrollView {
            scroll_offset: moved_along(
                old(scroll_view).scroll_offset,
                scroll.axis,
                scroll_distance(scroll),
            ),
            ..*old(scroll_view)
        }),
{
    let distance: i128 = match scroll.unit {
        MouseScrollUnit::Line => floor_div(scroll.diff as i128 * 20, 1_000_000),
        MouseScrollUnit::Pixel => floor_div(scroll.diff as i128, 1_000_000),
    };
    scroll_view.scroll_offset = move_along(scroll_view.scroll_offset, scroll.axis, distance);
}

/// The component of a point along an axis.
pub open spec fn component(point: Vec2, axis: ScrollAxis) -> i64 {
    match axis {
        ScrollAxis::Horizontal => point.x,
        ScrollAxis::Vertical => point.y,
    }
}

fn along(point: Vec2, axis: ScrollAxis) -> (r: i64)
    ensures
        r == component(point, axis),
{
    match axis {
        ScrollAxis::Horizontal => point.x,
        ScrollAxis::Vertical => point.y,
    }
}

/// What a drag on the handle of a scroll bar moves the content by: the
/// drag, scaled by the overflow of the content over the room that the handle
/// has to move in. `None` where the gesture is not under way, nothing
/// overflows, or the handle has no room.
pub open spec fn drag_distance(
    draggable: Draggable,
    axis: ScrollAxis,
    bar_size: Vec2,
    content_size: Vec2,
    container_size: Vec2,
) -> Option<int> {
    let overflow = component(content_size, axis) - component(container_size, axis);
    let room = component(container_size, axis) - component(bar_size, axis);
    if draggable.state == DragState::Inactive || draggable.state == DragState::MaybeDragged
        || draggable.state == DragState::DragCanceled || draggable.diff is None || overflow <= 0
        || room <= 0 {
        None
    } else {
        Some((component(draggable.diff.unwrap(), axis) * overflow) / room)
    }
}

/// Scrolls a view by a drag on the handle of one of its scroll bars.
pub fn update_scroll_view_on_drag(
    scroll_view: &mut ScrollView,
    draggable: &Draggable,
    axis: ScrollAxis,
    bar_size: Vec2,
    content_size: Vec2,
    container_size: Vec2,
)
    ensures
        *final(scroll_view) == match drag_distance(
            *draggable,
            axis,
            bar_size,
            content_size,
            container_size,
        ) {
            Some(distance) => ScrollView {
                scroll_offset: moved_along(old(scroll_view).scroll_offset, axis, distance),
                ..*old(scroll_view)
            },
            None => *old(scroll_view),
        },
{
    if draggable.state == DragState::Inactive || draggable.state == DragState::MaybeDragged
        || draggable.state == DragState::DragCanceled {
        return ;
    }
    let Some(diff) = draggable.diff else {
        return ;
    };
    let overflow: i128 = along(content_size, axis) as i128 - along(container_size, axis) as i128;
    if overflow <= 0 {
        return ;
    }
    let room: i128 = along(container_size, axis) as i128 - along(bar_size, axis) as i128;
    if room <= 0 {
        return ;
    }
    let d: i128 = along(diff, axis) as i128;
    assert(-0x7fff_ffff_ffff_ffff_8000_0000_0000_0000 <= d * overflow
        <= 0x7fff_ffff_ffff_ffff_8000_0000_0000_0000) by (nonlinear_arith)
        requires
            -0x8000_0000_0000_0000 <= d <= 0x8000_0000_0000_0000,
            0 < overflow <= 0xffff_ffff_ffff_ffff,
    ;
    let distance: i128 = floor_div(d * overflow, room);
    scroll_view.scroll_offset = move_along(scroll_view.scroll_offset, axis, distance);
}

/// An offset held within what overflows; left as it is where nothing does.
pub open spec fn held(offset: i64, overflow: int) -> i64 {
    if overflow > 0 {
        if offset < 0 {
            0
        } else if offset > overflow {
            overflow as i64
        } else {
            offset
        }
    } else {
        offset
    }
}

fn hold(offset: i64, overflow: i128) -> (r: i64)
    requires
        overflow <= 0x1_0000_0000_0000_0000,
    ensures
        r == held(offset, overflow as int),
{
    if overflow > 0 {
        if offset < 0 {
            0
        } else if offset as i128 > overflow {
            overflow as i64
        } else {
            offset
        }
    } else {
        offset
    }
}

/// Whether a view is laid out: neither extent is zero.
pub open spec fn is_laid_out(size: Vec2) -> bool {
    size.x != 0 && size.y != 0
}

/// Holds the scroll offset of a view within what its content overflows.
pub fn update_scroll_view_offset(scroll_view: &mut ScrollView, container_size: Vec2, content_size: Vec2)
    ensures
        *final(scroll_view) == if is_laid_out(container_size) {
            ScrollView {
                scroll_offset: Vec2 {
                    x: held(old(scroll_view).scroll_offset.x, content_size.x - container_size.x),
                    y: held(old(scroll_view).scroll_offset.y, content_size.y - container_size.y),
                },
                ..*old(scroll_view)
            }
        } else {
            *old(scroll_view)
        },
{
    if container_size.x == 0 || container_size.y == 0 {
        return ;
    }
    let overflow_x: i128 = content_size.x as i128 - container_size.x as i128;
    let overflow_y: i128 = content_size.y as i128 - container_size.y as i128;
    scroll_view.scroll_offset = Vec2 {
        x: hold(scroll_view.scroll_offset.x, overflow_x),
        y: hold(scroll_view.scroll_offset.y, overflow_y),
    };
}

/// The handle of a scroll bar.
#[derive(Clone, Copy, Debug, PartialEq, Eq, Structural)]
pub struct BarLayout {
    pub length: i64,
    pub offset: i64,
}

/// What a scroll view asks of the layout.
#[derive(Clone, Copy, Debug, PartialEq, Eq, Structural)]
pub struct ScrollViewLayout {
    /// Where the content lies relative to the view: the offset, negated.
    pub content_left: i64,
    pub content_top: i64,
    /// The handle of the vertical scroll bar; `None` hides the bar.
    pub vertical_bar: Option<BarLayout>,
    /// The handle of the horizontal scroll bar; `None` hides the bar.
    pub horizontal_bar: Option<BarLayout>,
    pub padding_right: i64,
    pub padding_bottom: i64,
}

/// Whether a scroll bar shows along an axis on which the view is
/// `container` long and its content `content`.
pub open spec fn bar_shows(container: i64, content: i64) -> bool {
    container < content && container > MIN_BAR_LENGTH
}

/// The handle of a scroll bar that shows: as long as the part of the
/// content that is visible, scaled to the view, but at least the least
/// length; and as far along its room as the offset is along the overflow.
pub open spec fn bar_of(container: i64, content: i64, offset: i64) -> BarLayout {
    let overflow = content - container;
    let scaled = (container * container) / (content as int);
    let length = if scaled < MIN_BAR_LENGTH {
        MIN_BAR_LENGTH as int
    } else {
        scaled
    };
    BarLayout {
        length: length as i64,
        offset: ((held(offset, overflow) * (container - length)) / overflow) as i64,
    }
}

/// The place of the content along an axis: against the offset where the
/// content overflows, at the start where it does not.
pub open spec fn content_place(container: i64, content: i64, offset: i64) -> i64 {
    if content > container {
        (-held(offset, content - container)) as i64
    } else {
        0
    }
}

/// The layout of a scroll view of extent `container_size` over content of
/// extent `content_size`; `None` for a view that is not laid out.
pub open spec fn layout_of(scroll_view: ScrollView, container_size: Vec2, content_size: Vec2) -> Option<
    ScrollViewLayout,
> {
    if !is_laid_out(container_size) || container_size.x < 0 || container_size.y < 0 {
        None
    } else {
        let vertical = scroll_view.has_vertical_bar && bar_shows(container_size.y, content_size.y);
        let horizontal = scroll_view.has_horizontal_bar && bar_shows(
            container_size.x,
            content_size.x,
        );
        Some(
            ScrollViewLayout {
                content_left: content_place(
                    container_size.x,
                    content_size.x,
                    scroll_view.scroll_offset.x,
                ),
                content_top: content_place(
                    container_size.y,
                    content_size.y,
                    scroll_view.scroll_offset.y,
                ),
                vertical_bar: if vertical {
                    Some(bar_of(container_size.y, content_size.y, scroll_view.scroll_offset.y))
                } else {
                    None
                },
                horizontal_bar: if horizontal {
                    Some(bar_of(container_size.x, content_size.x, scroll_view.scroll_offset.x))
                } else {
                    None
                },
                padding_right: if vertical || !scroll_view.has_vertical_bar {
                    BAR_PADDING
                } else {
                    0
                },
                padding_bottom: if horizontal || !scroll_view.has_horizontal_bar {
                    BAR_PADDING
                } else {
                    0
                },
            },
        )
    }
}

fn place_content(container: i64, content: i64, offset: i64) -> (r: i64)
    requires
        container > 0,
    ensures
        r == content_place(container, content, offset),
{
    if content > container {
        let overflow: i128 = content as i128 - container as i128;
        -hold(offset, overflow)
    } else {
        0
    }
}

fn lay_out_bar(container: i64, content: i64, offset: i64) -> (r: BarLayout)
    requires
        bar_shows(container, content),
    ensures
        r == bar_of(container, content, offset),
{
    let overflow: i128 = content as i128 - container as i128;
    assert(0 <= container * container <= 0x8000_0000_0000_0000 * 0x8000_0000_0000_0000)
        by (nonlinear_arith)
        requires
            0 <= container <= 0x8000_0000_0000_0000,
    ;
    let scaled: i128 = floor_div(container as i128 * container as i128, content as i128);
    assert(0 <= scaled <= container) by (nonlinear_arith)
        requires
            scaled == (container * container) / (content as int),
            0 < container < content,
    ;
    let length: i64 = if scaled < MIN_BAR_LENGTH as i128 {
        MIN_BAR_LENGTH
    } else {
        scaled as i64
    };
    let room: i128 = container as i128 - length as i128;
    let at = hold(offset, overflow);
    assert(0 <= at * room <= 0x8000_0000_0000_0000 * 0x8000_0000_0000_0000) by (nonlinear_arith)
        requires
            0 <= at <= 0x8000_0000_0000_0000,
            0 <= room <= 0x8000_0000_0000_0000,
    ;
    let along: i128 = floor_div(at as i128 * room, overflow);
    assert(0 <= along <= room) by (nonlinear_arith)
        requires
            along == (at * room) / (overflow as int),
            0 <= at <= overflow,
            0 <= room,
            overflow > 0,
    ;
    BarLayout { length, offset: along as i64 }
}

/// Computes where the content of a scroll view lies and how its scroll bars
/// show.
pub fn update_scroll_view_layout(scroll_view: &ScrollView, container_size: Vec2, content_size: Vec2) -> (r:
    Option<ScrollViewLayout>)
    ensures
        r == layout_of(*scroll_view, container_size, content_size),
{
    if container_size.x <= 0 || container_size.y <= 0 {
        return None;
    }
    let vertical = scroll_view.has_vertical_bar && container_size.y < content_size.y
        && container_size.y > MIN_BAR_LENGTH;
    let horizontal = scroll_view.has_horizontal_bar && container_size.x < content_size.x
        && container_size.x > MIN_BAR_LENGTH;
    Some(
        ScrollViewLayout {
            content_left: place_content(container_size.x, content_size.x, scroll_view.scroll_offset.x),
            content_top: place_content(container_size.y, content_size.y, scroll_view.scroll_offset.y),
            vertical_bar: if vertical {
                Some(lay_out_bar(container_size.y, content_size.y, scroll_view.scroll_offset.y))
            } else {
                None
            },
            horizontal_bar: if horizontal {
                Some(lay_out_bar(container_size.x, content_size.x, scroll_view.scroll_offset.x))
            } else {
                None
            },
            padding_right: if vertical || !scroll_view.has_vertical_bar {
                BAR_PADDING
            } else {
                0
            },
            padding_bottom: if horizontal || !scroll_view.has_horizontal_bar {
                BAR_PADDING
            } else {
                0
            },
        },
    )
}

} // verus!
