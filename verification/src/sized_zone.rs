//! Percentage-sized zones: resizing two neighbours against each other,
//! refitting the zones of a parent to the space it has, and the style that a
//! zone asks for.
use vstd::prelude::*;
use crate::drag_interaction::{DragState, Draggable};
use crate::resize_interaction::ResizeDirection;
use crate::style::{FlexDirection, UiRect, Val};
use crate::units::{floor_div, Entity, Vec2};

verus! {

/// The least floor of a sized zone, in layout units.
pub const MIN_SIZED_ZONE_SIZE: i64 = 50;

/// One percent, in the unit of `size_percent`.
pub const PERCENT: i64 = 1_000_000;

/// The whole of the parent, in the unit of `size_percent`.
pub const FULL_SIZE: i64 = 100_000_000;

/// Half of the parent, in the unit of `size_percent`.
pub const HALF_SIZE: i64 = 50_000_000;

/// The largest extent of a parent, in layout units, up to which a size in
/// percent determines the size in layout units and the other way round, and
/// up to which the zones of a parent are refitted.
pub const MAX_EXTENT: i64 = 100_000_000;

/// What a zone is created from.
#[derive(Clone, Copy, Debug, PartialEq, Eq, Structural)]
pub struct SizedZoneConfig {
    /// Share of the parent's main axis, in millionths of a percent.
    pub size: i64,
    /// Floor of the zone, in layout units.
    pub min_size: i64,
}

impl Default for SizedZoneConfig {
    fn default() -> (r: Self)
        ensures
            r == (SizedZoneConfig { size: 0, min_size: 0 }),
    {
        SizedZoneConfig { size: 0, min_size: 0 }
    }
}

/// A resizable region that takes a share of its parent's main axis.
#[derive(Clone, Copy, Debug, PartialEq, Eq, Structural)]
pub struct SizedZone {
    pub size_percent: i64,
    pub min_size: i64,
    pub children_size: i64,
    pub flex_direction: FlexDirection,
    pub top_handle: Entity,
    pub right_handle: Entity,
    pub bottom_handle: Entity,
    pub left_handle: Entity,
}

/// The link from a resize handle to the zone it belongs to and to the zone
/// on its other side.
#[derive(Clone, Copy, Debug, PartialEq, Eq, Structural)]
pub struct SizedZoneResizeHandle {
    pub sized_zone: Entity,
    pub neighbour: Option<Entity>,
}

impl Default for SizedZoneResizeHandle {
    fn default() -> (r: Self)
        ensures
            r == (SizedZoneResizeHandle { sized_zone: Entity(u64::MAX), neighbour: None }),
    {
        SizedZoneResizeHandle { sized_zone: Entity::placeholder(), neighbour: None }
    }
}

/// Marks the element that holds the resize handles of a zone.
#[derive(Clone, Copy, Debug, PartialEq, Eq, Structural)]
pub struct SizedZoneResizeHandleContainer;

/// A share held between nothing and the whole.
pub open spec fn clamp_share(v: int) -> int {
    if v < 0 {
        0
    } else if v > FULL_SIZE {
        FULL_SIZE as int
    } else {
        v
    }
}

fn clamp_to_share(v: i128) -> (r: i64)
    ensures
        r == clamp_share(v as int),
{
    if v < 0 {
        0
    } else if v > FULL_SIZE as i128 {
        FULL_SIZE
    } else {
        v as i64
    }
}

impl Default for SizedZone {
    fn default() -> (r: Self)
        ensures
            r == (SizedZone {
                size_percent: 0,
                min_size: MIN_SIZED_ZONE_SIZE,
                children_size: 0,
                flex_direction: FlexDirection::Row,
                top_handle: Entity(u64::MAX),
                right_handle: Entity(u64::MAX),
                bottom_handle: Entity(u64::MAX),
                left_handle: Entity(u64::MAX),
            }),
            r.wf(),
    {
        SizedZone {
            size_percent: 0,
            min_size: MIN_SIZED_ZONE_SIZE,
            children_size: 0,
            flex_direction: FlexDirection::Row,
            top_handle: Entity::placeholder(),
            right_handle: Entity::placeholder(),
            bottom_handle: Entity::placeholder(),
            left_handle: Entity::placeholder(),
        }
    }
}

impl SizedZone {
    /// The share lies between nothing and the whole, and the floor is at
    /// least the least floor.
    pub open spec fn wf(self) -> bool {
        &&& 0 <= self.size_percent <= FULL_SIZE
        &&& self.min_size >= MIN_SIZED_ZONE_SIZE
    }

    /// The zone that a configuration describes.
    pub open spec fn configured(
        config: SizedZoneConfig,
        top_handle: Entity,
        right_handle: Entity,
        bottom_handle: Entity,
        left_handle: Entity,
    ) -> SizedZone {
        SizedZone {
            size_percent: clamp_share(config.size as int) as i64,
            min_size: if config.min_size < MIN_SIZED_ZONE_SIZE {
                MIN_SIZED_ZONE_SIZE
            } else {
                config.min_size
            },
            children_size: 0,
            flex_direction: FlexDirection::Row,
            top_handle,
            right_handle,
            bottom_handle,
            left_handle,
        }
    }

    /// Creates a zone: the share is held between nothing and the whole, the
    /// floor is raised to the least floor.
    pub fn new(
        config: SizedZoneConfig,
        top_handle: Entity,
        right_handle: Entity,
        bottom_handle: Entity,
        left_handle: Entity,
    ) -> (r: SizedZone)
        ensures
            r == SizedZone::configured(config, top_handle, right_handle, bottom_handle, left_handle),
            r.wf(),
    {
        SizedZone {
            size_percent: clamp_to_share(config.size as i128),
            min_size: if config.min_size < MIN_SIZED_ZONE_SIZE {
                MIN_SIZED_ZONE_SIZE
            } else {
                config.min_size
            },
            children_size: 0,
            flex_direction: FlexDirection::Row,
            top_handle,
            right_handle,
            bottom_handle,
            left_handle,
        }
    }

    pub fn direction(&self) -> (r: FlexDirection)
        ensures
            r == self.flex_direction,
    {
        self.flex_direction
    }

    pub fn size(&self) -> (r: i64)
        ensures
            r == self.size_percent,
    {
        self.size_percent
    }

    /// Sets the share, held between nothing and the whole.
    pub fn set_size(&mut self, size: i64)
        ensures
            *final(self) == (SizedZone { size_percent: clamp_share(size as int) as i64, ..*old(self) }),
            old(self).min_size >= MIN_SIZED_ZONE_SIZE ==> final(self).wf(),
    {
        self.size_percent = clamp_to_share(size as i128);
    }

    pub fn min_size(&self) -> (r: i64)
        ensures
            r == self.min_size,
    {
        self.min_size
    }
}

/// The extent, in layout units, of a share of a parent that is `total`
/// units long, rounded down.
pub open spec fn to_pixels(percent: i64, total: i64) -> int {
    (percent * total) / (FULL_SIZE as int)
}

/// The least share of a parent of `total > 0` units that is at least
/// `pixels` units long, held between nothing and the whole.
pub open spec fn to_percent(pixels: int, total: i64) -> int {
    clamp_share((pixels * FULL_SIZE + total - 1) / (total as int))
}

/// The sizes of a zone and its neighbour after a resize by `diff` units:
/// the zone takes `diff` from its neighbour (gives, where `diff` is
/// negative), but neither falls below its floor; what the giving side
/// cannot give is not taken.
pub open spec fn resized(
    current: int,
    neighbour: int,
    current_min: int,
    neighbour_min: int,
    diff: int,
) -> (int, int) {
    if diff < 0 {
        if current + diff >= current_min {
            (current + diff, neighbour - diff)
        } else {
            (current_min, neighbour + (current - current_min))
        }
    } else if diff > 0 {
        if neighbour - diff >= neighbour_min {
            (current + diff, neighbour - diff)
        } else {
            (current + (neighbour - neighbour_min), neighbour_min)
        }
    } else {
        (current, neighbour)
    }
}

/// The component of `v` along the main axis of the parent of a zone with
/// direction `direction`.
pub open spec fn along(direction: FlexDirection, v: Vec2) -> Option<i64> {
    match direction {
        FlexDirection::Row => Some(v.y),
        FlexDirection::Column => Some(v.x),
        _ => None,
    }
}

fn axis_of(direction: FlexDirection, v: Vec2) -> (r: Option<i64>)
    ensures
        r == along(direction, v),
{
    match direction {
        FlexDirection::Row => Some(v.y),
        FlexDirection::Column => Some(v.x),
        _ => None,
    }
}

/// Whether a parent extent is one within which a size in layout units and
/// its share determine each other: the parent is laid out and no longer
/// than the largest extent.
pub open spec fn is_laid_out(total: i64) -> bool {
    0 < total <= MAX_EXTENT
}

/// Whether a parent is laid out along an axis: its extent is positive.
pub open spec fn has_extent(total: i64) -> bool {
    total > 0
}

/// The signed change of size, along the zone's axis, that a drag on a handle
/// of the zone asks for; `None` where the drag asks for none.
pub open spec fn requested_diff(
    draggable: Draggable,
    handle_direction: ResizeDirection,
    direction: FlexDirection,
) -> Option<i64> {
    if draggable.state == DragState::Inactive || draggable.state == DragState::MaybeDragged
        || draggable.state == DragState::DragCanceled {
        None
    } else {
        match draggable.diff {
            Some(diff) => match along(direction, handle_direction.size_diff(diff)) {
                Some(d) if d != 0 => Some(d),
                _ => None,
            },
            None => None,
        }
    }
}

/// The shares of a zone and its neighbour after a drag on a handle between
/// them, within a parent of extent `parent_size`.
pub open spec fn resized_zones(
    draggable: Draggable,
    handle_direction: ResizeDirection,
    current: SizedZone,
    neighbour: SizedZone,
    parent_size: Vec2,
) -> (SizedZone, SizedZone) {
    match (
        requested_diff(draggable, handle_direction, current.flex_direction),
        along(current.flex_direction, parent_size),
    ) {
        (Some(diff), Some(total)) if has_extent(total) => {
            let sizes = resized(
                to_pixels(current.size_percent, total),
                to_pixels(neighbour.size_percent, total),
                current.children_size as int,
                neighbour.children_size as int,
                diff as int,
            );
            (
                SizedZone { size_percent: to_percent(sizes.0, total) as i64, ..current },
                SizedZone { size_percent: to_percent(sizes.1, total) as i64, ..neighbour },
            )
        },
        _ => (current, neighbour),
    }
}

fn pixels_of(percent: i64, total: i64) -> (r: i128)
    requires
        0 <= total,
    ensures
        r == to_pixels(percent, total),
        -0x10_0000_0000_0000_0000_0000_0000 <= r <= 0x10_0000_0000_0000_0000_0000_0000,
{
    assert(-0x4000_0000_0000_0000_0000_0000_0000_0000 <= percent * total
        <= 0x4000_0000_0000_0000_0000_0000_0000_0000) by (nonlinear_arith)
        requires
            0 <= total <= 0x8000_0000_0000_0000,
            -0x8000_0000_0000_0000 <= percent <= 0x8000_0000_0000_0000,
    ;
    let product: i128 = (percent as i128) * (total as i128);
    floor_div(product, 100_000_000i128)
}

fn percent_of(pixels: i128, total: i64) -> (r: i64)
    requires
        0 < total,
    ensures
        r == to_percent(pixels as int, total),
        0 <= r <= FULL_SIZE,
{
    if pixels <= 0 {
        assert((pixels * FULL_SIZE + total - 1) / (total as int) <= 0) by (nonlinear_arith)
            requires
                pixels <= 0,
                total > 0,
                FULL_SIZE == 100_000_000,
        ;
        0
    } else if pixels >= total as i128 {
        assert((pixels * FULL_SIZE + total - 1) / (total as int) >= FULL_SIZE) by (nonlinear_arith)
            requires
                pixels >= total,
                total > 0,
                FULL_SIZE == 100_000_000,
        ;
        FULL_SIZE
    } else {
        assert(0 <= pixels * 100_000_000 <= 0x8000_0000_0000_0000 * 100_000_000)
            by (nonlinear_arith)
            requires
                0 <= pixels <= 0x8000_0000_0000_0000,
        ;
        let product: i128 = pixels * 100_000_000i128 + (total as i128 - 1);
        let share: i128 = floor_div(product, total as i128);
        clamp_to_share(share)
    }
}

fn resize_pair(current: i128, neighbour: i128, current_min: i64, neighbour_min: i64, diff: i64) -> (r:
    (i128, i128))
    requires
        -0x10_0000_0000_0000_0000_0000_0000 <= current <= 0x10_0000_0000_0000_0000_0000_0000,
        -0x10_0000_0000_0000_0000_0000_0000 <= neighbour <= 0x10_0000_0000_0000_0000_0000_0000,
    ensures
        (r.0 as int, r.1 as int) == resized(
            current as int,
            neighbour as int,
            current_min as int,
            neighbour_min as int,
            diff as int,
        ),
{
    let d: i128 = diff as i128;
    if d < 0 {
        if current + d >= current_min as i128 {
            (current + d, neighbour - d)
        } else {
            (current_min as i128, neighbour + (current - current_min as i128))
        }
    } else if d > 0 {
        if neighbour - d >= neighbour_min as i128 {
            (current + d, neighbour - d)
        } else {
            (current + (neighbour - neighbour_min as i128), neighbour_min as i128)
        }
    } else {
        (current, neighbour)
    }
}

/// Applies a drag on a resize handle to the zone of the handle and to the
/// zone on the other side of the handle; both lie in one parent of extent
/// `parent_size`. The drag moves size from one zone to the other along the
/// zone's axis. Neither zone goes below its aggregate floor
/// (`children_size`), and what one zone cannot give is not taken from
/// anywhere else. Nothing changes for a gesture that is not under way, for a
/// delta of zero along the axis, for a zone whose direction is reversed, or
/// for a parent without extent along the axis. Says whether the zones were
/// written.
pub fn update_sized_zone_on_resize(
    draggable: &Draggable,
    handle_direction: ResizeDirection,
    current: &mut SizedZone,
    neighbour: &mut SizedZone,
    parent_size: Vec2,
) -> (written: bool)
    ensures
        (*final(current), *final(neighbour)) == resized_zones(
            *draggable,
            handle_direction,
            *old(current),
            *old(neighbour),
            parent_size,
        ),
        written == (requested_diff(*draggable, handle_direction, old(current).flex_direction)
            is Some && along(old(current).flex_direction, parent_size) is Some && has_extent(
            along(old(current).flex_direction, parent_size).unwrap(),
        )),
        old(current).wf() ==> final(current).wf(),
        old(neighbour).wf() ==> final(neighbour).wf(),
{
    if draggable.state == DragState::Inactive || draggable.state == DragState::MaybeDragged
        || draggable.state == DragState::DragCanceled {
        return false;
    }
    let Some(diff) = draggable.diff else {
        return false;
    };
    let Some(size_diff) = axis_of(current.flex_direction, handle_direction.to_size_diff(diff)) else {
        return false;
    };
    if size_diff == 0 {
        return false;
    }
    let Some(total_size) = axis_of(current.flex_direction, parent_size) else {
        return false;
    };
    if total_size <= 0 {
        return false;
    }
    let current_size = pixels_of(current.size_percent, total_size);
    let neighbour_size = pixels_of(neighbour.size_percent, total_size);
    let (current_new_size, neighbour_new_size) = resize_pair(
        current_size,
        neighbour_size,
        current.children_size,
        neighbour.children_size,
        size_diff,
    );
    current.size_percent = percent_of(current_new_size, total_size);
    neighbour.size_percent = percent_of(neighbour_new_size, total_size);
    true
}

/// The width and the height that a zone asks of the layout: the whole
/// across its axis and its share along it.
pub open spec fn zone_extent(zone: SizedZone) -> Option<(Val, Val)> {
    match zone.flex_direction {
        FlexDirection::Row => Some((Val::Percent(FULL_SIZE), Val::Percent(zone.size_percent))),
        FlexDirection::Column => Some((Val::Percent(zone.size_percent), Val::Percent(FULL_SIZE))),
        _ => None,
    }
}

/// The width and height to write into the style of a zone that changed;
/// `None` for a zone whose direction is reversed, whose extent is left alone.
pub fn update_sized_zone_style(zone: &SizedZone) -> (r: Option<(Val, Val)>)
    ensures
        r == zone_extent(*zone),
{
    match zone.flex_direction {
        FlexDirection::Row => Some((Val::Percent(FULL_SIZE), Val::Percent(zone.size_percent))),
        FlexDirection::Column => Some((Val::Percent(zone.size_percent), Val::Percent(FULL_SIZE))),
        _ => None,
    }
}

/// The border of a zone: two units on the sides that face its neighbours.
pub open spec fn zone_border(direction: FlexDirection) -> Option<UiRect> {
    match direction {
        FlexDirection::Row => Some(
            UiRect { left: Val::Px(0), right: Val::Px(0), top: Val::Px(2), bottom: Val::Px(2) },
        ),
        FlexDirection::Column => Some(
            UiRect { left: Val::Px(2), right: Val::Px(2), top: Val::Px(0), bottom: Val::Px(0) },
        ),
        _ => None,
    }
}

/// The border to write into the style of a zone; `None` for a zone whose
/// direction is reversed.
pub fn preset_sized_zone_border(zone: &SizedZone) -> (r: Option<UiRect>)
    ensures
        r == zone_border(zone.flex_direction),
{
    match zone.flex_direction {
        FlexDirection::Row => Some(
            UiRect { left: Val::Px(0), right: Val::Px(0), top: Val::Px(2), bottom: Val::Px(2) },
        ),
        FlexDirection::Column => Some(
            UiRect { left: Val::Px(2), right: Val::Px(2), top: Val::Px(0), bottom: Val::Px(0) },
        ),
        _ => None,
    }
}

/// Up to the largest extent a size in layout units survives the way through
/// its share: the share of `pixels` units, taken of the parent again, is
/// `pixels` units.
pub proof fn lemma_share_round_trip(pixels: int, total: i64)
    requires
        is_laid_out(total),
        0 <= pixels <= total,
    ensures
        0 <= to_percent(pixels, total) <= FULL_SIZE,
        to_pixels(to_percent(pixels, total) as i64, total) == pixels,
{
    let f = FULL_SIZE as int;
    let t = total as int;
    let n = pixels * f + t - 1;
    let p = n / t;
    vstd::arithmetic::div_mod::lemma_fundamental_div_mod(n, t);
    let r = n % t;
    assert(n == t * p + r);
    assert(0 <= r < t);
    assert(p * t >= pixels * f);
    assert(p * t <= pixels * f + t - 1);
    assert(0 <= p <= f) by (nonlinear_arith)
        requires
            p * t >= pixels * f,
            p * t <= pixels * f + t - 1,
            0 <= pixels <= t,
            0 < t <= f,
    ;
    assert(clamp_share(p) == p);
    let rest = p * t - pixels * f;
    assert(0 <= rest < f);
    assert(p * t == f * pixels + rest) by (nonlinear_arith)
        requires
            rest == p * t - pixels * f,
    ;
    vstd::arithmetic::div_mod::lemma_fundamental_div_mod_converse(p * t, f, pixels, rest);
}

/// The part of a requested change `diff` that two zones can carry out: the
/// change itself, but no more than the neighbour has above its floor
/// (`neighbour_room`) and no less than the negative of what the zone has
/// above its own (`current_room`).
pub open spec fn granted(diff: int, current_room: int, neighbour_room: int) -> int {
    if diff < -current_room {
        -current_room
    } else if diff > neighbour_room {
        neighbour_room
    } else {
        diff
    }
}

/// One resize keeps both zones on their floors and moves size between them
/// without loss: the zone takes exactly the granted part of the change and
/// the neighbour gives exactly that, so that the sizes add up to what they
/// added up to before; the rest of the change is dropped. The zone changes
/// by no more than was asked, and in the direction asked.
pub proof fn lemma_resize_floor(current: int, neighbour: int, current_min: int, neighbour_min: int, diff: int)
    requires
        current >= current_min,
        neighbour >= neighbour_min,
    ensures
        ({
            let r = resized(current, neighbour, current_min, neighbour_min, diff);
            let g = granted(diff, current - current_min, neighbour - neighbour_min);
            &&& r.0 == current + g
            &&& r.1 == neighbour - g
            &&& r.0 >= current_min
            &&& r.1 >= neighbour_min
            &&& r.0 + r.1 == current + neighbour
            &&& diff >= 0 ==> 0 <= r.0 - current <= diff
            &&& diff <= 0 ==> diff <= r.0 - current <= 0
        }),
{
}

/// One drag in a series of drags on the seam between two zones: the handle
/// that is dragged, the gesture, and whether the handle belongs to the
/// second zone.
pub struct SeamDrag {
    pub on_second: bool,
    pub handle_direction: ResizeDirection,
    pub draggable: Draggable,
}

/// Two neighbouring zones after a series of drags on the seam between them.
pub open spec fn resized_by(
    first: SizedZone,
    second: SizedZone,
    parent_size: Vec2,
    drags: Seq<SeamDrag>,
) -> (SizedZone, SizedZone)
    decreases drags.len(),
{
    if drags.len() == 0 {
        (first, second)
    } else {
        let before = resized_by(first, second, parent_size, drags.drop_last());
        let drag = drags.last();
        if drag.on_second {
            let r = resized_zones(drag.draggable, drag.handle_direction, before.1, before.0, parent_size);
            (r.1, r.0)
        } else {
            resized_zones(drag.draggable, drag.handle_direction, before.0, before.1, parent_size)
        }
    }
}

/// Whether two neighbouring zones of one direction stand on their floors
/// within a parent of `total` units: each is at least as long as its
/// aggregate floor, and together they are no longer than the parent.
pub open spec fn on_floors(first: SizedZone, second: SizedZone, total: i64) -> bool {
    &&& first.wf()
    &&& second.wf()
    &&& first.flex_direction == second.flex_direction
    &&& is_laid_out(total)
    &&& 0 <= first.children_size <= to_pixels(first.size_percent, total)
    &&& 0 <= second.children_size <= to_pixels(second.size_percent, total)
    &&& to_pixels(first.size_percent, total) + to_pixels(second.size_percent, total) <= total
}

/// A drag on the seam between two zones that stand on their floors leaves
/// them on their floors, and their sizes in layout units add up to what
/// they added up to before; the floors and directions stay as they were.
pub proof fn lemma_resize_keeps_floors(
    draggable: Draggable,
    handle_direction: ResizeDirection,
    current: SizedZone,
    neighbour: SizedZone,
    parent_size: Vec2,
)
    requires
        along(current.flex_direction, parent_size) is Some,
        on_floors(current, neighbour, along(current.flex_direction, parent_size).unwrap()),
    ensures
        ({
            let total = along(current.flex_direction, parent_size).unwrap();
            let r = resized_zones(draggable, handle_direction, current, neighbour, parent_size);
            &&& on_floors(r.0, r.1, total)
            &&& to_pixels(r.0.size_percent, total) + to_pixels(r.1.size_percent, total) == to_pixels(
                current.size_percent,
                total,
            ) + to_pixels(neighbour.size_percent, total)
            &&& r.0.children_size == current.children_size
            &&& r.1.children_size == neighbour.children_size
            &&& r.0.flex_direction == current.flex_direction
            &&& r.1.flex_direction == neighbour.flex_direction
        }),
{
    let total = along(current.flex_direction, parent_size).unwrap();
    match requested_diff(draggable, handle_direction, current.flex_direction) {
        Some(diff) => {
            let a = to_pixels(current.size_percent, total);
            let b = to_pixels(neighbour.size_percent, total);
            lemma_resize_floor(
                a,
                b,
                current.children_size as int,
                neighbour.children_size as int,
                diff as int,
            );
            let sizes = resized(
                a,
                b,
                current.children_size as int,
                neighbour.children_size as int,
                diff as int,
            );
            lemma_share_round_trip(sizes.0, total);
            lemma_share_round_trip(sizes.1, total);
        },
        None => {},
    }
}

/// The exact transfer of a resize: a drag that asks two zones on their
/// floors for a change `d` along their axis moves exactly the granted part
/// of `d` from the neighbour to the zone, in layout units; a drag that asks
/// for nothing leaves both zones as they are.
pub proof fn lemma_resize_transfers_exactly(
    draggable: Draggable,
    handle_direction: ResizeDirection,
    current: SizedZone,
    neighbour: SizedZone,
    parent_size: Vec2,
)
    requires
        along(current.flex_direction, parent_size) is Some,
        on_floors(current, neighbour, along(current.flex_direction, parent_size).unwrap()),
    ensures
        ({
            let total = along(current.flex_direction, parent_size).unwrap();
            let r = resized_zones(draggable, handle_direction, current, neighbour, parent_size);
            let c = to_pixels(current.size_percent, total);
            let n = to_pixels(neighbour.size_percent, total);
            match requested_diff(draggable, handle_direction, current.flex_direction) {
                Some(d) => {
                    let g = granted(
                        d as int,
                        c - current.children_size,
                        n - neighbour.children_size,
                    );
                    &&& to_pixels(r.0.size_percent, total) == c + g
                    &&& to_pixels(r.1.size_percent, total) == n - g
                },
                None => r == (current, neighbour),
            }
        }),
{
    let total = along(current.flex_direction, parent_size).unwrap();
    match requested_diff(draggable, handle_direction, current.flex_direction) {
        Some(diff) => {
            let a = to_pixels(current.size_percent, total);
            let b = to_pixels(neighbour.size_percent, total);
            lemma_resize_floor(
                a,
                b,
                current.children_size as int,
                neighbour.children_size as int,
                diff as int,
            );
            let sizes = resized(
                a,
                b,
                current.children_size as int,
                neighbour.children_size as int,
                diff as int,
            );
            lemma_share_round_trip(sizes.0, total);
            lemma_share_round_trip(sizes.1, total);
        },
        None => {},
    }
}

/// The floor law of resizing: two neighbouring zones that stand on their
/// floors stay on them through any series of drags on the seam between
/// them, from either side, and the sum of their sizes in layout units never
/// changes.
pub proof fn lemma_resize_series_keeps_floors(
    first: SizedZone,
    second: SizedZone,
    parent_size: Vec2,
    drags: Seq<SeamDrag>,
)
    requires
        along(first.flex_direction, parent_size) is Some,
        on_floors(first, second, along(first.flex_direction, parent_size).unwrap()),
    ensures
        ({
            let total = along(first.flex_direction, parent_size).unwrap();
            let r = resized_by(first, second, parent_size, drags);
            &&& on_floors(r.0, r.1, total)
            &&& to_pixels(r.0.size_percent, total) >= first.children_size
            &&& to_pixels(r.1.size_percent, total) >= second.children_size
            &&& to_pixels(r.0.size_percent, total) + to_pixels(r.1.size_percent, total) == to_pixels(
                first.size_percent,
                total,
            ) + to_pixels(second.size_percent, total)
            &&& r.0.children_size == first.children_size
            &&& r.1.children_size == second.children_size
            &&& r.0.flex_direction == first.flex_direction
            &&& r.1.flex_direction == second.flex_direction
        }),
    decreases drags.len(),
{
    if drags.len() > 0 {
        lemma_resize_series_keeps_floors(first, second, parent_size, drags.drop_last());
        let before = resized_by(first, second, parent_size, drags.drop_last());
        let drag = drags.last();
        if drag.on_second {
            lemma_resize_keeps_floors(
                drag.draggable,
                drag.handle_direction,
                before.1,
                before.0,
                parent_size,
            );
        } else {
            lemma_resize_keeps_floors(
                drag.draggable,
                drag.handle_direction,
                before.0,
                before.1,
                parent_size,
            );
        }
    }
}

} // verus!
