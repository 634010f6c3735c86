//! The docking coordinator: where a drop on a docking zone lands, what a
//! drop zone in a given phase asks for, and how a zone is split.
use vstd::prelude::*;
use crate::drag_interaction::{DragState, Draggable};
use crate::drop_interaction::{DropPhase, DropZone};
use crate::hierarchy::{lemma_without_absent, lemma_without_at, lemma_without_inserted, without};
use crate::scene::{DockingZone, Element, NodeStyle, Scene};
use crate::sized_zone::{clamp_share, SizedZone, SizedZoneConfig, FULL_SIZE, HALF_SIZE};
use crate::style::{Color, FlexDirection, PositionType, Val};
use crate::tab_container::TabContainer;
use crate::units::{floor_div, sat_sub, Entity, Vec2};
use crate::zone_layout::{
    extent, is_fit_ready, lemma_lone_zone_refits_to_whole, refitted, stands_alone,
};

verus! {

/// The part of a docking zone on which a drop lands.
#[derive(Clone, Copy, Debug, PartialEq, Eq, Structural, Hash)]
pub enum DropArea {
    Nowhere,
    Center,
    North,
    East,
    South,
    West,
}

impl Default for DropArea {
    fn default() -> (r: Self)
        ensures
            r == DropArea::Nowhere,
    {
        DropArea::Nowhere
    }
}

/// The side on which a split puts the new zone.
#[derive(Clone, Copy, Debug, PartialEq, Eq, Structural, Hash)]
pub enum DockingZoneSplitDirection {
    VerticallyBefore,
    VerticallyAfter,
    HorizontallyBefore,
    HorizontallyAfter,
}

/// Marks a sized zone that exists to hold the two sides of a split.
#[derive(Clone, Copy, Debug, PartialEq, Eq, Structural)]
pub struct DockingZoneSplitContainer;

/// The area of a zone of extent `size` around `center` in which `position`
/// lies. Along each edge runs a margin band of one sixth of the extent: a
/// position farther than a third of the extent from the centre line lies in
/// the band. The bands on the left and on the right are west and east; what
/// lies between them is north or south in the upper and the lower band, and
/// the centre in the inner four sixths of both axes.
pub open spec fn drop_area(position: Vec2, center: Vec2, size: Vec2) -> DropArea {
    if 3 * (center.x - position.x) > size.x {
        DropArea::West
    } else if 3 * (position.x - center.x) > size.x {
        DropArea::East
    } else if 3 * (center.y - position.y) > size.y {
        DropArea::North
    } else if 3 * (position.y - center.y) > size.y {
        DropArea::South
    } else {
        DropArea::Center
    }
}

/// The margin bands are a sixth of the extent wide. Within a zone of
/// nonnegative extent that is a multiple of six, a position is in the west
/// band iff it lies left of the first sixth, in the east band iff it lies
/// right of the last sixth, and likewise from the top for north and south
/// between the two; everything else is the centre.
pub proof fn lemma_drop_area_bands(position: Vec2, left: int, top: int, sixth_x: int, sixth_y: int)
    requires
        sixth_x >= 0,
        sixth_y >= 0,
        -0x1000_0000_0000_0000 <= left <= 0x1000_0000_0000_0000,
        -0x1000_0000_0000_0000 <= top <= 0x1000_0000_0000_0000,
        sixth_x <= 0x0800_0000_0000_0000,
        sixth_y <= 0x0800_0000_0000_0000,
    ensures
        ({
            let center = Vec2 { x: (left + 3 * sixth_x) as i64, y: (top + 3 * sixth_y) as i64 };
            let size = Vec2 { x: (6 * sixth_x) as i64, y: (6 * sixth_y) as i64 };
            let west = position.x < left + sixth_x;
            let east = position.x > left + 5 * sixth_x;
            let north = position.y < top + sixth_y;
            let south = position.y > top + 5 * sixth_y;
            drop_area(position, center, size) == if west {
                DropArea::West
            } else if east {
                DropArea::East
            } else if north {
                DropArea::North
            } else if south {
                DropArea::South
            } else {
                DropArea::Center
            }
        }),
{
}

/// Classifies the position of a drop within a docking zone.
pub fn calculate_drop_area(position: Vec2, center: Vec2, size: Vec2) -> (r: DropArea)
    ensures
        r == drop_area(position, center, size),
        r != DropArea::Nowhere,
{
    let dx: i128 = center.x as i128 - position.x as i128;
    let dy: i128 = center.y as i128 - position.y as i128;
    if 3 * dx > size.x as i128 {
        DropArea::West
    } else if 3 * (-dx) > size.x as i128 {
        DropArea::East
    } else if 3 * dy > size.y as i128 {
        DropArea::North
    } else if 3 * (-dy) > size.y as i128 {
        DropArea::South
    } else {
        DropArea::Center
    }
}

/// The split that a drop on an edge area asks for.
pub open spec fn split_direction_of(area: DropArea) -> DockingZoneSplitDirection {
    match area {
        DropArea::North => DockingZoneSplitDirection::VerticallyBefore,
        DropArea::East => DockingZoneSplitDirection::HorizontallyAfter,
        DropArea::South => DockingZoneSplitDirection::VerticallyAfter,
        DropArea::West => DockingZoneSplitDirection::HorizontallyBefore,
        _ => DockingZoneSplitDirection::VerticallyAfter,
    }
}

/// How a split is carried out.
#[derive(Clone, Copy, Debug, PartialEq, Eq, Structural)]
pub struct SplitPlan {
    /// Whether a container takes the place of the zone and holds the zone
    /// and the new zone; otherwise the new zone becomes a sibling of the zone.
    pub inject_container: bool,
    /// Whether the new zone comes before the zone among the children.
    pub sibling_before: bool,
    /// The share of the container, where one is injected.
    pub container_size: i64,
    /// The share of the zone after the split.
    pub zone_size: i64,
    /// The share of the new zone.
    pub new_zone_size: i64,
}

/// Whether a split in `direction` of a zone with direction `current` runs
/// across the axis of the zone's parent, so that a container has to take the
/// place of the zone.
pub open spec fn needs_container(current: FlexDirection, direction: DockingZoneSplitDirection) -> bool {
    let horizontal = direction == DockingZoneSplitDirection::HorizontallyBefore || direction
        == DockingZoneSplitDirection::HorizontallyAfter;
    match current {
        FlexDirection::Row | FlexDirection::RowReverse => horizontal,
        FlexDirection::Column | FlexDirection::ColumnReverse => !horizontal,
    }
}

/// Whether the new zone of a split in `direction` comes before the zone
/// among the children of their parent: on the `Before` sides, and the other
/// way round where the direction of the zone is reversed.
pub open spec fn comes_before(current: FlexDirection, direction: DockingZoneSplitDirection) -> bool {
    let before = direction == DockingZoneSplitDirection::VerticallyBefore || direction
        == DockingZoneSplitDirection::HorizontallyBefore;
    match current {
        FlexDirection::Row | FlexDirection::Column => before,
        FlexDirection::RowReverse | FlexDirection::ColumnReverse => !before,
    }
}

/// The plan of a split of a zone with direction `current` and share `size`.
/// With a container the zone and the new zone share the container half and
/// half, and the container takes the share of the zone; without one the
/// zone keeps half of its share, rounded down, and the new zone gets the
/// remainder.
pub open spec fn plan_of(current: FlexDirection, direction: DockingZoneSplitDirection, size: i64) -> SplitPlan {
    let inject = needs_container(current, direction);
    let half = clamp_share(size as int / 2);
    SplitPlan {
        inject_container: inject,
        sibling_before: comes_before(current, direction),
        container_size: size,
        zone_size: if inject {
            HALF_SIZE
        } else {
            half as i64
        },
        new_zone_size: if inject {
            HALF_SIZE
        } else {
            clamp_share(size - half) as i64
        },
    }
}

/// A split hands the share of the zone on: with a container, the container
/// has the share of the zone and each side half of the container; without
/// one, the zone and the new zone together have the share that the zone
/// had.
pub proof fn lemma_split_hands_on_the_share(
    current: FlexDirection,
    direction: DockingZoneSplitDirection,
    size: i64,
)
    requires
        0 <= size <= FULL_SIZE,
    ensures
        ({
            let plan = plan_of(current, direction, size);
            &&& plan.inject_container ==> plan.container_size == size && plan.zone_size == HALF_SIZE
                && plan.new_zone_size == HALF_SIZE
            &&& !plan.inject_container ==> plan.zone_size + plan.new_zone_size == size
                && plan.new_zone_size - plan.zone_size <= 1 && plan.zone_size
                <= plan.new_zone_size
        }),
{
}

/// Plans the split of a zone.
pub fn split_plan(current: FlexDirection, direction: DockingZoneSplitDirection, size: i64) -> (r:
    SplitPlan)
    ensures
        r == plan_of(current, direction, size),
        0 <= r.zone_size <= FULL_SIZE,
        0 <= r.new_zone_size <= FULL_SIZE,
{
    let (inject_container, sibling_before) = match current {
        FlexDirection::Row => match direction {
            DockingZoneSplitDirection::VerticallyBefore => (false, true),
            DockingZoneSplitDirection::VerticallyAfter => (false, false),
            DockingZoneSplitDirection::HorizontallyBefore => (true, true),
            DockingZoneSplitDirection::HorizontallyAfter => (true, false),
        },
        FlexDirection::Column => match direction {
            DockingZoneSplitDirection::VerticallyBefore => (true, true),
            DockingZoneSplitDirection::VerticallyAfter => (true, false),
            DockingZoneSplitDirection::HorizontallyBefore => (false, true),
            DockingZoneSplitDirection::HorizontallyAfter => (false, false),
        },
        FlexDirection::RowReverse => match direction {
            DockingZoneSplitDirection::VerticallyBefore => (false, false),
            DockingZoneSplitDirection::VerticallyAfter => (false, true),
            DockingZoneSplitDirection::HorizontallyBefore => (true, false),
            DockingZoneSplitDirection::HorizontallyAfter => (true, true),
        },
        FlexDirection::ColumnReverse => match direction {
            DockingZoneSplitDirection::VerticallyBefore => (true, false),
            DockingZoneSplitDirection::VerticallyAfter => (true, true),
            DockingZoneSplitDirection::HorizontallyBefore => (false, false),
            DockingZoneSplitDirection::HorizontallyAfter => (false, true),
        },
    };
    let half: i128 = floor_div(size as i128, 2);
    let held: i64 = if half < 0 {
        0
    } else if half > FULL_SIZE as i128 {
        FULL_SIZE
    } else {
        half as i64
    };
    let rest: i128 = size as i128 - held as i128;
    let remainder: i64 = if rest < 0 {
        0
    } else if rest > FULL_SIZE as i128 {
        FULL_SIZE
    } else {
        rest as i64
    };
    SplitPlan {
        inject_container,
        sibling_before,
        container_size: size,
        zone_size: if inject_container {
            HALF_SIZE
        } else {
            held
        },
        new_zone_size: if inject_container {
            HALF_SIZE
        } else {
            remainder
        },
    }
}

/// Where the highlight overlay of a docking zone lies.
#[derive(Clone, Copy, Debug, PartialEq, Eq, Structural)]
pub struct HighlightBox {
    pub width: Val,
    pub height: Val,
    pub top: Val,
    pub left: Val,
}

/// What a docking zone asks for after its drop zone changed.
#[derive(Clone, Copy, Debug, PartialEq, Eq, Structural)]
pub enum DockingAction {
    /// Leave everything as it is.
    Skip,
    /// Make the highlight overlay transparent.
    ClearHighlight,
    /// Show the highlight overlay over the area of the pending drop.
    Highlight(HighlightBox),
    /// Add the panel as a tab of the zone, and clear the highlight.
    DockPanel { panel: Entity },
    /// Split the zone, dock the panel in the new zone, and clear the highlight.
    Split { direction: DockingZoneSplitDirection, panel: Entity },
}

/// What the coordinator knows of the tab bar of a docking zone.
#[derive(Clone, Copy, Debug, PartialEq, Eq, Structural)]
pub struct TabBarState {
    pub height: i64,
    /// Whether the pointer is over the bar.
    pub hovered: bool,
}

/// The colour of the highlight overlay while it shows.
pub open spec fn highlight_color() -> Color {
    Color { r: 700_000, g: 800_000, b: 900_000, a: 200_000 }
}

/// The colour of the highlight overlay of a docking zone over a pending drop.
pub fn zone_highlight_color() -> (r: Color)
    ensures
        r == highlight_color(),
{
    Color { r: 700_000, g: 800_000, b: 900_000, a: 200_000 }
}

/// The box of the highlight overlay for a drop on `area` of a zone of extent
/// `size` whose tab bar is `bar_height` high: the half of the zone on the
/// side of an edge area, and for the centre the zone below its tab bar.
pub open spec fn highlight_box(area: DropArea, size: Vec2, bar_height: i64) -> HighlightBox {
    let full = Val::Percent(FULL_SIZE);
    let half = Val::Percent(HALF_SIZE);
    match area {
        DropArea::Center => HighlightBox {
            width: full,
            height: Val::Px(crate::units::clamp_i64(size.y - bar_height) as i64),
            top: Val::Px(bar_height),
            left: Val::Auto,
        },
        DropArea::North => HighlightBox { width: full, height: half, top: Val::Auto, left: Val::Auto },
        DropArea::East => HighlightBox { width: half, height: full, top: Val::Auto, left: half },
        DropArea::South => HighlightBox { width: full, height: half, top: half, left: Val::Auto },
        DropArea::West => HighlightBox { width: half, height: full, top: Val::Auto, left: Val::Auto },
        DropArea::Nowhere => HighlightBox { width: full, height: full, top: Val::Auto, left: Val::Auto },
    }
}

/// What a docking zone of extent `size` around `center` asks for, given its
/// drop zone, its tab bar and the panel of the incoming droppable where the
/// zone accepts it.
pub open spec fn docking_action(
    drop_zone: DropZone,
    size: Vec2,
    center: Vec2,
    tab_bar: Option<TabBarState>,
    accepted_panel: Option<Entity>,
) -> DockingAction {
    match tab_bar {
        None => DockingAction::Skip,
        Some(bar) => if bar.hovered || drop_zone.drop_phase == DropPhase::Inactive
            || drop_zone.drop_phase == DropPhase::DropCanceled || drop_zone.drop_phase
            == DropPhase::DroppableLeft || drop_zone.incoming_droppable is None
            || accepted_panel is None {
            DockingAction::ClearHighlight
        } else {
            match drop_zone.position {
                None => DockingAction::Skip,
                Some(position) => {
                    let area = drop_area(position, center, size);
                    if drop_zone.drop_phase == DropPhase::Dropped {
                        if area == DropArea::Center {
                            DockingAction::DockPanel { panel: accepted_panel.unwrap() }
                        } else {
                            DockingAction::Split {
                                direction: split_direction_of(area),
                                panel: accepted_panel.unwrap(),
                            }
                        }
                    } else {
                        DockingAction::Highlight(highlight_box(area, size, bar.height))
                    }
                },
            }
        },
    }
}

/// Decides what a docking zone does after its drop zone changed. While a
/// droppable that the zone accepts hovers, the overlay highlights the area
/// on which a drop would land; a drop on the centre docks the panel as a
/// tab, a drop on an edge splits the zone towards that edge. A zone whose
/// tab bar is under the pointer, or that no accepted droppable concerns,
/// clears its highlight; a zone without tab bar is skipped.
pub fn handle_docking_zone_drop_zone_change(
    drop_zone: &DropZone,
    size: Vec2,
    center: Vec2,
    tab_bar: Option<TabBarState>,
    accepted_panel: Option<Entity>,
) -> (r: DockingAction)
    ensures
        r == docking_action(*drop_zone, size, center, tab_bar, accepted_panel),
{
    let Some(bar) = tab_bar else {
        return DockingAction::Skip;
    };
    if bar.hovered || drop_zone.drop_phase == DropPhase::Inactive || drop_zone.drop_phase
        == DropPhase::DropCanceled || drop_zone.drop_phase == DropPhase::DroppableLeft
        || drop_zone.incoming_droppable.is_none() {
        return DockingAction::ClearHighlight;
    }
    let Some(panel) = accepted_panel else {
        return DockingAction::ClearHighlight;
    };
    let Some(position) = drop_zone.position else {
        return DockingAction::Skip;
    };
    let area = calculate_drop_area(position, center, size);
    if drop_zone.drop_phase == DropPhase::Dropped {
        if area == DropArea::Center {
            DockingAction::DockPanel { panel }
        } else {
            let direction = match area {
                DropArea::North => DockingZoneSplitDirection::VerticallyBefore,
                DropArea::East => DockingZoneSplitDirection::HorizontallyAfter,
                DropArea::South => DockingZoneSplitDirection::VerticallyAfter,
                DropArea::West => DockingZoneSplitDirection::HorizontallyBefore,
                _ => DockingZoneSplitDirection::VerticallyAfter,
            };
            DockingAction::Split { direction, panel }
        }
    } else {
        let full = Val::Percent(FULL_SIZE);
        let half = Val::Percent(HALF_SIZE);
        let highlight = match area {
            DropArea::Center => HighlightBox {
                width: full,
                height: Val::Px(sat_sub(size.y, bar.height)),
                top: Val::Px(bar.height),
                left: Val::Auto,
            },
            DropArea::North => HighlightBox {
                width: full,
                height: half,
                top: Val::Auto,
                left: Val::Auto,
            },
            DropArea::East => HighlightBox { width: half, height: full, top: Val::Auto, left: half },
            DropArea::South => HighlightBox { width: full, height: half, top: half, left: Val::Auto },
            DropArea::West => HighlightBox {
                width: half,
                height: full,
                top: Val::Auto,
                left: Val::Auto,
            },
            DropArea::Nowhere => HighlightBox {
                width: full,
                height: full,
                top: Val::Auto,
                left: Val::Auto,
            },
        };
        DockingAction::Highlight(highlight)
    }
}

/// Whether some gesture of `draggables` is in a state other than `Inactive`.
pub open spec fn any_active(draggables: Seq<Draggable>) -> bool {
    exists|i: int| 0 <= i < draggables.len() && (#[trigger] draggables[i]).state != DragState::Inactive
}

/// Whether some gesture of `draggables` has started and goes on.
pub open spec fn any_dragging(draggables: Seq<Draggable>) -> bool {
    exists|i: int|
        0 <= i < draggables.len() && ((#[trigger] draggables[i]).state == DragState::DragStart
            || draggables[i].state == DragState::Dragging)
}

/// Whether the resize handles of the zones have to be shown or hidden anew:
/// the gesture of some panel title was written and is not inactive.
pub fn should_update_resize_handles(titles: &Vec<Draggable>) -> (r: bool)
    ensures
        r == any_active(titles@),
{
    let mut i: usize = 0;
    while i < titles.len()
        invariant
            i <= titles.len(),
            forall|j: int| 0 <= j < i ==> (#[trigger] titles@[j]).state == DragState::Inactive,
        decreases titles.len() - i,
    {
        if titles[i].state != DragState::Inactive {
            return true;
        }
        i += 1;
    }
    false
}

/// Whether the resize handles of the zones are rendered: not while a panel
/// is dragged by its title.
pub fn update_docking_zone_resize_handles(titles: &Vec<Draggable>) -> (render: bool)
    ensures
        render == !any_dragging(titles@),
{
    let mut i: usize = 0;
    while i < titles.len()
        invariant
            i <= titles.len(),
            forall|j: int|
                0 <= j < i ==> (#[trigger] titles@[j]).state != DragState::DragStart && titles@[j].state
                    != DragState::Dragging,
        decreases titles.len() - i,
    {
        if titles[i].state == DragState::DragStart || titles[i].state == DragState::Dragging {
            return false;
        }
        i += 1;
    }
    true
}

/// The element of a fresh sized zone.
pub open spec fn zone_element(
    config: SizedZoneConfig,
    docking_zone: Option<DockingZone>,
    split_container: bool,
) -> Element {
    Element {
        style: Some(
            NodeStyle { flex_direction: FlexDirection::Row, position_type: PositionType::Relative },
        ),
        size: Vec2 { x: 0, y: 0 },
        sized_zone: Some(
            SizedZone::configured(
                config,
                Entity(u64::MAX),
                Entity(u64::MAX),
                Entity(u64::MAX),
                Entity(u64::MAX),
            ),
        ),
        docking_zone,
        split_container,
        resize_handle_container: false,
    }
}

/// The element that holds resize handles of a zone: it lies over the zone
/// and takes no room in the flow.
pub open spec fn handle_container_element() -> Element {
    Element {
        style: Some(
            NodeStyle { flex_direction: FlexDirection::Column, position_type: PositionType::Absolute },
        ),
        size: Vec2 { x: 0, y: 0 },
        sized_zone: None,
        docking_zone: None,
        split_container: false,
        resize_handle_container: true,
    }
}

/// Adds a sized zone as the last child of `parent`, together with the two
/// elements that hold its resize handles, and returns the index of the
/// zone. The two holders follow the zone in the numbering and are its
/// children.
pub fn spawn_sized_zone(
    scene: &mut Scene,
    parent: usize,
    config: SizedZoneConfig,
    docking_zone: Option<DockingZone>,
    split_container: bool,
) -> (id: usize)
    requires
        old(scene).wf(),
        parent < old(scene).len(),
    ensures
        final(scene).wf(),
        id == old(scene).len(),
        final(scene).len() == old(scene).len() + 3,
        final(scene).elements@ == old(scene).elements@.push(
            zone_element(config, docking_zone, split_container),
        ).push(handle_container_element()).push(handle_container_element()),
        final(scene).hierarchy.parent_of(id) == Some(parent),
        final(scene).hierarchy.parent_of((id + 1) as usize) == Some(id),
        final(scene).hierarchy.parent_of((id + 2) as usize) == Some(id),
        final(scene).hierarchy.children_of(id) == seq![(id + 1) as usize, (id + 2) as usize],
        final(scene).hierarchy.children_of((id + 1) as usize) == Seq::<usize>::empty(),
        final(scene).hierarchy.children_of((id + 2) as usize) == Seq::<usize>::empty(),
        final(scene).hierarchy.children_of(parent) == old(scene).hierarchy.children_of(parent).push(
            id,
        ),
        forall|i: usize|
            i < old(scene).len() ==> final(scene).hierarchy.parent_of(i) == old(scene).hierarchy.parent_of(i),
        forall|i: usize|
            i < old(scene).len() && i != parent ==> #[trigger] final(scene).hierarchy.children_of(i)
                == old(scene).hierarchy.children_of(i),
{
    let zone = SizedZone::new(
        config,
        Entity::placeholder(),
        Entity::placeholder(),
        Entity::placeholder(),
        Entity::placeholder(),
    );
    let id = scene.spawn(
        Some(parent),
        Element {
            style: Some(
                NodeStyle {
                    flex_direction: FlexDirection::Row,
                    position_type: PositionType::Relative,
                },
            ),
            size: Vec2 { x: 0, y: 0 },
            sized_zone: Some(zone),
            docking_zone,
            split_container,
            resize_handle_container: false,
        },
    );
    let holder = Element {
        style: Some(
            NodeStyle { flex_direction: FlexDirection::Column, position_type: PositionType::Absolute },
        ),
        size: Vec2 { x: 0, y: 0 },
        sized_zone: None,
        docking_zone: None,
        split_container: false,
        resize_handle_container: true,
    };
    let first = scene.spawn(Some(id), holder);
    let second = scene.spawn(Some(id), holder);
    assert(scene.hierarchy.children_of(id) =~= seq![(id + 1) as usize, (id + 2) as usize]);
    id
}

/// The request to split a docking zone and to dock a panel in the new zone.
#[derive(Clone, Copy, Debug, PartialEq, Eq, Structural)]
pub struct DockingZoneSplit {
    pub docking_zone: usize,
    pub direction: DockingZoneSplitDirection,
    pub panel_to_dock: Option<Entity>,
}

/// What a split did.
#[derive(Clone, Copy, Debug, PartialEq, Eq, Structural)]
pub struct SplitOutcome {
    pub plan: SplitPlan,
    /// The container that took the place of the zone, where one was injected.
    pub container: Option<usize>,
    pub new_docking_zone: usize,
    /// The element whose children the layout engine has to read anew.
    pub reset_children_of: usize,
    /// The panel to dock in the new zone.
    pub panel_to_dock: Option<Entity>,
}

impl DockingZoneSplit {
    /// Whether the request names a docking zone that has a parent.
    pub open spec fn applies(self, scene: &Scene) -> bool {
        &&& self.docking_zone < scene.len()
        &&& scene.element(self.docking_zone).docking_zone is Some
        &&& scene.is_zone(self.docking_zone)
        &&& scene.hierarchy.parent_of(self.docking_zone) is Some
    }

    /// The plan of the split.
    pub open spec fn plan(self, scene: &Scene) -> SplitPlan {
        plan_of(
            scene.zone(self.docking_zone).flex_direction,
            self.direction,
            scene.zone(self.docking_zone).size_percent,
        )
    }

    /// What the split reports.
    pub open spec fn outcome(self, scene: &Scene) -> SplitOutcome {
        let plan = self.plan(scene);
        let first = scene.len() as usize;
        SplitOutcome {
            plan,
            container: if plan.inject_container {
                Some(first)
            } else {
                None
            },
            new_docking_zone: if plan.inject_container {
                (first + 3) as usize
            } else {
                first
            },
            reset_children_of: if plan.inject_container {
                first
            } else {
                scene.hierarchy.parent_of(self.docking_zone).unwrap()
            },
            panel_to_dock: self.panel_to_dock,
        }
    }

    /// The elements that the split adds, in the order of their numbering: a
    /// container with its two handle holders where one is injected, then
    /// the new docking zone with its two handle holders.
    pub open spec fn added_elements(self, scene: &Scene) -> Seq<Element> {
        let plan = self.plan(scene);
        let zone = scene.zone(self.docking_zone);
        let new_zone = seq![
            zone_element(
                SizedZoneConfig { size: plan.new_zone_size, min_size: zone.min_size },
                Some(DockingZone { tab_container: Entity(u64::MAX), zone_highlight: Entity(u64::MAX) }),
                false,
            ),
            handle_container_element(),
            handle_container_element(),
        ];
        if plan.inject_container {
            seq![
                zone_element(
                    SizedZoneConfig { size: plan.container_size, min_size: zone.min_size },
                    None,
                    true,
                ),
                handle_container_element(),
                handle_container_element(),
            ] + new_zone
        } else {
            new_zone
        }
    }

    /// The elements after the split: the zone has the share of the plan, all
    /// other elements are as before, and the added elements follow.
    pub open spec fn elements_after(self, scene: &Scene) -> Seq<Element> {
        let z = self.docking_zone;
        let element = scene.element(z);
        scene.elements@.update(
            z as int,
            Element {
                sized_zone: Some(
                    SizedZone { size_percent: self.plan(scene).zone_size, ..scene.zone(z) },
                ),
                ..element
            },
        ) + self.added_elements(scene)
    }

    /// The children of the parent of the zone after the split: with a
    /// container, the container stands where the zone stood; without one,
    /// the new zone stands before or after the zone.
    pub open spec fn siblings_after(self, scene: &Scene) -> Seq<usize> {
        let z = self.docking_zone;
        let outcome = self.outcome(scene);
        let list = scene.hierarchy.children_of(scene.hierarchy.parent_of(z).unwrap());
        let at = list.index_of(z);
        if outcome.plan.inject_container {
            list.update(at, outcome.container.unwrap())
        } else if outcome.plan.sibling_before {
            list.insert(at, outcome.new_docking_zone)
        } else {
            list.insert(at + 1, outcome.new_docking_zone)
        }
    }

    /// The children of an injected container: its two handle holders and
    /// the new zone, with the zone before them or after them.
    pub open spec fn container_children(self, scene: &Scene) -> Seq<usize> {
        let z = self.docking_zone;
        let first = scene.len() as usize;
        if self.plan(scene).sibling_before {
            seq![(first + 1) as usize, (first + 2) as usize, (first + 3) as usize, z]
        } else {
            seq![z, (first + 1) as usize, (first + 2) as usize, (first + 3) as usize]
        }
    }

    /// Whether `after` is `before` with the zone split: the elements are
    /// those after the split; the parent of the zone lists the container in
    /// the place of the zone, or the new zone beside the zone; a container
    /// lists the zone and the new zone on the side of the split beside its
    /// handle holders; and every other link is as it was.
    pub open spec fn splits(self, before: &Scene, after: &Scene) -> bool {
        let z = self.docking_zone;
        let p = before.hierarchy.parent_of(z).unwrap();
        let outcome = self.outcome(before);
        let n = outcome.new_docking_zone;
        &&& after.elements@ == self.elements_after(before)
        &&& after.hierarchy.children_of(p) == self.siblings_after(before)
        &&& after.hierarchy.children_of(n) == seq![(n + 1) as usize, (n + 2) as usize]
        &&& after.hierarchy.parent_of((n + 1) as usize) == Some(n)
        &&& after.hierarchy.parent_of((n + 2) as usize) == Some(n)
        &&& match outcome.container {
            Some(c) => {
                &&& after.hierarchy.children_of(c) == self.container_children(before)
                &&& after.hierarchy.parent_of(c) == Some(p)
                &&& after.hierarchy.parent_of(z) == Some(c)
                &&& after.hierarchy.parent_of(n) == Some(c)
                &&& after.hierarchy.parent_of((c + 1) as usize) == Some(c)
                &&& after.hierarchy.parent_of((c + 2) as usize) == Some(c)
            },
            None => {
                &&& after.hierarchy.parent_of(z) == Some(p)
                &&& after.hierarchy.parent_of(n) == Some(p)
            },
        }
        &&& forall|i: usize|
            i < before.len() && i != z ==> after.hierarchy.parent_of(i)
                == before.hierarchy.parent_of(i)
        &&& forall|i: usize|
            i < before.len() && i != p ==> #[trigger] after.hierarchy.children_of(i)
                == before.hierarchy.children_of(i)
    }

    /// Splits a docking zone. Where the split runs along the axis of the
    /// zone's parent, the zone gives half of its share to a new docking zone
    /// that becomes its sibling on the side of the split. Where it runs
    /// across, a split container takes the place and the share of the zone,
    /// and holds the zone and the new zone at half of the container each. A
    /// request that names no docking zone with a parent changes nothing.
    pub fn apply(self, scene: &mut Scene) -> (r: Option<SplitOutcome>)
        requires
            old(scene).wf(),
        ensures
            final(scene).wf(),
            r is Some == self.applies(old(scene)),
            !self.applies(old(scene)) ==> final(scene).elements@ == old(scene).elements@
                && final(scene).hierarchy == old(scene).hierarchy,
            self.applies(old(scene)) ==> r == Some(self.outcome(old(scene))) && self.splits(
                old(scene),
                final(scene),
            ),
    {
        let z = self.docking_zone;
        if z >= scene.count() {
            return None;
        }
        let element = scene.get(z);
        let Some(zone) = element.sized_zone else {
            return None;
        };
        if element.docking_zone.is_none() {
            return None;
        }
        let Some(p) = scene.hierarchy.parent(z) else {
            return None;
        };
        assert(scene.hierarchy.children_of(p).contains(z));
        let found = scene.hierarchy.position(p, z);
        let at = found.unwrap();
        let plan = split_plan(zone.flex_direction, self.direction, zone.size_percent);
        scene.set(
            z,
            Element {
                sized_zone: Some(
                    SizedZone {
                        size_percent: plan.zone_size,
                        min_size: zone.min_size,
                        children_size: zone.children_size,
                        flex_direction: zone.flex_direction,
                        top_handle: zone.top_handle,
                        right_handle: zone.right_handle,
                        bottom_handle: zone.bottom_handle,
                        left_handle: zone.left_handle,
                    },
                ),
                style: element.style,
                size: element.size,
                docking_zone: element.docking_zone,
                split_container: element.split_container,
                resize_handle_container: element.resize_handle_container,
            },
        );
        let fresh = SizedZoneConfig { size: plan.new_zone_size, min_size: zone.min_size };
        if plan.inject_container {
            let (c, n) = inject_container(
                scene,
                z,
                p,
                at,
                SizedZoneConfig { size: plan.container_size, min_size: zone.min_size },
                fresh,
                plan.sibling_before,
            );
            assert(scene.elements@ =~= self.elements_after(old(scene)));
            Some(
                SplitOutcome {
                    plan,
                    container: Some(c),
                    new_docking_zone: n,
                    reset_children_of: c,
                    panel_to_dock: self.panel_to_dock,
                },
            )
        } else {
            let n = add_sibling_zone(scene, z, p, at, fresh, plan.sibling_before);
            assert(scene.elements@ =~= self.elements_after(old(scene)));
            Some(
                SplitOutcome {
                    plan,
                    container: None,
                    new_docking_zone: n,
                    reset_children_of: p,
                    panel_to_dock: self.panel_to_dock,
                },
            )
        }
    }
}

/// Puts a new docking zone beside the zone `z`, the child at place `at` of
/// `p`: before it or after it.
fn add_sibling_zone(
    scene: &mut Scene,
    z: usize,
    p: usize,
    at: usize,
    fresh: SizedZoneConfig,
    before: bool,
) -> (n: usize)
    requires
        old(scene).wf(),
        z < old(scene).len(),
        p < old(scene).len(),
        at < old(scene).hierarchy.children_of(p).len(),
        old(scene).hierarchy.children_of(p)[at as int] == z,
    ensures
        final(scene).wf(),
        n == old(scene).len(),
        final(scene).len() == old(scene).len() + 3,
        final(scene).elements@ == old(scene).elements@ + seq![
            zone_element(
                fresh,
                Some(DockingZone { tab_container: Entity(u64::MAX), zone_highlight: Entity(u64::MAX) }),
                false,
            ),
            handle_container_element(),
            handle_container_element(),
        ],
        old(scene).hierarchy.children_of(p).index_of(z) == at,
        final(scene).hierarchy.children_of(p) == old(scene).hierarchy.children_of(p).insert(
            if before {
                at as int
            } else {
                at + 1
            },
            n,
        ),
        final(scene).hierarchy.children_of(n) == seq![(n + 1) as usize, (n + 2) as usize],
        final(scene).hierarchy.parent_of(n) == Some(p),
        final(scene).hierarchy.parent_of((n + 1) as usize) == Some(n),
        final(scene).hierarchy.parent_of((n + 2) as usize) == Some(n),
        forall|i: usize|
            i < old(scene).len() ==> final(scene).hierarchy.parent_of(i) == old(scene).hierarchy.parent_of(i),
        forall|i: usize|
            i < old(scene).len() && i != p ==> #[trigger] final(scene).hierarchy.children_of(i)
                == old(scene).hierarchy.children_of(i),
{
    let ghost list = scene.hierarchy.children_of(p);
    let count = scene.hierarchy.child_count(p);
    let next = scene.count();
    proof {
        assert(list.no_duplicates());
        lemma_without_at(list, at as int);
        assert(!list.contains(next)) by {
            if list.contains(next) {
                let w = choose|w: int| 0 <= w < list.len() && list[w] == next;
                assert(scene.hierarchy.links(p, scene.hierarchy.children_of(p)[w]));
            }
        }
    }
    let n = spawn_sized_zone(scene, p, fresh, Some(DockingZone::default()), false);
    proof {
        lemma_without_inserted(list, list.len() as int, n);
        assert(list.insert(list.len() as int, n) =~= list.push(n));
    }
    let ghost middle = scene.hierarchy;
    if before {
        scene.hierarchy.insert_child(p, at, n);
    } else {
        scene.hierarchy.insert_child(p, at + 1, n);
    }
    assert(scene.hierarchy.children_of(n) == middle.children_of(n));
    assert(scene.hierarchy.children_of((n + 1) as usize) == middle.children_of((n + 1) as usize));
    assert(scene.elements@ =~= old(scene).elements@ + seq![
        zone_element(
            fresh,
            Some(DockingZone { tab_container: Entity(u64::MAX), zone_highlight: Entity(u64::MAX) }),
            false,
        ),
        handle_container_element(),
        handle_container_element(),
    ]);
    assert forall|i: usize| i < old(scene).len() && i != p implies #[trigger] scene.hierarchy.children_of(
        i,
    ) == old(scene).hierarchy.children_of(i) by {
        assert(middle.children_of(i) == old(scene).hierarchy.children_of(i));
    }
    n
}

/// Puts a split container in the place of the zone `z`, the child at place
/// `at` of `p`, and the zone and a new docking zone into the container.
#[verifier::rlimit(40)]
fn inject_container(
    scene: &mut Scene,
    z: usize,
    p: usize,
    at: usize,
    container: SizedZoneConfig,
    fresh: SizedZoneConfig,
    before: bool,
) -> (r: (usize, usize))
    requires
        old(scene).wf(),
        z < old(scene).len(),
        p < old(scene).len(),
        at < old(scene).hierarchy.children_of(p).len(),
        old(scene).hierarchy.children_of(p)[at as int] == z,
    ensures
        final(scene).wf(),
        r.0 == old(scene).len(),
        r.1 == old(scene).len() + 3,
        final(scene).len() == old(scene).len() + 6,
        final(scene).elements@ == old(scene).elements@ + (seq![
            zone_element(container, None, true),
            handle_container_element(),
            handle_container_element(),
        ] + seq![
            zone_element(
                fresh,
                Some(DockingZone { tab_container: Entity(u64::MAX), zone_highlight: Entity(u64::MAX) }),
                false,
            ),
            handle_container_element(),
            handle_container_element(),
        ]),
        old(scene).hierarchy.children_of(p).index_of(z) == at,
        final(scene).hierarchy.children_of(p) == old(scene).hierarchy.children_of(p).update(
            at as int,
            r.0,
        ),
        final(scene).hierarchy.children_of(r.0) == if before {
            seq![(r.0 + 1) as usize, (r.0 + 2) as usize, r.1, z]
        } else {
            seq![z, (r.0 + 1) as usize, (r.0 + 2) as usize, r.1]
        },
        final(scene).hierarchy.children_of(r.1) == seq![(r.1 + 1) as usize, (r.1 + 2) as usize],
        final(scene).hierarchy.parent_of(r.0) == Some(p),
        final(scene).hierarchy.parent_of(z) == Some(r.0),
        final(scene).hierarchy.parent_of(r.1) == Some(r.0),
        final(scene).hierarchy.parent_of((r.0 + 1) as usize) == Some(r.0),
        final(scene).hierarchy.parent_of((r.0 + 2) as usize) == Some(r.0),
        final(scene).hierarchy.parent_of((r.1 + 1) as usize) == Some(r.1),
        final(scene).hierarchy.parent_of((r.1 + 2) as usize) == Some(r.1),
        forall|i: usize|
            i < old(scene).len() && i != z ==> final(scene).hierarchy.parent_of(i) == old(scene).hierarchy.parent_of(i),
        forall|i: usize|
            i < old(scene).len() && i != p ==> #[trigger] final(scene).hierarchy.children_of(i)
                == old(scene).hierarchy.children_of(i),
{
    let ghost list = scene.hierarchy.children_of(p);
    let next = scene.count();
    proof {
        assert(list.no_duplicates());
        lemma_without_at(list, at as int);
        assert(scene.hierarchy.links(p, scene.hierarchy.children_of(p)[at as int]));
        assert(scene.hierarchy.parent_of(z) != Some(z));
        assert(!list.contains(next)) by {
            if list.contains(next) {
                let w = choose|w: int| 0 <= w < list.len() && list[w] == next;
                assert(scene.hierarchy.links(p, scene.hierarchy.children_of(p)[w]));
            }
        }
    }
    let c = spawn_sized_zone(scene, p, container, None, true);
    proof {
        lemma_without_inserted(list, list.len() as int, c);
        assert(list.insert(list.len() as int, c) =~= list.push(c));
    }
    let ghost first = scene.hierarchy;
    scene.hierarchy.insert_child(p, at, c);
    let ghost with_container = list.insert(at as int, c);
    assert(scene.hierarchy.children_of(p) == with_container);
    assert(scene.hierarchy.children_of(c) == first.children_of(c));
    assert(scene.hierarchy.children_of(z) == first.children_of(z));
    let ghost second = scene.hierarchy;
    let n = spawn_sized_zone(scene, c, fresh, Some(DockingZone::default()), false);
    let ghost inside = seq![(c + 1) as usize, (c + 2) as usize, n];
    assert(scene.hierarchy.children_of(c) =~= inside);
    assert(scene.hierarchy.children_of(p) == with_container);
    proof {
        lemma_without_inserted(list, at as int, c);
        assert(with_container[at as int + 1] == z);
        lemma_without_at(with_container, at as int + 1);
        assert(with_container.remove(at as int + 1) =~= list.update(at as int, c));
        assert(!inside.contains(z));
        lemma_without_absent(inside, z);
    }
    let ghost third = scene.hierarchy;
    if before {
        scene.hierarchy.add_child(c, z);
    } else {
        scene.hierarchy.insert_child(c, 0, z);
    }
    assert(scene.hierarchy.children_of(c) =~= if before {
        seq![(c + 1) as usize, (c + 2) as usize, n, z]
    } else {
        seq![z, (c + 1) as usize, (c + 2) as usize, n]
    });
    assert(scene.hierarchy.children_of(n) == third.children_of(n));
    assert(scene.hierarchy.children_of(p) == without(third.children_of(p), z));
    assert(scene.elements@ =~= old(scene).elements@ + (seq![
        zone_element(container, None, true),
        handle_container_element(),
        handle_container_element(),
    ] + seq![
        zone_element(
            fresh,
            Some(DockingZone { tab_container: Entity(u64::MAX), zone_highlight: Entity(u64::MAX) }),
            false,
        ),
        handle_container_element(),
        handle_container_element(),
    ]));
    assert forall|i: usize| i < old(scene).len() && i != p implies #[trigger] scene.hierarchy.children_of(
        i,
    ) == old(scene).hierarchy.children_of(i) by {
        assert(first.children_of(i) == old(scene).hierarchy.children_of(i));
        assert(second.children_of(i) == first.children_of(i));
        assert(third.children_of(i) == second.children_of(i));
        assert(third.parent_of(z) == Some(p));
    }
    (c, n)
}

/// The elements among the first `upto` of `list` that are no holders of
/// resize handles, in order.
pub open spec fn hoisted(scene: &Scene, list: Seq<usize>, upto: nat) -> Seq<usize>
    decreases upto,
{
    if upto == 0 {
        Seq::empty()
    } else {
        let before = hoisted(scene, list, (upto - 1) as nat);
        if scene.element(list[upto - 1]).resize_handle_container {
            before
        } else {
            before.push(list[upto - 1])
        }
    }
}

/// The holders of resize handles among the first `upto` elements of `list`.
pub open spec fn kept(scene: &Scene, list: Seq<usize>, upto: nat) -> Seq<usize>
    decreases upto,
{
    if upto == 0 {
        Seq::empty()
    } else {
        let before = kept(scene, list, (upto - 1) as nat);
        if scene.element(list[upto - 1]).resize_handle_container {
            before.push(list[upto - 1])
        } else {
            before
        }
    }
}

/// The zones among the first `upto` elements of `list` other than `zone`
/// and other than holders of resize handles.
pub open spec fn remaining_zones(scene: &Scene, list: Seq<usize>, zone: usize, upto: nat) -> Seq<usize>
    decreases upto,
{
    if upto == 0 {
        Seq::empty()
    } else {
        let before = remaining_zones(scene, list, zone, (upto - 1) as nat);
        let child = list[upto - 1];
        if child != zone && !scene.element(child).resize_handle_container && scene.is_zone(child) {
            before.push(child)
        } else {
            before
        }
    }
}

/// What the removal of an empty docking zone did.
#[derive(Clone, Copy, Debug, PartialEq, Eq, Structural)]
pub struct CleanupOutcome {
    /// The element that left the tree, with all that is below it.
    pub removed: usize,
    /// The element whose children the layout engine has to read anew.
    pub reset_children_of: Option<usize>,
}

/// Whether the removal of `zone` takes its parent along: the parent is a
/// split container in which no zone would remain, or only one that is a
/// split container itself.
pub open spec fn collapses(scene: &Scene, zone: usize) -> bool {
    match scene.hierarchy.parent_of(zone) {
        None => false,
        Some(parent) => {
            let rest = remaining_zones(
                scene,
                scene.hierarchy.children_of(parent),
                zone,
                scene.hierarchy.children_of(parent).len(),
            );
            scene.element(parent).split_container && (rest.len() == 0 || (rest.len() == 1
                && scene.element(rest[0]).split_container))
        },
    }
}

/// The split container whose children move up when the removal of `zone`
/// takes its parent along: the one zone that remains beside `zone`, where
/// the parent has a parent to move them to.
pub open spec fn hoisted_from(scene: &Scene, zone: usize) -> Option<usize> {
    match scene.hierarchy.parent_of(zone) {
        None => None,
        Some(parent) => {
            let rest = remaining_zones(
                scene,
                scene.hierarchy.children_of(parent),
                zone,
                scene.hierarchy.children_of(parent).len(),
            );
            match scene.hierarchy.parent_of(parent) {
                Some(g) => if collapses(scene, zone) && rest.len() == 1 && g != rest[0]
                    && scene.hierarchy.parent_of(g) != Some(rest[0]) {
                    Some(rest[0])
                } else {
                    None
                },
                None => None,
            }
        },
    }
}

/// The hoisted elements are the elements of the list that are no holders
/// of resize handles.
pub proof fn lemma_hoisted_members(scene: &Scene, list: Seq<usize>, upto: nat, x: usize)
    requires
        upto <= list.len(),
    ensures
        hoisted(scene, list, upto).contains(x) <==> exists|w: int|
            0 <= w < upto && list[w] == x && !scene.element(list[w]).resize_handle_container,
    decreases upto,
{
    if upto > 0 {
        let before = hoisted(scene, list, (upto - 1) as nat);
        let now = hoisted(scene, list, upto);
        lemma_hoisted_members(scene, list, (upto - 1) as nat, x);
        let last = list[upto - 1];
        if scene.element(last).resize_handle_container {
            if exists|w: int|
                0 <= w < upto && list[w] == x && !scene.element(list[w]).resize_handle_container {
                let w = choose|w: int|
                    0 <= w < upto && list[w] == x && !scene.element(list[w]).resize_handle_container;
                assert(0 <= w < upto - 1 && list[w] == x && !scene.element(
                    list[w],
                ).resize_handle_container);
            }
        } else {
            assert(now == before.push(last));
            if now.contains(x) {
                let k = choose|k: int| 0 <= k < now.len() && now[k] == x;
                if k < before.len() {
                    assert(before[k] == x);
                    let w = choose|w: int|
                        0 <= w < upto - 1 && list[w] == x && !scene.element(
                            list[w],
                        ).resize_handle_container;
                    assert(0 <= w < upto && list[w] == x && !scene.element(
                        list[w],
                    ).resize_handle_container);
                } else {
                    assert(0 <= upto - 1 < upto && list[upto - 1] == x && !scene.element(
                        list[upto - 1],
                    ).resize_handle_container);
                }
            }
            if exists|w: int|
                0 <= w < upto && list[w] == x && !scene.element(list[w]).resize_handle_container {
                let w = choose|w: int|
                    0 <= w < upto && list[w] == x && !scene.element(list[w]).resize_handle_container;
                if w < upto - 1 {
                    assert(0 <= w < upto - 1 && list[w] == x && !scene.element(
                        list[w],
                    ).resize_handle_container);
                    assert(before.contains(x));
                    let k = choose|k: int| 0 <= k < before.len() && before[k] == x;
                    assert(now[k] == x);
                } else {
                    assert(now[now.len() - 1] == x);
                }
            }
        }
    }
}

/// Moves the children of `q` that are no holders of resize handles under
/// `g`, in order, to the places from `at` on.
fn hoist_children(scene: &mut Scene, q: usize, g: usize, at: usize)
    requires
        old(scene).wf(),
        q < old(scene).len(),
        g < old(scene).len(),
        q != g,
        old(scene).hierarchy.parent_of(g) != Some(q),
        at <= old(scene).hierarchy.children_of(g).len(),
    ensures
        final(scene).wf(),
        final(scene).elements@ == old(scene).elements@,
        final(scene).hierarchy.children_of(g) == old(scene).hierarchy.children_of(g).subrange(
            0,
            at as int,
        ) + hoisted(
            old(scene),
            old(scene).hierarchy.children_of(q),
            old(scene).hierarchy.children_of(q).len(),
        ) + old(scene).hierarchy.children_of(g).subrange(
            at as int,
            old(scene).hierarchy.children_of(g).len() as int,
        ),
        final(scene).hierarchy.children_of(q) == kept(
            old(scene),
            old(scene).hierarchy.children_of(q),
            old(scene).hierarchy.children_of(q).len(),
        ),
        forall|i: usize|
            i < old(scene).len() && i != q && i != g ==> #[trigger] final(scene).hierarchy.children_of(
                i,
            ) == old(scene).hierarchy.children_of(i),
        forall|i: usize|
            i < old(scene).len() ==> #[trigger] final(scene).hierarchy.parent_of(i) == if old(scene).hierarchy.parent_of(i) == Some(q) && !old(scene).element(i).resize_handle_container {
                Some(g)
            } else {
                old(scene).hierarchy.parent_of(i)
            },
{
    let ghost from = scene.hierarchy.children_of(q);
    let ghost onto = scene.hierarchy.children_of(g);
    let total = scene.hierarchy.child_count(q);
    let mut seen: usize = 0;
    let mut pos: usize = 0;
    let mut moved: usize = 0;
    assert(from.no_duplicates());
    while seen < total
        invariant
            scene.wf(),
            scene.elements@ == old(scene).elements@,
            scene.len() == old(scene).len(),
            q < scene.len(),
            g < scene.len(),
            q != g,
            from == old(scene).hierarchy.children_of(q),
            onto == old(scene).hierarchy.children_of(g),
            from.no_duplicates(),
            total == from.len(),
            at <= onto.len(),
            seen <= total,
            pos == kept(old(scene), from, seen as nat).len(),
            moved == hoisted(old(scene), from, seen as nat).len(),
            pos + moved == seen,
            scene.hierarchy.children_of(q) == kept(old(scene), from, seen as nat) + from.subrange(
                seen as int,
                total as int,
            ),
            scene.hierarchy.children_of(g) == onto.subrange(0, at as int) + hoisted(
                old(scene),
                from,
                seen as nat,
            ) + onto.subrange(at as int, onto.len() as int),
            !onto.contains(g),
            forall|k: int| 0 <= k < from.len() ==> from[k] != g && from[k] < scene.len(),
            forall|i: usize|
                i < scene.len() && i != q && i != g ==> #[trigger] scene.hierarchy.children_of(i)
                    == old(scene).hierarchy.children_of(i),
            forall|i: usize|
                i < scene.len() ==> #[trigger] scene.hierarchy.parent_of(i) == if hoisted(
                    old(scene),
                    from,
                    seen as nat,
                ).contains(i) {
                    Some(g)
                } else {
                    old(scene).hierarchy.parent_of(i)
                },
        decreases total - seen,
    {
        let ghost list_q = scene.hierarchy.children_of(q);
        let ghost list_g = scene.hierarchy.children_of(g);
        let ghost done = hoisted(old(scene), from, seen as nat);
        assert(list_q[pos as int] == from[seen as int]);
        let child = scene.hierarchy.child(q, pos);
        if scene.get(child).resize_handle_container {
            pos += 1;
            proof {
                assert(kept(old(scene), from, (seen + 1) as nat) + from.subrange(
                    seen + 1,
                    total as int,
                ) =~= list_q);
            }
        } else {
            proof {
                assert(!list_g.contains(child)) by {
                    if list_g.contains(child) {
                        let w = choose|w: int| 0 <= w < list_g.len() && list_g[w] == child;
                        assert(scene.hierarchy.links(g, scene.hierarchy.children_of(g)[w]));
                    }
                }
                lemma_without_absent(list_g, child);
                assert(list_q.no_duplicates());
                lemma_without_at(list_q, pos as int);
                assert(list_q.remove(pos as int) =~= kept(old(scene), from, (seen + 1) as nat)
                    + from.subrange(seen + 1, total as int));
            }
            let room = scene.hierarchy.child_count(g);
            assert(room == onto.len() + moved);
            scene.hierarchy.insert_child(g, at + moved, child);
            proof {
                let next = hoisted(old(scene), from, (seen + 1) as nat);
                assert(next == done.push(child));
                assert(list_g.insert(at + moved as int, child) =~= onto.subrange(0, at as int)
                    + next + onto.subrange(at as int, onto.len() as int));
                assert forall|i: usize| i < scene.len() implies #[trigger] scene.hierarchy.parent_of(
                    i,
                ) == if next.contains(i) {
                    Some(g)
                } else {
                    old(scene).hierarchy.parent_of(i)
                } by {
                    if i == child {
                        assert(next[next.len() - 1] == child);
                    } else {
                        if done.contains(i) {
                            let w = choose|w: int| 0 <= w < done.len() && done[w] == i;
                            assert(next[w] == i);
                        }
                        if next.contains(i) {
                            let w = choose|w: int| 0 <= w < next.len() && next[w] == i;
                            assert(done[w] == i);
                        }
                    }
                }
            }
            moved += 1;
        }
        proof {
            if scene.element(child).resize_handle_container {
                let next = hoisted(old(scene), from, (seen + 1) as nat);
                assert(next == done);
            }
        }
        seen += 1;
    }
    proof {
        let all = hoisted(old(scene), from, total as nat);
        assert(scene.hierarchy.children_of(q) =~= kept(old(scene), from, total as nat));
        assert forall|i: usize| i < old(scene).len() implies #[trigger] scene.hierarchy.parent_of(i)
            == if old(scene).hierarchy.parent_of(i) == Some(q) && !old(scene).element(
            i,
        ).resize_handle_container {
            Some(g)
        } else {
            old(scene).hierarchy.parent_of(i)
        } by {
            lemma_hoisted_members(old(scene), from, total as nat, i);
            if all.contains(i) {
                let w = choose|w: int|
                    0 <= w < total && from[w] == i && !old(scene).element(
                        from[w],
                    ).resize_handle_container;
                assert(old(scene).hierarchy.links(q, old(scene).hierarchy.children_of(q)[w]));
            } else if old(scene).hierarchy.parent_of(i) == Some(q) {
                assert(from.contains(i));
                let w = choose|w: int| 0 <= w < from.len() && from[w] == i;
                assert(0 <= w < total && from[w] == i);
            }
        }
    }
}

/// What the removal of `zone` reports: the element that leaves the tree,
/// and the element whose children have to be read anew.
pub open spec fn cleanup_outcome(before: &Scene, zone: usize) -> CleanupOutcome {
    match before.hierarchy.parent_of(zone) {
        None => CleanupOutcome { removed: zone, reset_children_of: None },
        Some(parent) => if collapses(before, zone) {
            CleanupOutcome {
                removed: parent,
                reset_children_of: before.hierarchy.parent_of(parent),
            }
        } else {
            CleanupOutcome { removed: zone, reset_children_of: Some(parent) }
        },
    }
}

/// The children of the element above a split container that leaves the
/// tree: without the container, and with the hoisted children in its place
/// where children are hoisted.
pub open spec fn lifted(before: &Scene, zone: usize, g: usize) -> Seq<usize> {
    let parent = before.hierarchy.parent_of(zone).unwrap();
    let above = before.hierarchy.children_of(g);
    let at = above.index_of(parent);
    match hoisted_from(before, zone) {
        Some(q) => above.subrange(0, at) + hoisted(
            before,
            before.hierarchy.children_of(q),
            before.hierarchy.children_of(q).len(),
        ) + above.subrange(at + 1, above.len() as int),
        None => above.remove(at),
    }
}

/// Whether `after` has the links of `before` with the empty docking zone
/// `zone` removed. A zone without parent leaves everything as it is. Where
/// the parent leaves with the zone, the parent has no parent any more, the
/// element above it lists the hoisted children in its place, the hoisted
/// children have that element as their parent, and the container they came
/// from keeps its handle holders. Otherwise the zone has no parent any
/// more and its parent does not list it. Every other link is as it was.
pub open spec fn cleaned(before: &Scene, zone: usize, after: &Scene) -> bool {
    match before.hierarchy.parent_of(zone) {
        None => after.hierarchy == before.hierarchy,
        Some(parent) => if collapses(before, zone) {
            let above = before.hierarchy.parent_of(parent);
            let source = hoisted_from(before, zone);
            &&& after.hierarchy.parent_of(parent) is None
            &&& after.hierarchy.parent_of(zone) == Some(parent)
            &&& above matches Some(g) ==> after.hierarchy.children_of(g) == lifted(before, zone, g)
            &&& source matches Some(q) ==> after.hierarchy.children_of(q) == kept(
                before,
                before.hierarchy.children_of(q),
                before.hierarchy.children_of(q).len(),
            )
            &&& forall|i: usize|
                i < before.len() && i != parent ==> #[trigger] after.hierarchy.parent_of(i) == if source
                    is Some && before.hierarchy.parent_of(i) == source && !before.element(
                    i,
                ).resize_handle_container {
                    above
                } else {
                    before.hierarchy.parent_of(i)
                }
            &&& forall|i: usize|
                i < before.len() && Some(i) != above && Some(i) != source
                    ==> #[trigger] after.hierarchy.children_of(i) == before.hierarchy.children_of(i)
        } else {
            &&& after.hierarchy.parent_of(zone) is None
            &&& after.hierarchy.children_of(parent) == before.hierarchy.children_of(parent).remove(
                before.hierarchy.children_of(parent).index_of(zone),
            )
            &&& forall|i: usize|
                i < before.len() && i != zone ==> after.hierarchy.parent_of(i)
                    == before.hierarchy.parent_of(i)
            &&& forall|i: usize|
                i < before.len() && i != parent ==> #[trigger] after.hierarchy.children_of(i)
                    == before.hierarchy.children_of(i)
        },
    }
}

/// The zone cleanup for one tab container and the docking zone `zone` that
/// owns it. While the container holds a tab nothing happens; once its tab
/// count has reached zero the zone is removed from the tree as
/// `remove_docking_zone` removes it. The result says what was removed, if
/// anything.
pub fn cleanup_empty_docking_zones(tab_container: &TabContainer, scene: &mut Scene, zone: usize) -> (r:
    Option<CleanupOutcome>)
    requires
        old(scene).wf(),
        zone < old(scene).len(),
    ensures
        final(scene).wf(),
        final(scene).elements@ == old(scene).elements@,
        r == if tab_container.tab_count == 0 {
            Some(cleanup_outcome(old(scene), zone))
        } else {
            None
        },
        tab_container.tab_count == 0 ==> cleaned(old(scene), zone, final(scene)),
        tab_container.tab_count > 0 ==> final(scene).hierarchy == old(scene).hierarchy,
{
    if tab_container.tab_count() > 0 {
        return None;
    }
    Some(remove_docking_zone(scene, zone))
}

/// Removes a docking zone from the tree. Where the zone lies in a split
/// container in which no other zone would remain, the container leaves the
/// tree with it. Where the one zone that would remain is a split container
/// itself, the container leaves too, and the children of that remaining
/// container (but for the holders of its resize handles) take the place of
/// the container under its parent, so that no split container holds a lone
/// split container. In every other case the zone alone leaves the tree.
/// What carries the elements is left as it is.
pub fn remove_docking_zone(scene: &mut Scene, zone: usize) -> (r: CleanupOutcome)
    requires
        old(scene).wf(),
        zone < old(scene).len(),
    ensures
        final(scene).wf(),
        final(scene).elements@ == old(scene).elements@,
        r == cleanup_outcome(old(scene), zone),
        cleaned(old(scene), zone, final(scene)),
{
    let Some(parent) = scene.hierarchy.parent(zone) else {
        return CleanupOutcome { removed: zone, reset_children_of: None };
    };
    assert(scene.hierarchy.children_of(parent).contains(zone));
    assert(scene.hierarchy.parent_of(zone) != Some(zone));
    let ghost list = scene.hierarchy.children_of(parent);
    if scene.get(parent).split_container {
        let count = scene.hierarchy.child_count(parent);
        let mut remaining: usize = 0;
        let mut last: Option<usize> = None;
        let mut k: usize = 0;
        while k < count
            invariant
                scene.wf(),
                parent < scene.len(),
                list == scene.hierarchy.children_of(parent),
                count == list.len(),
                k <= count,
                remaining <= k,
                remaining == remaining_zones(scene, list, zone, k as nat).len(),
                match last {
                    Some(q) => remaining > 0 && q == remaining_zones(scene, list, zone, k as nat).last()
                        && q < scene.len() && scene.hierarchy.parent_of(q) == Some(parent),
                    None => remaining == 0,
                },
            decreases count - k,
        {
            let child = scene.hierarchy.child(parent, k);
            let element = scene.get(child);
            if child != zone && !element.resize_handle_container && element.sized_zone.is_some() {
                remaining += 1;
                last = Some(child);
            }
            k += 1;
        }
        let ghost rest = remaining_zones(scene, list, zone, list.len());
        let last_is_split = match last {
            Some(q) => scene.get(q).split_container,
            None => false,
        };
        if remaining == 0 || (remaining == 1 && last_is_split) {
            assert(collapses(scene, zone));
            let above = scene.hierarchy.parent(parent);
            if let Some(g) = above {
                assert(scene.hierarchy.children_of(g).contains(parent));
                assert(scene.hierarchy.parent_of(parent) != Some(parent));
                let found = scene.hierarchy.position(g, parent);
                let at = found.unwrap();
                let ghost upper = scene.hierarchy.children_of(g);
                proof {
                    assert(upper.no_duplicates());
                    lemma_without_at(upper, at as int);
                }
                let mut hoisting = false;
                if remaining == 1 && last_is_split {
                    let q = last.unwrap();
                    assert(q == rest[0]);
                    let above_g = scene.hierarchy.parent(g);
                    let linked = match above_g {
                        Some(x) => x == q,
                        None => false,
                    };
                    if g != q && !linked {
                        assert(hoisted_from(scene, zone) == Some(q));
                        hoisting = true;
                        hoist_children(scene, q, g, at);
                        proof {
                            let lifted = hoisted(
                                old(scene),
                                old(scene).hierarchy.children_of(q),
                                old(scene).hierarchy.children_of(q).len(),
                            );
                            let now = scene.hierarchy.children_of(g);
                            assert(now == upper.subrange(0, at as int) + lifted + upper.subrange(
                                at as int,
                                upper.len() as int,
                            ));
                            assert(now[at + lifted.len()] == parent);
                            assert(now.no_duplicates());
                            lemma_without_at(now, at + lifted.len());
                            assert(now.remove(at + lifted.len()) =~= upper.subrange(0, at as int)
                                + lifted + upper.subrange(at + 1, upper.len() as int));
                            assert(scene.hierarchy.parent_of(parent) == Some(g));
                            assert(scene.hierarchy.parent_of(zone) == Some(parent));
                        }
                    }
                }
                if !hoisting {
                    assert(hoisted_from(scene, zone) is None);
                }
                scene.hierarchy.detach(parent);
                assert(scene.hierarchy.parent_of(zone) == Some(parent));
            } else {
                assert(hoisted_from(scene, zone) is None);
            }
            return CleanupOutcome { removed: parent, reset_children_of: above };
        }
        assert(!collapses(scene, zone));
    }
    proof {
        assert(list.no_duplicates());
        assert(!collapses(scene, zone));
    }
    scene.hierarchy.detach(zone);
    CleanupOutcome { removed: zone, reset_children_of: Some(parent) }
}

/// Whether `laid` is `merged` as the layout engine and the passes over the
/// zones leave it: the links are the same, and every element has the same
/// marks, stands in or out of the flow as before, and, where it is a zone,
/// has the same share. Measured extents, directions and floors may differ.
pub open spec fn same_layout_inputs(merged: &Scene, laid: &Scene) -> bool {
    &&& laid.hierarchy == merged.hierarchy
    &&& laid.len() == merged.len()
    &&& forall|i: usize|
        i < merged.len() ==> {
            let a = merged.element(i);
            let b = #[trigger] laid.element(i);
            &&& (a.sized_zone is Some) == (b.sized_zone is Some)
            &&& a.sized_zone is Some ==> a.sized_zone.unwrap().size_percent
                == b.sized_zone.unwrap().size_percent
            &&& a.is_flow_filler() == b.is_flow_filler()
            &&& a.split_container == b.split_container
            &&& a.resize_handle_container == b.resize_handle_container
        }
}

/// A split across the axis and the removal of the new zone give the zone
/// its share back. `split` is the scene after the split of the docking zone
/// of `request` in `before`, `merged` the scene after the removal of the
/// new zone, and `laid` the scene `merged` once it is measured. In `split`
/// a container has the share that the zone had, and the zone and the new
/// zone have half of the container each. The removal of the new zone leaves
/// the zone alone in the container, and the refit gives it the whole of the
/// container: the zone covers the share that it had before the split.
pub proof fn lemma_split_then_merge_restores_the_share(
    before: &Scene,
    request: DockingZoneSplit,
    split: &Scene,
    merged: &Scene,
    laid: &Scene,
)
    requires
        before.wf(),
        before.len() + 6 <= usize::MAX,
        request.applies(before),
        request.plan(before).inject_container,
        !before.element(request.docking_zone).split_container,
        !before.element(request.docking_zone).resize_handle_container,
        split.wf(),
        request.splits(before, split),
        merged.wf(),
        merged.elements@ == split.elements@,
        cleaned(split, request.outcome(before).new_docking_zone, merged),
        laid.wf(),
        same_layout_inputs(merged, laid),
        ({
            let z = request.docking_zone;
            let c = request.outcome(before).container.unwrap();
            let horizontal = laid.zone(z).flex_direction == FlexDirection::Column;
            &&& is_fit_ready(laid, c, laid.hierarchy.children_of(c))
            &&& laid.zone(z).flex_direction == FlexDirection::Row || laid.zone(z).flex_direction
                == FlexDirection::Column
            &&& extent(laid.element(c).size, horizontal) > 0
            &&& extent(laid.element(z).size, horizontal) > 0
            &&& extent(laid.element(z).size, horizontal) >= laid.zone(z).children_size
        }),
    ensures
        ({
            let z = request.docking_zone;
            let c = request.outcome(before).container.unwrap();
            let n = request.outcome(before).new_docking_zone;
            &&& split.zone(c).size_percent == clamp_share(before.zone(z).size_percent as int)
            &&& split.zone(z).size_percent == HALF_SIZE
            &&& split.zone(n).size_percent == HALF_SIZE
            &&& !collapses(split, n)
            &&& merged.hierarchy.parent_of(z) == Some(c)
            &&& !merged.hierarchy.children_of(c).contains(n)
            &&& laid.zone(c).size_percent == clamp_share(before.zone(z).size_percent as int)
            &&& refitted(laid, c, z).sized_zone == Some(
                SizedZone { size_percent: FULL_SIZE, ..laid.zone(z) },
            )
        }),
{
    let z = request.docking_zone;
    let outcome = request.outcome(before);
    let c = outcome.container.unwrap();
    let n = outcome.new_docking_zone;
    let first = before.len() as int;
    assert(c == first && n == first + 3);
    let h1 = (c + 1) as usize;
    let h2 = (c + 2) as usize;
    let elements = request.elements_after(before);
    let added = request.added_elements(before);
    assert(added.len() == 6);
    assert(elements.len() == first + 6);
    assert(split.len() == first + 6);
    assert(elements[c as int] == added[0]);
    assert(elements[h1 as int] == added[1]);
    assert(elements[h2 as int] == added[2]);
    assert(elements[n as int] == added[3]);
    assert(split.element(h1) == handle_container_element());
    assert(split.element(h2) == handle_container_element());
    assert(split.element(c).split_container);
    assert(split.is_zone(n));
    assert(split.is_zone(z));
    assert(!split.element(z).split_container);
    assert(split.element(z).resize_handle_container == before.element(z).resize_handle_container);
    let list = split.hierarchy.children_of(c);
    assert(list == request.container_children(before));
    assert(list.len() == 4);
    assert(split.hierarchy.links(c, list[0]));
    assert(split.hierarchy.links(c, list[1]));
    assert(split.hierarchy.links(c, list[2]));
    assert(split.hierarchy.links(c, list[3]));
    assert(list.no_duplicates());
    assert(split.hierarchy.parent_of(n) == Some(c));
    // The zones that stay beside the new zone: the zone alone.
    let rest = remaining_zones(split, list, n, 4);
    let r0 = remaining_zones(split, list, n, 0);
    let r1 = remaining_zones(split, list, n, 1);
    let r2 = remaining_zones(split, list, n, 2);
    let r3 = remaining_zones(split, list, n, 3);
    assert(r0 =~= Seq::<usize>::empty());
    assert(!split.element(z).resize_handle_container);
    assert(split.element(h1).resize_handle_container);
    assert(split.element(h2).resize_handle_container);
    assert(z != n);
    if request.plan(before).sibling_before {
        assert(list[0] == h1 && list[1] == h2 && list[2] == n && list[3] == z);
        assert(r1 =~= r0);
        assert(r2 =~= r1);
        assert(r3 =~= r2);
        assert(rest =~= r3.push(z));
    } else {
        assert(list[0] == z && list[1] == h1 && list[2] == h2 && list[3] == n);
        assert(r1 =~= r0.push(z));
        assert(r2 =~= r1);
        assert(r3 =~= r2);
        assert(rest =~= r3);
    }
    assert(rest =~= seq![z]);
    assert(!collapses(split, n));
    let at = list.index_of(n);
    assert(list.contains(n)) by {
        if request.plan(before).sibling_before {
            assert(list[2] == n);
        } else {
            assert(list[3] == n);
        }
    }
    assert(0 <= at < 4 && list[at] == n);
    let now = merged.hierarchy.children_of(c);
    assert(now == list.remove(at));
    assert(now.len() == 3);
    assert(merged.hierarchy.parent_of(z) == Some(c));
    assert(laid.hierarchy.children_of(c) == now);
    if request.plan(before).sibling_before {
        assert(at == 2);
        assert(now =~= seq![h1, h2, z]);
        assert(now[2] == z);
    } else {
        assert(at == 3);
        assert(now =~= seq![z, h1, h2]);
        assert(now[0] == z);
    }
    assert(now.contains(z));
    assert(!now.contains(n)) by {
        if now.contains(n) {
            let w = choose|w: int| 0 <= w < now.len() && now[w] == n;
            assert(now[w] == h1 || now[w] == h2 || now[w] == z);
        }
    }
    assert forall|k: int| 0 <= k < now.len() && now[k] != z implies {
        let other = laid.element(#[trigger] now[k]);
        other.sized_zone is None && !other.is_flow_filler()
    } by {
        assert(now[k] == h1 || now[k] == h2);
        assert(merged.element(h1) == handle_container_element());
        assert(merged.element(h2) == handle_container_element());
        assert(!handle_container_element().is_flow_filler());
    }
    assert(merged.is_zone(z));
    assert(laid.is_zone(z));
    lemma_lone_zone_refits_to_whole(laid, c, z);
    assert(merged.element(c) == added[0]);
    assert(laid.zone(c).size_percent == merged.zone(c).size_percent);
}

/// A split along the axis and the removal of the new zone give a zone that
/// stands alone the whole of its parent. `split` is the scene after the
/// split of the docking zone of `request` in `before`, where the zone is
/// the only zone of its parent and nothing else takes room in the flow;
/// `merged` is the scene after the removal of the new zone, and `laid` the
/// scene `merged` once it is measured. The refit gives the zone the whole
/// of its parent; so a zone that had the whole before the split has its
/// share again.
pub proof fn lemma_split_then_merge_of_a_lone_zone(
    before: &Scene,
    request: DockingZoneSplit,
    split: &Scene,
    merged: &Scene,
    laid: &Scene,
)
    requires
        before.wf(),
        before.len() + 3 <= usize::MAX,
        request.applies(before),
        !request.plan(before).inject_container,
        !before.element(before.hierarchy.parent_of(request.docking_zone).unwrap()).split_container,
        stands_alone(
            before,
            before.hierarchy.parent_of(request.docking_zone).unwrap(),
            request.docking_zone,
        ),
        split.wf(),
        request.splits(before, split),
        merged.wf(),
        merged.elements@ == split.elements@,
        cleaned(split, request.outcome(before).new_docking_zone, merged),
        laid.wf(),
        same_layout_inputs(merged, laid),
        ({
            let z = request.docking_zone;
            let p = before.hierarchy.parent_of(z).unwrap();
            let horizontal = laid.zone(z).flex_direction == FlexDirection::Column;
            &&& is_fit_ready(laid, p, laid.hierarchy.children_of(p))
            &&& laid.zone(z).flex_direction == FlexDirection::Row || laid.zone(z).flex_direction
                == FlexDirection::Column
            &&& extent(laid.element(p).size, horizontal) > 0
            &&& extent(laid.element(z).size, horizontal) > 0
            &&& extent(laid.element(z).size, horizontal) >= laid.zone(z).children_size
        }),
    ensures
        ({
            let z = request.docking_zone;
            let p = before.hierarchy.parent_of(z).unwrap();
            &&& merged.hierarchy.children_of(p) == before.hierarchy.children_of(p)
            &&& refitted(laid, p, z).sized_zone == Some(
                SizedZone { size_percent: FULL_SIZE, ..laid.zone(z) },
            )
            &&& before.zone(z).size_percent == FULL_SIZE ==> refitted(
                laid,
                p,
                z,
            ).sized_zone.unwrap().size_percent == before.zone(z).size_percent
        }),
{
    let z = request.docking_zone;
    let p = before.hierarchy.parent_of(z).unwrap();
    let outcome = request.outcome(before);
    let n = outcome.new_docking_zone;
    let first = before.len() as int;
    assert(n == first);
    let old_list = before.hierarchy.children_of(p);
    assert(old_list.contains(z));
    assert(old_list.no_duplicates());
    let at = old_list.index_of(z);
    assert(0 <= at < old_list.len() && old_list[at] == z);
    assert(!old_list.contains(n)) by {
        if old_list.contains(n) {
            let w = choose|w: int| 0 <= w < old_list.len() && old_list[w] == n;
            assert(before.hierarchy.links(p, before.hierarchy.children_of(p)[w]));
        }
    }
    let place = if request.plan(before).sibling_before {
        at
    } else {
        at + 1
    };
    let list = split.hierarchy.children_of(p);
    assert(list == old_list.insert(place, n));
    lemma_without_inserted(old_list, place, n);
    assert(list[place] == n);
    assert(list.no_duplicates());
    lemma_without_at(list, place);
    assert(list.index_of(n) == place);
    assert(list.remove(place) =~= old_list);
    let elements = request.elements_after(before);
    assert(elements.len() == first + 3);
    assert(p < first);
    assert(p != z) by {
        assert(before.hierarchy.parent_of(z) != Some(z));
    }
    assert(split.element(p) == before.element(p));
    assert(!collapses(split, n));
    assert(split.hierarchy.parent_of(n) == Some(p));
    let now = merged.hierarchy.children_of(p);
    assert(now == old_list);
    assert(laid.hierarchy.children_of(p) == now);
    assert forall|k: int| 0 <= k < now.len() && now[k] != z implies {
        let other = laid.element(#[trigger] now[k]);
        other.sized_zone is None && !other.is_flow_filler()
    } by {
        let x = now[k];
        assert(before.hierarchy.links(p, before.hierarchy.children_of(p)[k]));
        assert(x < first);
        assert(merged.element(x) == before.element(x));
    }
    assert(merged.is_zone(z));
    assert(laid.is_zone(z));
    lemma_lone_zone_refits_to_whole(laid, p, z);
}

} // verus!
