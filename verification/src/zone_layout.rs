//! The passes over the tree of sized zones that run when zones are added or
//! removed: directions, aggregate floors and resize handles.
use vstd::prelude::*;
use crate::scene::{Element, Scene};
use crate::sized_zone::SizedZone;
use crate::style::{FlexDirection, PositionType};
use crate::sized_zone::{clamp_share, FULL_SIZE, MAX_EXTENT};
use crate::units::{clamp_i64, floor_div, Vec2};

verus! {

/// The direction of a zone whose parent lays out along `parent`: the
/// other axis, never reversed.
pub open spec fn crossed(parent: FlexDirection) -> FlexDirection {
    match parent {
        FlexDirection::Row => FlexDirection::Column,
        FlexDirection::Column => FlexDirection::Row,
        FlexDirection::RowReverse => FlexDirection::Column,
        FlexDirection::ColumnReverse => FlexDirection::Row,
    }
}

/// Computes the direction of a zone from the direction of its parent.
pub fn cross(parent: FlexDirection) -> (r: FlexDirection)
    ensures
        r == crossed(parent),
{
    match parent {
        FlexDirection::Row => FlexDirection::Column,
        FlexDirection::Column => FlexDirection::Row,
        FlexDirection::RowReverse => FlexDirection::Column,
        FlexDirection::ColumnReverse => FlexDirection::Row,
    }
}

/// The direction that the tree gives to the zone `z`: across the direction
/// of its parent, where the parent of a zone under a zone has the direction
/// that the tree gives to it, and any other parent the direction of its
/// style. `None` where the chain of zones above `z` ends at an element
/// without parent or under a parent without style, or is longer than `fuel`.
pub open spec fn preset_direction(scene: &Scene, z: usize, fuel: nat) -> Option<FlexDirection>
    decreases fuel,
{
    if fuel == 0 {
        None
    } else {
        match scene.hierarchy.parent_of(z) {
            None => None,
            Some(p) => if scene.is_zone(p) {
                match preset_direction(scene, p, (fuel - 1) as nat) {
                    Some(d) => Some(crossed(d)),
                    None => None,
                }
            } else {
                match scene.element(p).style {
                    Some(style) => Some(crossed(style.flex_direction)),
                    None => None,
                }
            },
        }
    }
}

/// What element `z` carries after the direction pass.
pub open spec fn with_preset_direction(scene: &Scene, z: usize) -> Element {
    let element = scene.element(z);
    match (element.sized_zone, preset_direction(scene, z, scene.len())) {
        (Some(zone), Some(d)) => Element {
            sized_zone: Some(SizedZone { flex_direction: d, ..zone }),
            ..element
        },
        _ => element,
    }
}

/// The direction that the tree gives to the zone `zone`, found by walking
/// up at most `fuel` links.
pub fn preset_drop_zone_flex_direction(scene: &Scene, zone: usize, fuel: usize) -> (r: Option<
    FlexDirection,
>)
    requires
        scene.wf(),
        zone < scene.len(),
    ensures
        r == preset_direction(scene, zone, fuel as nat),
    decreases fuel,
{
    if fuel == 0 {
        return None;
    }
    match scene.hierarchy.parent(zone) {
        None => None,
        Some(p) => {
            assert(scene.hierarchy.children_of(p).contains(zone));
            let parent = scene.get(p);
            if parent.sized_zone.is_some() {
                match preset_drop_zone_flex_direction(scene, p, fuel - 1) {
                    Some(d) => Some(cross(d)),
                    None => None,
                }
            } else {
                match parent.style {
                    Some(style) => Some(cross(style.flex_direction)),
                    None => None,
                }
            }
        },
    }
}

/// The direction pass. Every zone takes the direction across that of its
/// parent, so that the directions alternate down a chain of nested zones. A
/// chain that hangs under an element without style, or under none, keeps
/// its directions. Nothing else changes.
pub fn preset_sized_zone_flex_layout(scene: &mut Scene)
    requires
        old(scene).wf(),
    ensures
        final(scene).wf(),
        final(scene).hierarchy == old(scene).hierarchy,
        final(scene).len() == old(scene).len(),
        forall|z: usize|
            z < old(scene).len() ==> #[trigger] final(scene).element(z) == with_preset_direction(
                old(scene),
                z,
            ),
{
    let n = scene.count();
    let mut directions: Vec<Option<FlexDirection>> = Vec::new();
    let mut z: usize = 0;
    while z < n
        invariant
            scene.wf(),
            n == scene.len(),
            z <= n,
            directions@.len() == z,
            forall|j: usize| j < z ==> directions@[j as int] == preset_direction(scene, j, n as nat),
        decreases n - z,
    {
        let d = preset_drop_zone_flex_direction(scene, z, n);
        directions.push(d);
        z += 1;
    }
    let mut i: usize = 0;
    while i < n
        invariant
            scene.wf(),
            scene.hierarchy == old(scene).hierarchy,
            n == scene.len(),
            n == old(scene).len(),
            i <= n,
            directions@.len() == n,
            forall|j: usize|
                j < n ==> directions@[j as int] == preset_direction(old(scene), j, n as nat),
            forall|j: usize| j < i ==> scene.element(j) == with_preset_direction(old(scene), j),
            forall|j: usize| i <= j < n ==> scene.element(j) == old(scene).element(j),
        decreases n - i,
    {
        let element = scene.get(i);
        if let (Some(zone), Some(d)) = (element.sized_zone, directions[i]) {
            scene.set(
                i,
                Element {
                    sized_zone: Some(
                        SizedZone {
                            size_percent: zone.size_percent,
                            min_size: zone.min_size,
                            children_size: zone.children_size,
                            flex_direction: d,
                            top_handle: zone.top_handle,
                            right_handle: zone.right_handle,
                            bottom_handle: zone.bottom_handle,
                            left_handle: zone.left_handle,
                        },
                    ),
                    style: element.style,
                    size: element.size,
                    docking_zone: element.docking_zone,
                    split_container: element.split_container,
                    resize_handle_container: element.resize_handle_container,
                },
            );
        }
        i += 1;
    }
}

/// What the zone `e` adds to the floor of `z` on the way up from `cur`
/// over at most `fuel` links: its own floor for each time that the way
/// passes `z`, where `z` is a zone of the direction of `e`.
pub open spec fn added(scene: &Scene, e: usize, cur: usize, z: usize, fuel: nat) -> int
    decreases fuel,
{
    if fuel == 0 {
        0
    } else {
        match scene.hierarchy.parent_of(cur) {
            None => 0,
            Some(p) => (if p == z && scene.is_zone(z) && scene.zone(z).flex_direction == scene.zone(
                e,
            ).flex_direction {
                scene.zone(e).min_size as int
            } else {
                0
            }) + added(scene, e, p, z, (fuel - 1) as nat),
        }
    }
}

/// The sum of the floors of the zones among the first `upto` elements that
/// lie below `z` and share its direction.
pub open spec fn floor_sum(scene: &Scene, z: usize, upto: nat) -> int
    decreases upto,
{
    if upto == 0 {
        0
    } else {
        let e = (upto - 1) as usize;
        floor_sum(scene, z, (upto - 1) as nat) + if scene.is_zone(e) {
            added(scene, e, e, z, scene.len())
        } else {
            0
        }
    }
}

/// The aggregate floor of the zone `z`: its own floor, or the sum of the
/// floors of the zones below it that share its direction where that is more.
pub open spec fn aggregate_floor(scene: &Scene, z: usize) -> int {
    let own = scene.zone(z).min_size as int;
    let below = floor_sum(scene, z, scene.len());
    clamp_i64(if below > own {
        below
    } else {
        own
    })
}

/// What element `z` carries after the floor pass.
pub open spec fn with_aggregate_floor(scene: &Scene, z: usize) -> Element {
    let element = scene.element(z);
    match element.sized_zone {
        Some(zone) => Element {
            sized_zone: Some(SizedZone { children_size: aggregate_floor(scene, z) as i64, ..zone }),
            ..element
        },
        None => element,
    }
}

/// Whether every zone of the scene is well formed.
pub open spec fn zones_wf(scene: &Scene) -> bool {
    forall|z: usize| z < scene.len() && #[trigger] scene.is_zone(z) ==> scene.zone(z).wf()
}

/// A length held at the upper end of the `i64` range.
pub open spec fn capped(v: int) -> int {
    if v > i64::MAX {
        i64::MAX as int
    } else {
        v
    }
}

/// The floor pass. Every zone gets as its aggregate floor the larger of its
/// own floor and the sum of the floors of all zones below it that share its
/// direction. Nothing else changes.
pub fn preset_sized_zone_children_size(scene: &mut Scene)
    requires
        old(scene).wf(),
        zones_wf(old(scene)),
    ensures
        final(scene).wf(),
        zones_wf(final(scene)),
        final(scene).hierarchy == old(scene).hierarchy,
        final(scene).len() == old(scene).len(),
        forall|z: usize|
            z < old(scene).len() ==> #[trigger] final(scene).element(z) == with_aggregate_floor(
                old(scene),
                z,
            ),
        forall|z: usize|
            z < old(scene).len() && #[trigger] final(scene).is_zone(z) ==> final(scene).zone(
                z,
            ).children_size >= final(scene).zone(z).min_size,
{
    let n = scene.count();
    let mut sums: Vec<i64> = Vec::new();
    let mut k: usize = 0;
    while k < n
        invariant
            k <= n,
            sums@.len() == k,
            forall|j: int| 0 <= j < k ==> sums@[j] == 0,
        decreases n - k,
    {
        sums.push(0);
        k += 1;
    }
    let ghost mut exact: Seq<int> = Seq::new(n as nat, |j: int| 0int);
    let mut e: usize = 0;
    while e < n
        invariant
            scene.wf(),
            zones_wf(scene),
            n == scene.len(),
            e <= n,
            sums@.len() == n,
            exact.len() == n,
            forall|z: usize| z < n ==> #[trigger] exact[z as int] == floor_sum(scene, z, e as nat),
            forall|z: usize| z < n ==> 0 <= #[trigger] exact[z as int],
            forall|z: usize| z < n ==> #[trigger] sums@[z as int] == capped(exact[z as int]),
        decreases n - e,
    {
        let element = scene.get(e);
        if let Some(zone) = element.sized_zone {
            let ghost start = exact;
            let mut cur: usize = e;
            let mut fuel: usize = n;
            assert(scene.is_zone(e));
            assert(zone.wf());
            while fuel > 0
                invariant
                    scene.wf(),
                    zones_wf(scene),
                    n == scene.len(),
                    e < n,
                    cur < n,
                    fuel <= n,
                    scene.is_zone(e),
                    zone == scene.zone(e),
                    zone.min_size >= 0,
                    sums@.len() == n,
                    exact.len() == n,
                    start.len() == n,
                    forall|z: usize|
                        z < n ==> #[trigger] exact[z as int] + added(scene, e, cur, z, fuel as nat)
                            == start[z as int] + added(scene, e, e, z, n as nat),
                    forall|z: usize| z < n ==> 0 <= #[trigger] exact[z as int],
                    forall|z: usize| z < n ==> #[trigger] sums@[z as int] == capped(exact[z as int]),
                decreases fuel,
            {
                match scene.hierarchy.parent(cur) {
                    None => {
                        fuel = 0;
                    },
                    Some(p) => {
                        assert(scene.hierarchy.children_of(p).contains(cur));
                        let parent = scene.get(p);
                        let ghost before = exact;
                        if let Some(parent_zone) = parent.sized_zone {
                            if parent_zone.flex_direction == zone.flex_direction {
                                let sum: i64 = sums[p];
                                let raised: i64 = if zone.min_size > i64::MAX - sum {
                                    i64::MAX
                                } else {
                                    sum + zone.min_size
                                };
                                sums.set(p, raised);
                                proof {
                                    exact = exact.update(p as int, exact[p as int] + zone.min_size);
                                }
                            }
                        }
                        assert forall|z: usize| z < n implies #[trigger] exact[z as int] + added(
                            scene,
                            e,
                            p,
                            z,
                            (fuel - 1) as nat,
                        ) == start[z as int] + added(scene, e, e, z, n as nat) by {
                            assert(before[z as int] + added(scene, e, cur, z, fuel as nat)
                                == start[z as int] + added(scene, e, e, z, n as nat));
                        }
                        cur = p;
                        fuel -= 1;
                    },
                }
            }
            assert forall|z: usize| z < n implies #[trigger] exact[z as int] == floor_sum(
                scene,
                z,
                (e + 1) as nat,
            ) by {
                assert(exact[z as int] + added(scene, e, cur, z, 0) == start[z as int] + added(
                    scene,
                    e,
                    e,
                    z,
                    n as nat,
                ));
            }
        }
        e += 1;
    }
    let mut i: usize = 0;
    while i < n
        invariant
            scene.wf(),
            zones_wf(scene),
            zones_wf(old(scene)),
            scene.hierarchy == old(scene).hierarchy,
            n == scene.len(),
            n == old(scene).len(),
            i <= n,
            sums@.len() == n,
            exact.len() == n,
            forall|z: usize|
                z < n ==> #[trigger] exact[z as int] == floor_sum(old(scene), z, n as nat),
            forall|z: usize| z < n ==> #[trigger] sums@[z as int] == capped(exact[z as int]),
            forall|j: usize| j < i ==> scene.element(j) == with_aggregate_floor(old(scene), j),
            forall|j: usize| i <= j < n ==> scene.element(j) == old(scene).element(j),
        decreases n - i,
    {
        let element = scene.get(i);
        if let Some(zone) = element.sized_zone {
            assert(old(scene).is_zone(i));
            assert(zone.wf());
            let below: i64 = sums[i];
            assert(below == capped(exact[i as int]));
            let floor: i64 = if below > zone.min_size {
                below
            } else {
                zone.min_size
            };
            let ghost prior = *scene;
            scene.set(
                i,
                Element {
                    sized_zone: Some(
                        SizedZone {
                            size_percent: zone.size_percent,
                            min_size: zone.min_size,
                            children_size: floor,
                            flex_direction: zone.flex_direction,
                            top_handle: zone.top_handle,
                            right_handle: zone.right_handle,
                            bottom_handle: zone.bottom_handle,
                            left_handle: zone.left_handle,
                        },
                    ),
                    style: element.style,
                    size: element.size,
                    docking_zone: element.docking_zone,
                    split_container: element.split_container,
                    resize_handle_container: element.resize_handle_container,
                },
            );
            assert(zones_wf(scene)) by {
                assert forall|z: usize| z < scene.len() && #[trigger] scene.is_zone(z) implies scene.zone(
                    z,
                ).wf() by {
                    if z != i {
                        assert(prior.is_zone(z));
                    }
                }
            }
        }
        i += 1;
    }
    assert forall|z: usize| z < old(scene).len() && #[trigger] scene.is_zone(z) implies scene.zone(
        z,
    ).children_size >= scene.zone(z).min_size by {
        assert(scene.element(z) == with_aggregate_floor(old(scene), z));
    }
}

/// The resize handles of one zone among its siblings. The leading handle
/// of a zone is the one towards the start of its parent's axis (top for a
/// row zone, left for a column zone), the trailing handle the one towards
/// the end (bottom, right).
#[derive(Clone, Copy, Debug, PartialEq, Eq, Structural)]
pub struct ZoneHandles {
    pub zone: usize,
    /// Whether the leading and the trailing handle show; the two handles
    /// across the axis never show. `None` leaves all four as they are.
    pub visible: Option<HandleVisibility>,
    /// The zones that the leading and the trailing handle resize against.
    /// `None` leaves the handles linked as they are.
    pub neighbours: Option<HandleNeighbours>,
}

/// Whether the two handles along the axis of a zone show.
#[derive(Clone, Copy, Debug, PartialEq, Eq, Structural)]
pub struct HandleVisibility {
    pub leading: bool,
    pub trailing: bool,
}

/// The zones on the two sides of a zone along its parent's axis.
#[derive(Clone, Copy, Debug, PartialEq, Eq, Structural)]
pub struct HandleNeighbours {
    pub leading: Option<usize>,
    pub trailing: Option<usize>,
}

/// Whether an element is a zone that takes part in the handle pass.
pub open spec fn is_styled_zone(element: Element) -> bool {
    element.style is Some && element.sized_zone is Some
}

/// The styled zones among the first `upto` elements of `list`, in order.
pub open spec fn styled_zones(scene: &Scene, list: Seq<usize>, upto: nat) -> Seq<usize>
    decreases upto,
{
    if upto == 0 {
        Seq::empty()
    } else {
        let before = styled_zones(scene, list, (upto - 1) as nat);
        if is_styled_zone(scene.element(list[upto - 1])) {
            before.push(list[upto - 1])
        } else {
            before
        }
    }
}

/// Whether something that is not a zone takes room in the flow between the
/// child at place `at` and the zone before it.
pub open spec fn gap_before(scene: &Scene, list: Seq<usize>, at: nat) -> bool
    decreases at,
{
    if at == 0 {
        false
    } else {
        let element = scene.element(list[at - 1]);
        match element.style {
            None => gap_before(scene, list, (at - 1) as nat),
            Some(style) => if element.sized_zone is Some {
                false
            } else if style.position_type == PositionType::Relative {
                true
            } else {
                gap_before(scene, list, (at - 1) as nat)
            },
        }
    }
}

/// Whether the direction of a zone is one along which handles are laid out.
pub open spec fn is_plain_direction(d: FlexDirection) -> bool {
    d == FlexDirection::Row || d == FlexDirection::Column
}

/// The handles of the styled zone at place `at` of `list`, the children of
/// one parent. A handle shows only on a seam: the leading handle where the
/// zone is not the first zone and something other than a zone lies between
/// it and the zone before; the trailing handle where the zone is neither the
/// last zone nor the last child. Each handle resizes against the zone next
/// to it on its side.
pub open spec fn zone_handles(scene: &Scene, list: Seq<usize>, at: nat) -> ZoneHandles {
    let zones = styled_zones(scene, list, list.len());
    let rank = styled_zones(scene, list, at).len();
    let zone = list[at as int];
    if is_plain_direction(scene.zone(zone).flex_direction) {
        ZoneHandles {
            zone,
            visible: Some(
                HandleVisibility {
                    leading: rank > 0 && gap_before(scene, list, at),
                    trailing: at + 1 != list.len() && rank + 1 != zones.len(),
                },
            ),
            neighbours: Some(
                HandleNeighbours {
                    leading: if rank > 0 {
                        Some(zones[rank - 1])
                    } else {
                        None
                    },
                    trailing: if rank + 1 < zones.len() {
                        Some(zones[rank as int + 1])
                    } else {
                        None
                    },
                },
            ),
        }
    } else {
        ZoneHandles { zone, visible: None, neighbours: None }
    }
}

/// The places in `list` of the styled zones among its first `upto` elements.
pub open spec fn zone_places(scene: &Scene, list: Seq<usize>, upto: nat) -> Seq<nat>
    decreases upto,
{
    if upto == 0 {
        Seq::empty()
    } else {
        let before = zone_places(scene, list, (upto - 1) as nat);
        if is_styled_zone(scene.element(list[upto - 1])) {
            before.push((upto - 1) as nat)
        } else {
            before
        }
    }
}

/// The handles of the zones under `parent`, zone by zone in the order of the
/// children. An only child that is a zone hides all its handles and keeps
/// their links.
pub open spec fn parent_handles(scene: &Scene, parent: usize) -> Seq<ZoneHandles> {
    let list = scene.hierarchy.children_of(parent);
    if list.len() == 1 {
        if scene.is_zone(list[0]) {
            seq![ZoneHandles { zone: list[0], visible: Some(HandleVisibility { leading: false, trailing: false }), neighbours: None }]
        } else {
            Seq::empty()
        }
    } else {
        let places = zone_places(scene, list, list.len());
        Seq::new(places.len(), |i: int| zone_handles(scene, list, places[i]))
    }
}

proof fn lemma_zone_places(scene: &Scene, list: Seq<usize>, upto: nat)
    requires
        upto <= list.len(),
    ensures
        zone_places(scene, list, upto).len() == styled_zones(scene, list, upto).len(),
        forall|i: int|
            0 <= i < zone_places(scene, list, upto).len() ==> {
                let place = #[trigger] zone_places(scene, list, upto)[i];
                &&& place < upto
                &&& list[place as int] == styled_zones(scene, list, upto)[i]
                &&& is_styled_zone(scene.element(list[place as int]))
                &&& styled_zones(scene, list, place).len() == i
            },
    decreases upto,
{
    if upto > 0 {
        lemma_zone_places(scene, list, (upto - 1) as nat);
    }
}

/// The handle pass for the children of one parent: which resize handles of
/// each zone show, and which neighbour each handle resizes.
pub fn preset_sized_zone_resize_handles(scene: &Scene, parent: usize) -> (r: Vec<ZoneHandles>)
    requires
        scene.wf(),
        parent < scene.len(),
    ensures
        r@ == parent_handles(scene, parent),
{
    let child_count = scene.hierarchy.child_count(parent);
    let ghost list = scene.hierarchy.children_of(parent);
    let mut result: Vec<ZoneHandles> = Vec::new();
    if child_count == 1 {
        let only = scene.hierarchy.child(parent, 0);
        if scene.get(only).sized_zone.is_some() {
            result.push(ZoneHandles { zone: only, visible: Some(HandleVisibility { leading: false, trailing: false }), neighbours: None });
        }
        assert(result@ =~= parent_handles(scene, parent));
        return result;
    }
    let mut zones: Vec<usize> = Vec::new();
    let mut places: Vec<usize> = Vec::new();
    let mut gaps: Vec<bool> = Vec::new();
    let mut gap = false;
    let mut j: usize = 0;
    while j < child_count
        invariant
            scene.wf(),
            parent < scene.len(),
            list == scene.hierarchy.children_of(parent),
            child_count == list.len(),
            j <= child_count,
            zones@ == styled_zones(scene, list, j as nat),
            places@.len() == zones@.len(),
            gaps@.len() == zones@.len(),
            forall|i: int| 0 <= i < places@.len() ==> places@[i] as nat == zone_places(scene, list, j as nat)[i],
            zone_places(scene, list, j as nat).len() == places@.len(),
            forall|i: int|
                0 <= i < gaps@.len() ==> gaps@[i] == gap_before(scene, list, places@[i] as nat),
            gap == gap_before(scene, list, j as nat),
        decreases child_count - j,
    {
        let child = scene.hierarchy.child(parent, j);
        let element = scene.get(child);
        if let Some(style) = element.style {
            if element.sized_zone.is_some() {
                zones.push(child);
                places.push(j);
                gaps.push(gap);
                gap = false;
            } else if style.position_type == PositionType::Relative {
                gap = true;
            }
        }
        j += 1;
    }
    proof {
        lemma_zone_places(scene, list, list.len());
    }
    let count = zones.len();
    let mut i: usize = 0;
    while i < count
        invariant
            scene.wf(),
            parent < scene.len(),
            list == scene.hierarchy.children_of(parent),
            child_count == list.len(),
            child_count != 1,
            count == zones@.len(),
            i <= count,
            zones@ == styled_zones(scene, list, list.len()),
            places@.len() == count,
            gaps@.len() == count,
            zone_places(scene, list, list.len()).len() == count,
            forall|k: int| 0 <= k < count ==> places@[k] as nat == zone_places(scene, list, list.len())[k],
            forall|k: int|
                0 <= k < count ==> {
                    let place = #[trigger] zone_places(scene, list, list.len())[k];
                    &&& place < list.len()
                    &&& list[place as int] == zones@[k]
                    &&& is_styled_zone(scene.element(list[place as int]))
                    &&& styled_zones(scene, list, place).len() == k
                },
            forall|k: int|
                0 <= k < count ==> gaps@[k] == gap_before(scene, list, places@[k] as nat),
            result@.len() == i,
            forall|k: int|
                0 <= k < i ==> result@[k] == zone_handles(
                    scene,
                    list,
                    zone_places(scene, list, list.len())[k],
                ),
        decreases count - i,
    {
        let zone_id = zones[i];
        let ghost place = zone_places(scene, list, list.len())[i as int];
        assert(list[place as int] == zone_id);
        assert(scene.hierarchy.links(parent, scene.hierarchy.children_of(parent)[place as int]));
        let element = scene.get(zone_id);
        let zone = element.sized_zone.unwrap();
        let plain = match zone.flex_direction {
            FlexDirection::Row => true,
            FlexDirection::Column => true,
            _ => false,
        };
        if plain {
            let leading = i > 0 && gaps[i];
            let trailing = places[i] + 1 != child_count && i + 1 != count;
            let before = if i > 0 {
                Some(zones[i - 1])
            } else {
                None
            };
            let after = if i + 1 < count {
                Some(zones[i + 1])
            } else {
                None
            };
            result.push(
                ZoneHandles {
                    zone: zone_id,
                    visible: Some(HandleVisibility { leading, trailing }),
                    neighbours: Some(HandleNeighbours { leading: before, trailing: after }),
                },
            );
        } else {
            result.push(ZoneHandles { zone: zone_id, visible: None, neighbours: None });
        }
        i += 1;
    }
    assert(result@ =~= parent_handles(scene, parent));
    result
}

/// Whether an extent is one that the layout engine has measured: neither
/// negative nor beyond the largest extent.
pub open spec fn is_measured(size: Vec2) -> bool {
    0 <= size.x <= MAX_EXTENT && 0 <= size.y <= MAX_EXTENT
}

fn measured(size: Vec2) -> (r: bool)
    ensures
        r == is_measured(size),
{
    0 <= size.x && size.x <= MAX_EXTENT && 0 <= size.y && size.y <= MAX_EXTENT
}

/// The extent of `size` along the horizontal or the vertical axis.
pub open spec fn extent(size: Vec2, horizontal: bool) -> int {
    if horizontal {
        size.x as int
    } else {
        size.y as int
    }
}

/// Whether an element counts towards the sum of the zones (`zones`) or
/// towards the sum of what else takes room in the flow.
pub open spec fn counts(element: Element, zones: bool) -> bool {
    if zones {
        element.sized_zone is Some
    } else {
        element.is_flow_filler()
    }
}

/// The sum, over the first `upto` elements of `list`, of the measured
/// extents of the zones, or of what else takes room in the flow.
pub open spec fn extent_sum(
    scene: &Scene,
    list: Seq<usize>,
    zones: bool,
    horizontal: bool,
    upto: nat,
) -> int
    decreases upto,
{
    if upto == 0 {
        0
    } else {
        let element = scene.element(list[upto - 1]);
        extent_sum(scene, list, zones, horizontal, (upto - 1) as nat) + if counts(element, zones) {
            extent(element.size, horizontal)
        } else {
            0
        }
    }
}

/// Whether the parent and all of `list`, its children, are measured, and the
/// parent is not of extent zero.
pub open spec fn is_fit_ready(scene: &Scene, parent: usize, list: Seq<usize>) -> bool {
    &&& is_measured(scene.element(parent).size)
    &&& scene.element(parent).size != (Vec2 { x: 0, y: 0 })
    &&& forall|k: int| 0 <= k < list.len() ==> is_measured(#[trigger] scene.element(list[k]).size)
}

/// The share that the refit gives to a zone that is a child of `parent`:
/// the measured extent of the zone, but not less than its aggregate floor,
/// as a share of the parent, scaled by the room that the parent has for
/// zones over the room that its zones take. `None` where the zone keeps its
/// share: its direction is reversed, the parent has no extent along the
/// axis, the zones take no room, or nothing is left for them.
pub open spec fn fitted_share(scene: &Scene, parent: usize, zone: usize) -> Option<int> {
    let list = scene.hierarchy.children_of(parent);
    let z = scene.zone(zone);
    let horizontal = z.flex_direction == FlexDirection::Column;
    let total = extent(scene.element(parent).size, horizontal);
    let fillers = extent_sum(scene, list, false, horizontal, list.len());
    let zones = extent_sum(scene, list, true, horizontal, list.len());
    let own = extent(scene.element(zone).size, horizontal);
    let basis = if own > z.children_size {
        own
    } else {
        z.children_size as int
    };
    if !(z.flex_direction == FlexDirection::Row || z.flex_direction == FlexDirection::Column)
        || total == 0 || zones == 0 || total - fillers <= 0 {
        None
    } else {
        Some(clamp_share((basis * FULL_SIZE * (total - fillers)) / (total * zones)))
    }
}

/// What element `x` carries after the refit of the children of `parent`.
pub open spec fn refitted(scene: &Scene, parent: usize, x: usize) -> Element {
    let list = scene.hierarchy.children_of(parent);
    let element = scene.element(x);
    if list.contains(x) && is_fit_ready(scene, parent, list) && element.sized_zone is Some {
        match fitted_share(scene, parent, x) {
            Some(share) => Element {
                sized_zone: Some(SizedZone { size_percent: share as i64, ..element.sized_zone.unwrap() }),
                ..element
            },
            None => element,
        }
    } else {
        element
    }
}

fn sum_extents(scene: &Scene, parent: usize, zones: bool, horizontal: bool) -> (r: i128)
    requires
        scene.wf(),
        parent < scene.len(),
        forall|k: int|
            0 <= k < scene.hierarchy.children_of(parent).len() ==> is_measured(
                #[trigger] scene.element(scene.hierarchy.children_of(parent)[k]).size,
            ),
    ensures
        r == extent_sum(
            scene,
            scene.hierarchy.children_of(parent),
            zones,
            horizontal,
            scene.hierarchy.children_of(parent).len(),
        ),
        0 <= r <= scene.hierarchy.children_of(parent).len() * MAX_EXTENT,
{
    let ghost list = scene.hierarchy.children_of(parent);
    let count = scene.hierarchy.child_count(parent);
    let mut sum: i128 = 0;
    let mut k: usize = 0;
    while k < count
        invariant
            scene.wf(),
            parent < scene.len(),
            list == scene.hierarchy.children_of(parent),
            count == list.len(),
            k <= count,
            forall|j: int| 0 <= j < list.len() ==> is_measured(#[trigger] scene.element(list[j]).size),
            sum == extent_sum(scene, list, zones, horizontal, k as nat),
            0 <= sum <= k * MAX_EXTENT,
        decreases count - k,
    {
        let child = scene.hierarchy.child(parent, k);
        let element = scene.get(child);
        assert(is_measured(scene.element(list[k as int]).size));
        let included = if zones {
            element.sized_zone.is_some()
        } else {
            element.sized_zone.is_none() && match element.style {
                Some(style) => style.position_type == PositionType::Relative,
                None => false,
            }
        };
        assert((k + 1) * MAX_EXTENT == k * MAX_EXTENT + MAX_EXTENT) by (nonlinear_arith);
        assert(k * MAX_EXTENT <= 0xffff_ffff_ffff_ffff * 100_000_000) by (nonlinear_arith)
            requires
                0 <= k <= 0xffff_ffff_ffff_ffff,
                MAX_EXTENT == 100_000_000,
        ;
        if included {
            let own: i64 = if horizontal {
                element.size.x
            } else {
                element.size.y
            };
            sum = sum + own as i128;
        }
        k += 1;
    }
    sum
}

/// The refit of the zones under one parent after the geometry changed. The
/// shares of the zones are rescaled so that together they take the room that
/// the parent has left beside its other children, each in proportion to the
/// extent it was measured with (but not less than its aggregate floor).
/// Nothing changes while the parent or a child is not measured.
pub fn fit_sized_zones_on_window_resize(scene: &mut Scene, parent: usize)
    requires
        old(scene).wf(),
        parent < old(scene).len(),
    ensures
        final(scene).wf(),
        final(scene).hierarchy == old(scene).hierarchy,
        final(scene).len() == old(scene).len(),
        forall|x: usize|
            x < old(scene).len() ==> #[trigger] final(scene).element(x) == refitted(
                old(scene),
                parent,
                x,
            ),
{
    let ghost list = scene.hierarchy.children_of(parent);
    let count = scene.hierarchy.child_count(parent);
    let parent_size = scene.get(parent).size;
    if !measured(parent_size) || (parent_size.x == 0 && parent_size.y == 0) {
        return ;
    }
    let mut k: usize = 0;
    while k < count
        invariant
            scene.wf(),
            parent < scene.len(),
            list == scene.hierarchy.children_of(parent),
            count == list.len(),
            k <= count,
            forall|j: int| 0 <= j < k ==> is_measured(#[trigger] scene.element(list[j]).size),
        decreases count - k,
    {
        let child = scene.hierarchy.child(parent, k);
        if !measured(scene.get(child).size) {
            assert(!is_measured(scene.element(list[k as int]).size));
            return ;
        }
        k += 1;
    }
    assert(is_fit_ready(scene, parent, list));
    let fillers_x = sum_extents(scene, parent, false, true);
    let fillers_y = sum_extents(scene, parent, false, false);
    let zones_x = sum_extents(scene, parent, true, true);
    let zones_y = sum_extents(scene, parent, true, false);
    assert(list.len() * MAX_EXTENT <= 0xffff_ffff_ffff_ffff * 100_000_000) by (nonlinear_arith)
        requires
            0 <= list.len() <= 0xffff_ffff_ffff_ffff,
            MAX_EXTENT == 100_000_000,
    ;
    let mut i: usize = 0;
    while i < count
        invariant
            scene.wf(),
            scene.hierarchy == old(scene).hierarchy,
            scene.len() == old(scene).len(),
            parent < scene.len(),
            list == old(scene).hierarchy.children_of(parent),
            count == list.len(),
            i <= count,
            is_fit_ready(old(scene), parent, list),
            parent_size == old(scene).element(parent).size,
            is_measured(parent_size),
            fillers_x == extent_sum(old(scene), list, false, true, list.len()),
            fillers_y == extent_sum(old(scene), list, false, false, list.len()),
            zones_x == extent_sum(old(scene), list, true, true, list.len()),
            zones_y == extent_sum(old(scene), list, true, false, list.len()),
            0 <= fillers_x <= 0xffff_ffff_ffff_ffff * 100_000_000,
            0 <= fillers_y <= 0xffff_ffff_ffff_ffff * 100_000_000,
            0 <= zones_x <= 0xffff_ffff_ffff_ffff * 100_000_000,
            0 <= zones_y <= 0xffff_ffff_ffff_ffff * 100_000_000,
            forall|j: int| 0 <= j < i ==> scene.element(#[trigger] list[j]) == refitted(old(scene), parent, list[j]),
            forall|x: usize|
                x < scene.len() && (forall|j: int| 0 <= j < i ==> list[j] != x) ==> scene.element(x)
                    == old(scene).element(x),
        decreases count - i,
    {
        let child = scene.hierarchy.child(parent, i);
        assert(list.no_duplicates());
        assert(list.contains(child));
        assert(forall|j: int| 0 <= j < i ==> list[j] != child);
        let element = scene.get(child);
        assert(element == old(scene).element(child));
        assert(is_measured(old(scene).element(list[i as int]).size));
        let ghost prior = *scene;
        if let Some(zone) = element.sized_zone {
            let horizontal = match zone.flex_direction {
                FlexDirection::Column => true,
                _ => false,
            };
            let plain = match zone.flex_direction {
                FlexDirection::Row => true,
                FlexDirection::Column => true,
                _ => false,
            };
            let total: i64 = if horizontal {
                parent_size.x
            } else {
                parent_size.y
            };
            let fillers: i128 = if horizontal {
                fillers_x
            } else {
                fillers_y
            };
            let zones: i128 = if horizontal {
                zones_x
            } else {
                zones_y
            };
            let room: i128 = total as i128 - fillers;
            if plain && total != 0 && zones != 0 && room > 0 {
                let own: i64 = if horizontal {
                    element.size.x
                } else {
                    element.size.y
                };
                let basis: i64 = if own > zone.children_size {
                    own
                } else {
                    zone.children_size
                };
                assert(0 <= basis * 100_000_000 <= 0x8000_0000_0000_0000 * 100_000_000)
                    by (nonlinear_arith)
                    requires
                        0 <= basis <= 0x8000_0000_0000_0000,
                ;
                assert(0 <= (basis * 100_000_000) * room <= (0x8000_0000_0000_0000 * 100_000_000)
                    * 100_000_000) by (nonlinear_arith)
                    requires
                        0 <= basis * 100_000_000 <= 0x8000_0000_0000_0000 * 100_000_000,
                        0 < room <= 100_000_000,
                ;
                assert(0 < total * zones <= 100_000_000 * (0xffff_ffff_ffff_ffff * 100_000_000))
                    by (nonlinear_arith)
                    requires
                        0 < total <= 100_000_000,
                        0 < zones <= 0xffff_ffff_ffff_ffff * 100_000_000,
                ;
                let scaled: i128 = (basis as i128 * 100_000_000i128) * room;
                let against: i128 = total as i128 * zones;
                let share: i128 = floor_div(scaled, against);
                let clamped: i64 = if share < 0 {
                    0
                } else if share > FULL_SIZE as i128 {
                    FULL_SIZE
                } else {
                    share as i64
                };
                scene.set(
                    child,
                    Element {
                        sized_zone: Some(
                            SizedZone {
                                size_percent: clamped,
                                min_size: zone.min_size,
                                children_size: zone.children_size,
                                flex_direction: zone.flex_direction,
                                top_handle: zone.top_handle,
                                right_handle: zone.right_handle,
                                bottom_handle: zone.bottom_handle,
                                left_handle: zone.left_handle,
                            },
                        ),
                        style: element.style,
                        size: element.size,
                        docking_zone: element.docking_zone,
                        split_container: element.split_container,
                        resize_handle_container: element.resize_handle_container,
                    },
                );
            }
        }
        assert(scene.element(child) == refitted(old(scene), parent, child));
        assert forall|j: int| 0 <= j < i + 1 implies scene.element(#[trigger] list[j]) == refitted(
            old(scene),
            parent,
            list[j],
        ) by {
            if j < i {
                assert(list[j] != child);
                assert(prior.element(list[j]) == refitted(old(scene), parent, list[j]));
            }
        }
        i += 1;
    }
    assert forall|x: usize| x < old(scene).len() implies #[trigger] scene.element(x) == refitted(
        old(scene),
        parent,
        x,
    ) by {
        if list.contains(x) {
            let j = choose|j: int| 0 <= j < list.len() && list[j] == x;
            assert(scene.element(list[j]) == refitted(old(scene), parent, list[j]));
        }
    }
}

/// Where only the element at place `at` of `list` counts, the sum of the
/// extents is the extent of that element.
pub proof fn lemma_extent_sum_of_one(
    scene: &Scene,
    list: Seq<usize>,
    zones: bool,
    horizontal: bool,
    at: int,
    upto: nat,
)
    requires
        upto <= list.len(),
        0 <= at < list.len(),
        forall|k: int| 0 <= k < list.len() && k != at ==> !counts(scene.element(#[trigger] list[k]), zones),
    ensures
        extent_sum(scene, list, zones, horizontal, upto) == if at < upto && counts(
            scene.element(list[at]),
            zones,
        ) {
            extent(scene.element(list[at]).size, horizontal)
        } else {
            0
        },
    decreases upto,
{
    if upto > 0 {
        lemma_extent_sum_of_one(scene, list, zones, horizontal, at, (upto - 1) as nat);
        if upto - 1 != at {
            assert(!counts(scene.element(list[upto - 1]), zones));
        }
    }
}

/// Whether `zone` stands alone under `parent`: no other child of `parent`
/// is a zone or takes room in the flow.
pub open spec fn stands_alone(scene: &Scene, parent: usize, zone: usize) -> bool {
    forall|k: int|
        0 <= k < scene.hierarchy.children_of(parent).len() && scene.hierarchy.children_of(
            parent,
        )[k] != zone ==> {
            let other = scene.element(#[trigger] scene.hierarchy.children_of(parent)[k]);
            other.sized_zone is None && !other.is_flow_filler()
        }
}

/// The merge of a split: a zone that is the only zone of its parent, beside
/// nothing else that takes room in the flow, is refitted to the whole of the
/// parent, whatever share it had. So a zone that gave half of a container to
/// a new zone has the whole container once the new zone is gone, and with
/// it the share that the container took over from the zone.
pub proof fn lemma_lone_zone_refits_to_whole(scene: &Scene, parent: usize, zone: usize)
    requires
        scene.wf(),
        parent < scene.len(),
        scene.hierarchy.children_of(parent).contains(zone),
        scene.is_zone(zone),
        scene.zone(zone).flex_direction == FlexDirection::Row || scene.zone(zone).flex_direction
            == FlexDirection::Column,
        is_fit_ready(scene, parent, scene.hierarchy.children_of(parent)),
        stands_alone(scene, parent, zone),
        ({
            let horizontal = scene.zone(zone).flex_direction == FlexDirection::Column;
            &&& extent(scene.element(parent).size, horizontal) > 0
            &&& extent(scene.element(zone).size, horizontal) > 0
            &&& extent(scene.element(zone).size, horizontal) >= scene.zone(zone).children_size
        }),
    ensures
        fitted_share(scene, parent, zone) == Some(FULL_SIZE as int),
        refitted(scene, parent, zone).sized_zone == Some(
            SizedZone { size_percent: FULL_SIZE, ..scene.zone(zone) },
        ),
{
    let list = scene.hierarchy.children_of(parent);
    let horizontal = scene.zone(zone).flex_direction == FlexDirection::Column;
    let at = choose|at: int| 0 <= at < list.len() && list[at] == zone;
    assert(list.no_duplicates());
    assert forall|k: int| 0 <= k < list.len() && k != at implies !counts(
        scene.element(#[trigger] list[k]),
        true,
    ) && !counts(scene.element(list[k]), false) by {
        assert(list[k] != zone);
    }
    lemma_extent_sum_of_one(scene, list, true, horizontal, at, list.len());
    lemma_extent_sum_of_one(scene, list, false, horizontal, at, list.len());
    let total = extent(scene.element(parent).size, horizontal);
    let own = extent(scene.element(zone).size, horizontal);
    assert(extent_sum(scene, list, true, horizontal, list.len()) == own);
    assert(extent_sum(scene, list, false, horizontal, list.len()) == 0);
    assert((own * FULL_SIZE * (total - 0)) / (total * own) == FULL_SIZE) by (nonlinear_arith)
        requires
            total > 0,
            own > 0,
    {
        assert(own * FULL_SIZE * total == FULL_SIZE * (total * own));
        assert(total * own > 0);
    }
}

} // verus!
