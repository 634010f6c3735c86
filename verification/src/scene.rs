//! The scene as the layout core sees it: the hierarchy of elements and what
//! each element carries.
use vstd::prelude::*;
use crate::hierarchy::Hierarchy;
use crate::sized_zone::SizedZone;
use crate::style::{FlexDirection, PositionType};
use crate::units::{Entity, Vec2};

verus! {

/// The part of the style of an element that the layout core reads.
#[derive(Clone, Copy, Debug, PartialEq, Eq, Structural)]
pub struct NodeStyle {
    pub flex_direction: FlexDirection,
    pub position_type: PositionType,
}

/// What makes a sized zone a docking zone: its tab container and the
/// overlay that highlights where a drop would land.
#[derive(Clone, Copy, Debug, PartialEq, Eq, Structural)]
pub struct DockingZone {
    pub tab_container: Entity,
    pub zone_highlight: Entity,
}

impl Default for DockingZone {
    fn default() -> (r: Self)
        ensures
            r == (DockingZone { tab_container: Entity(u64::MAX), zone_highlight: Entity(u64::MAX) }),
    {
        DockingZone { tab_container: Entity::placeholder(), zone_highlight: Entity::placeholder() }
    }
}

/// What one element carries.
#[derive(Clone, Copy, Debug, PartialEq, Eq, Structural)]
pub struct Element {
    /// The style of the element, where it has one.
    pub style: Option<NodeStyle>,
    /// The extent that the layout engine measured; zero before the first layout.
    pub size: Vec2,
    pub sized_zone: Option<SizedZone>,
    pub docking_zone: Option<DockingZone>,
    /// Whether the element is a sized zone that exists to hold the two sides
    /// of a split.
    pub split_container: bool,
    /// Whether the element holds the resize handles of a zone.
    pub resize_handle_container: bool,
}

impl Element {
    /// An element with a style and nothing else.
    pub open spec fn plain_spec(style: NodeStyle) -> Element {
        Element {
            style: Some(style),
            size: Vec2 { x: 0, y: 0 },
            sized_zone: None,
            docking_zone: None,
            split_container: false,
            resize_handle_container: false,
        }
    }

    /// An element with a style and nothing else.
    pub fn plain(style: NodeStyle) -> (r: Element)
        ensures
            r == Element::plain_spec(style),
    {
        Element {
            style: Some(style),
            size: Vec2 { x: 0, y: 0 },
            sized_zone: None,
            docking_zone: None,
            split_container: false,
            resize_handle_container: false,
        }
    }

    /// Whether the element takes part in the flow of its siblings without
    /// being a zone.
    pub open spec fn is_flow_filler(self) -> bool {
        self.sized_zone is None && self.style is Some && self.style.unwrap().position_type
            == PositionType::Relative
    }
}

/// The elements of a scene, their links and what they carry. An element is
/// named by its index.
pub struct Scene {
    pub hierarchy: Hierarchy,
    pub elements: Vec<Element>,
}

impl Scene {
    /// The number of elements.
    pub open spec fn len(&self) -> nat {
        self.elements@.len()
    }

    /// The links are consistent, and every element has its data.
    pub open spec fn wf(&self) -> bool {
        &&& self.hierarchy.wf()
        &&& self.hierarchy.len() == self.elements@.len()
    }

    pub open spec fn element(&self, i: usize) -> Element {
        self.elements@[i as int]
    }

    /// Whether element `i` is a sized zone.
    pub open spec fn is_zone(&self, i: usize) -> bool {
        self.elements@[i as int].sized_zone is Some
    }

    /// The sized zone of element `i`.
    pub open spec fn zone(&self, i: usize) -> SizedZone {
        self.elements@[i as int].sized_zone.unwrap()
    }

    /// A scene without elements.
    pub fn new() -> (s: Scene)
        ensures
            s.wf(),
            s.len() == 0,
    {
        Scene { hierarchy: Hierarchy::new(), elements: Vec::new() }
    }

    /// The number of elements.
    pub fn count(&self) -> (n: usize)
        ensures
            n == self.len(),
    {
        self.elements.len()
    }

    /// Adds `element` as the last child of `parent`, or as a root, and
    /// returns its index.
    pub fn spawn(&mut self, parent: Option<usize>, element: Element) -> (id: usize)
        requires
            old(self).wf(),
            parent matches Some(p) ==> p < old(self).len(),
        ensures
            final(self).wf(),
            id == old(self).len(),
            final(self).len() == old(self).len() + 1,
            final(self).elements@ == old(self).elements@.push(element),
            final(self).hierarchy.parent_of(id) == parent,
            final(self).hierarchy.children_of(id) == Seq::<usize>::empty(),
            forall|i: usize|
                i < old(self).len() ==> final(self).hierarchy.parent_of(i) == old(
                    self,
                ).hierarchy.parent_of(i),
            forall|i: usize|
                i < old(self).len() ==> #[trigger] final(self).hierarchy.children_of(i) == if parent
                    == Some(i) {
                    old(self).hierarchy.children_of(i).push(id)
                } else {
                    old(self).hierarchy.children_of(i)
                },
    {
        let id = self.hierarchy.spawn();
        self.elements.push(element);
        if let Some(p) = parent {
            let ghost list = self.hierarchy.children_of(p);
            self.hierarchy.add_child(p, id);
            proof {
                assert(!list.contains(id)) by {
                    if list.contains(id) {
                        let w = choose|w: int| 0 <= w < list.len() && list[w] == id;
                        assert(old(self).hierarchy.links(p, old(self).hierarchy.children_of(p)[w]));
                    }
                }
            }
        }
        id
    }

    /// What element `i` carries.
    pub fn get(&self, i: usize) -> (r: Element)
        requires
            i < self.len(),
        ensures
            r == self.element(i),
    {
        self.elements[i]
    }

    /// Replaces what element `i` carries.
    pub fn set(&mut self, i: usize, element: Element)
        requires
            old(self).wf(),
            i < old(self).len(),
        ensures
            final(self).wf(),
            final(self).hierarchy == old(self).hierarchy,
            final(self).elements@ == old(self).elements@.update(i as int, element),
    {
        self.elements.set(i, element);
    }
}

} // verus!
