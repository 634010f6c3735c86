//! Tab containers: the count and the active tab, and the reordering of
//! tabs by dragging.
use vstd::prelude::*;
use crate::units::{clamp_i64, narrow, Entity};

verus! {

/// A container that shows one of its tabs at a time.
#[derive(Clone, Copy, Debug, PartialEq, Eq, Structural)]
pub struct TabContainer {
    pub own_id: Entity,
    pub active: usize,
    pub bar: Entity,
    pub viewport: Entity,
    pub tab_count: usize,
}

impl Default for TabContainer {
    fn default() -> (r: Self)
        ensures
            r == (TabContainer {
                own_id: Entity(u64::MAX),
                active: 0,
                bar: Entity(u64::MAX),
                viewport: Entity(u64::MAX),
                tab_count: 0,
            }),
    {
        TabContainer {
            own_id: Entity::placeholder(),
            active: 0,
            bar: Entity::placeholder(),
            viewport: Entity::placeholder(),
            tab_count: 0,
        }
    }
}

/// One tab of a tab container.
#[derive(Clone, Copy, Debug, PartialEq, Eq, Structural)]
pub struct Tab {
    pub container: Entity,
    pub bar: Entity,
    pub panel: Entity,
    /// The element that keeps the place of the tab while it is dragged.
    pub placeholder: Option<Entity>,
    /// The place of the tab when its drag began.
    pub original_index: Option<usize>,
}

impl Default for Tab {
    fn default() -> (r: Self)
        ensures
            r == (Tab {
                container: Entity(u64::MAX),
                bar: Entity(u64::MAX),
                panel: Entity(u64::MAX),
                placeholder: None,
                original_index: None,
            }),
    {
        Tab {
            container: Entity::placeholder(),
            bar: Entity::placeholder(),
            panel: Entity::placeholder(),
            placeholder: None,
            original_index: None,
        }
    }
}

/// The count of tabs after one more tab, held at the upper end of the range.
pub open spec fn one_more(count: usize) -> usize {
    if count == usize::MAX {
        count
    } else {
        (count + 1) as usize
    }
}

/// The count of tabs after one tab less, held at zero.
pub open spec fn one_less(count: usize) -> usize {
    if count > 1 {
        (count - 1) as usize
    } else {
        0
    }
}

impl TabContainer {
    pub fn bar_id(&self) -> (r: Entity)
        ensures
            r == self.bar,
    {
        self.bar
    }

    pub fn tab_count(&self) -> (r: usize)
        ensures
            r == self.tab_count,
    {
        self.tab_count
    }

    pub fn set_active(&mut self, active: usize)
        ensures
            *final(self) == (TabContainer { active, ..*old(self) }),
    {
        self.active = active;
    }

    /// Counts a tab that was added.
    pub fn increment_tab_count(&mut self)
        ensures
            *final(self) == (TabContainer { tab_count: one_more(old(self).tab_count), ..*old(self) }),
    {
        if self.tab_count < usize::MAX {
            self.tab_count = self.tab_count + 1;
        }
    }

    /// Counts a panel that was docked as a tab: the new tab is the last one
    /// and becomes the active one.
    pub fn dock_panel(&mut self)
        ensures
            *final(self) == (TabContainer {
                tab_count: one_more(old(self).tab_count),
                active: (one_more(old(self).tab_count) - 1) as usize,
                ..*old(self)
            }),
    {
        if self.tab_count < usize::MAX {
            self.tab_count = self.tab_count + 1;
        }
        self.active = self.tab_count - 1;
    }

    /// Counts a tab that was popped out: the count goes down, and an active
    /// index beyond the last tab falls back to the last tab.
    pub fn popout_tab(&mut self)
        ensures
            *final(self) == (TabContainer {
                tab_count: one_less(old(self).tab_count),
                active: if old(self).active >= one_less(old(self).tab_count) {
                    one_less(one_less(old(self).tab_count))
                } else {
                    old(self).active
                },
                ..*old(self)
            }),
    {
        self.tab_count = if self.tab_count > 1 {
            self.tab_count - 1
        } else {
            0
        };
        if self.active >= self.tab_count {
            self.active = if self.tab_count > 0 {
                self.tab_count - 1
            } else {
                0
            };
        }
    }

    /// Counts a tab that was closed.
    pub fn close_tab(&mut self)
        ensures
            *final(self) == (TabContainer { tab_count: one_less(old(self).tab_count), ..*old(self) }),
    {
        self.tab_count = if self.tab_count > 1 {
            self.tab_count - 1
        } else {
            0
        };
    }
}

/// A child of a tab bar, as the tab passes see it.
#[derive(Clone, Copy, Debug, PartialEq, Eq, Structural)]
pub struct TabBarChild {
    pub entity: Entity,
    pub is_tab: bool,
    /// The horizontal centre of the child on screen, where it is laid out
    /// and takes part in interaction.
    pub center_x: Option<i64>,
    /// Whether the pointer is over the child.
    pub hovered: bool,
}

/// The place of the tab `tab` among the first `upto` children of its bar,
/// counting every child; the last place where it is listed more than once.
pub open spec fn place_of_tab(children: Seq<TabBarChild>, tab: Entity, upto: nat) -> Option<usize>
    decreases upto,
{
    if upto == 0 {
        None
    } else if children[upto - 1].is_tab && children[upto - 1].entity == tab {
        Some((upto - 1) as usize)
    } else {
        place_of_tab(children, tab, (upto - 1) as nat)
    }
}

/// Makes the pressed tab the active one: the active index becomes the place
/// of the tab among the children of the bar. A press on what is no tab of
/// the bar changes nothing.
pub fn update_tab_container_on_tab_press(
    container: &mut TabContainer,
    children: &Vec<TabBarChild>,
    pressed: Entity,
)
    ensures
        *final(container) == (TabContainer {
            active: match place_of_tab(children@, pressed, children@.len()) {
                Some(i) => i,
                None => old(container).active,
            },
            ..*old(container)
        }),
{
    let mut i: usize = 0;
    while i < children.len()
        invariant
            i <= children.len(),
            *container == (TabContainer {
                active: match place_of_tab(children@, pressed, i as nat) {
                    Some(k) => k,
                    None => old(container).active,
                },
                ..*old(container)
            }),
        decreases children.len() - i,
    {
        if children[i].is_tab && children[i].entity == pressed {
            container.active = i;
        }
        i += 1;
    }
}

/// The number of tabs among the first `upto` children.
pub open spec fn tabs_among(children: Seq<TabBarChild>, upto: nat) -> nat
    decreases upto,
{
    if upto == 0 {
        0
    } else {
        tabs_among(children, (upto - 1) as nat) + if children[upto - 1].is_tab {
            1nat
        } else {
            0nat
        }
    }
}

/// How a tab shows.
#[derive(Clone, Copy, Debug, PartialEq, Eq, Structural)]
pub struct TabState {
    pub entity: Entity,
    /// Whether the tab reacts to the pointer: only beside another tab.
    pub flux_enabled: bool,
    /// Whether the tab is the active one, whose panel shows.
    pub active: bool,
}

/// The tabs among the first `upto` children, each with how it shows.
pub open spec fn tab_states(children: Seq<TabBarChild>, active: usize, upto: nat) -> Seq<TabState>
    decreases upto,
{
    if upto == 0 {
        Seq::empty()
    } else {
        let before = tab_states(children, active, (upto - 1) as nat);
        if children[upto - 1].is_tab {
            before.push(
                TabState {
                    entity: children[upto - 1].entity,
                    flux_enabled: tabs_among(children, children.len()) > 1,
                    active: upto - 1 == active,
                },
            )
        } else {
            before
        }
    }
}

fn count_tabs(children: &Vec<TabBarChild>) -> (r: usize)
    ensures
        r == tabs_among(children@, children@.len()),
{
    let mut count: usize = 0;
    let mut i: usize = 0;
    while i < children.len()
        invariant
            i <= children.len(),
            count <= i,
            count == tabs_among(children@, i as nat),
        decreases children.len() - i,
    {
        if children[i].is_tab {
            count += 1;
        }
        i += 1;
    }
    count
}

/// How the tabs of a container show after the container changed: the tab at
/// the active place is highlighted and its panel shows, the others are
/// plain and their panels hidden; a lone tab does not react to the pointer.
pub fn update_tab_container_on_change(container: &TabContainer, children: &Vec<TabBarChild>) -> (r:
    Vec<TabState>)
    ensures
        r@ == tab_states(children@, container.active, children@.len()),
{
    let flux_enabled = count_tabs(children) > 1;
    let mut states: Vec<TabState> = Vec::new();
    let mut i: usize = 0;
    while i < children.len()
        invariant
            i <= children.len(),
            flux_enabled == (tabs_among(children@, children@.len()) > 1),
            states@ == tab_states(children@, container.active, i as nat),
        decreases children.len() - i,
    {
        if children[i].is_tab {
            states.push(
                TabState { entity: children[i].entity, flux_enabled, active: i == container.active },
            );
        }
        i += 1;
    }
    states
}

/// The place of the tab `tab` among the tabs of the first `upto` children,
/// counting tabs only.
pub open spec fn rank_of_tab(children: Seq<TabBarChild>, tab: Entity, upto: nat) -> Option<nat>
    decreases upto,
{
    if upto == 0 {
        None
    } else {
        match rank_of_tab(children, tab, (upto - 1) as nat) {
            Some(r) => Some(r),
            None => if children[upto - 1].is_tab && children[upto - 1].entity == tab {
                Some(tabs_among(children, (upto - 1) as nat))
            } else {
                None
            },
        }
    }
}

/// Where the drag of a tab begins: the place of the tab among the tabs of
/// its bar, at which its placeholder goes. `None` for a bar with fewer
/// than two tabs, whose tabs are not dragged, and for a tab that is not in
/// the bar.
pub fn tab_drag_start_index(children: &Vec<TabBarChild>, tab: Entity) -> (r: Option<usize>)
    ensures
        r == if tabs_among(children@, children@.len()) < 2 {
            None
        } else {
            match rank_of_tab(children@, tab, children@.len()) {
                Some(rank) => Some(rank as usize),
                None => None,
            }
        },
{
    if count_tabs(children) < 2 {
        return None;
    }
    let mut tabs: usize = 0;
    let mut i: usize = 0;
    while i < children.len()
        invariant
            i <= children.len(),
            tabs <= i,
            tabs == tabs_among(children@, i as nat),
            tabs_among(children@, children@.len()) >= 2,
            rank_of_tab(children@, tab, i as nat) is None,
        decreases children.len() - i,
    {
        if children[i].is_tab {
            if children[i].entity == tab {
                assert(rank_of_tab(children@, tab, (i + 1) as nat) == Some(tabs as nat));
                proof {
                    lemma_rank_is_stable(children@, tab, (i + 1) as nat, children@.len());
                }
                return Some(tabs);
            }
            tabs += 1;
        }
        i += 1;
    }
    None
}

/// A rank that was found stays as more children are looked at.
proof fn lemma_rank_is_stable(children: Seq<TabBarChild>, tab: Entity, found: nat, upto: nat)
    requires
        found <= upto,
        rank_of_tab(children, tab, found) is Some,
    ensures
        rank_of_tab(children, tab, upto) == rank_of_tab(children, tab, found),
    decreases upto,
{
    if upto > found {
        lemma_rank_is_stable(children, tab, found, (upto - 1) as nat);
    }
}

/// The left edge of an element of width `width` whose centre, measured from
/// the centre of its bar, is at `center`, in a bar of width `bar_width`:
/// measured from the left edge of the bar. Halves are rounded down.
pub open spec fn left_in_bar(center: i64, width: i64, bar_width: i64) -> int {
    clamp_i64(center - width / 2 + bar_width / 2)
}

/// Computes the left edge of a dragged tab within its bar.
pub fn tab_left(center: i64, width: i64, bar_width: i64) -> (r: i64)
    ensures
        r == left_in_bar(center, width, bar_width),
{
    let half_width: i128 = crate::units::floor_div(width as i128, 2);
    let half_bar: i128 = crate::units::floor_div(bar_width as i128, 2);
    narrow(center as i128 - half_width + half_bar)
}

/// What the scan for the place of the placeholder has seen so far: the
/// place of the placeholder where it was passed, and the place to move it
/// to once a hovered child was found.
pub open spec fn scan(
    children: Seq<TabBarChild>,
    dragged: Entity,
    placeholder: Entity,
    pointer_x: i64,
    upto: nat,
) -> (usize, Option<usize>)
    decreases upto,
{
    if upto == 0 {
        (children.len() as usize, None)
    } else {
        let before = scan(children, dragged, placeholder, pointer_x, (upto - 1) as nat);
        let i = (upto - 1) as usize;
        let child = children[i as int];
        if before.1 is Some || child.entity == dragged {
            before
        } else if child.entity == placeholder {
            (i, None)
        } else if child.center_x is Some && child.hovered {
            if pointer_x < child.center_x.unwrap() {
                (
                    before.0,
                    Some(
                        if i < before.0 {
                            i
                        } else {
                            (i - 1) as usize
                        },
                    ),
                )
            } else {
                (
                    before.0,
                    Some(
                        if i + 1 < before.0 {
                            (i + 1) as usize
                        } else {
                            i
                        },
                    ),
                )
            }
        } else {
            before
        }
    }
}

/// Where the placeholder of a dragged tab goes while the pointer is at
/// `pointer_x`: to the side of the first hovered child on which the pointer
/// is, counted as the place it has once the placeholder is taken out from
/// where it stands. `None` while the pointer is over no child.
pub fn tab_placeholder_index(
    children: &Vec<TabBarChild>,
    dragged: Entity,
    placeholder: Entity,
    pointer_x: i64,
) -> (r: Option<usize>)
    ensures
        r == scan(children@, dragged, placeholder, pointer_x, children@.len()).1,
{
    let mut new_index: Option<usize> = None;
    let mut placeholder_index: usize = children.len();
    let mut i: usize = 0;
    while i < children.len()
        invariant
            i <= children.len(),
            (placeholder_index, new_index) == scan(
                children@,
                dragged,
                placeholder,
                pointer_x,
                i as nat,
            ),
            new_index is None,
            placeholder_index <= children.len(),
            placeholder_index < children.len() ==> placeholder_index < i,
        decreases children.len() - i,
    {
        let child = children[i];
        if child.entity == dragged {
        } else if child.entity == placeholder {
            placeholder_index = i;
        } else if let Some(center) = child.center_x {
            if child.hovered {
                let found = if pointer_x < center {
                    if i < placeholder_index {
                        i
                    } else {
                        i - 1
                    }
                } else {
                    if i + 1 < placeholder_index {
                        i + 1
                    } else {
                        i
                    }
                };
                proof {
                    lemma_scan_is_stable(
                        children@,
                        dragged,
                        placeholder,
                        pointer_x,
                        (i + 1) as nat,
                        children@.len(),
                    );
                }
                return Some(found);
            }
        }
        i += 1;
    }
    new_index
}

/// Once the scan has found a place it keeps it.
proof fn lemma_scan_is_stable(
    children: Seq<TabBarChild>,
    dragged: Entity,
    placeholder: Entity,
    pointer_x: i64,
    found: nat,
    upto: nat,
)
    requires
        found <= upto,
        scan(children, dragged, placeholder, pointer_x, found).1 is Some,
    ensures
        scan(children, dragged, placeholder, pointer_x, upto) == scan(
            children,
            dragged,
            placeholder,
            pointer_x,
            found,
        ),
    decreases upto,
{
    if upto > found {
        lemma_scan_is_stable(children, dragged, placeholder, pointer_x, found, (upto - 1) as nat);
    }
}

} // verus!
