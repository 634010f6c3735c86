//! Submenus: opening on hover, fading out, and closing what hangs under a
//! container that closed, so that of the submenus of one menu at most one
//! is open.
use vstd::prelude::*;
use crate::flux_interaction::FluxInteraction;
use crate::units::Entity;

verus! {

/// Microseconds that an open submenu stays without the pointer.
pub const MENU_CONTAINER_FADE_TIMEOUT: i64 = 1_000_000;

/// Microseconds that the pointer has to rest on a submenu to open it.
pub const MENU_CONTAINER_SWITCH_TIMEOUT: u64 = 300_000;

/// The container of a submenu: whether it is open, and the container or
/// menu that it hangs under.
#[derive(Clone, Copy, Debug, PartialEq, Eq, Structural)]
pub struct SubmenuContainer {
    pub is_open: bool,
    pub external_container: Option<Entity>,
}

/// The fading of a submenu container.
#[derive(Clone, Copy, Debug, PartialEq, Eq, Structural)]
pub struct SubmenuContainerState {
    /// Microseconds until the container closes, unless it is locked.
    pub timeout: i64,
    /// Whether the pointer holds the container open.
    pub is_locked: bool,
}

impl Default for SubmenuContainer {
    fn default() -> (r: Self)
        ensures
            r == (SubmenuContainer { is_open: false, external_container: None }),
    {
        SubmenuContainer { is_open: false, external_container: None }
    }
}

impl Default for SubmenuContainerState {
    fn default() -> (r: Self)
        ensures
            r == (SubmenuContainerState { timeout: 0, is_locked: false }),
    {
        SubmenuContainerState { timeout: 0, is_locked: false }
    }
}

/// A submenu container with its entity and its fading.
#[derive(Clone, Copy, Debug, PartialEq, Eq, Structural)]
pub struct SubmenuEntry {
    pub entity: Entity,
    pub container: SubmenuContainer,
    pub state: SubmenuContainerState,
}

/// Unlocks an open container when the pointer does something to what the
/// container hangs under.
pub fn unlock_submenu_container_on_menu_interaction(
    container: &SubmenuContainer,
    state: &mut SubmenuContainerState,
    external_changed: bool,
)
    ensures
        *final(state) == if container.is_open && old(state).is_locked
            && container.external_container is Some && external_changed {
            SubmenuContainerState { is_locked: false, ..*old(state) }
        } else {
            *old(state)
        },
{
    if !container.is_open || !state.is_locked {
        return ;
    }
    if container.external_container.is_some() && external_changed {
        state.is_locked = false;
    }
}

/// A time less the time that passed, held at the lower end of the range.
pub open spec fn less(timeout: i64, delta: u64) -> i64 {
    if timeout - delta < i64::MIN {
        i64::MIN
    } else {
        (timeout - delta) as i64
    }
}

/// A container and its fading after `delta` microseconds: the pointer on
/// the submenu locks the container and winds the timeout up; an unlocked
/// container runs down, and closes when the timeout has run out.
pub open spec fn faded(
    entry: (SubmenuContainer, SubmenuContainerState),
    flux: FluxInteraction,
    delta: u64,
) -> (SubmenuContainer, SubmenuContainerState) {
    let (container, state) = entry;
    if flux == FluxInteraction::PointerEnter {
        (container, SubmenuContainerState { is_locked: true, timeout: MENU_CONTAINER_FADE_TIMEOUT })
    } else if !state.is_locked && state.timeout > 0 {
        let timeout = less(state.timeout, delta);
        (
            SubmenuContainer { is_open: container.is_open && !(timeout < 0), ..container },
            SubmenuContainerState { timeout, ..state },
        )
    } else {
        entry
    }
}

/// Runs the fading of a submenu container for one frame.
pub fn update_submenu_timeout(
    container: &mut SubmenuContainer,
    state: &mut SubmenuContainerState,
    flux: FluxInteraction,
    delta: u64,
)
    ensures
        (*final(container), *final(state)) == faded((*old(container), *old(state)), flux, delta),
{
    if flux == FluxInteraction::PointerEnter {
        state.is_locked = true;
        state.timeout = MENU_CONTAINER_FADE_TIMEOUT;
    } else if !state.is_locked && state.timeout > 0 {
        let wide: i128 = state.timeout as i128 - delta as i128;
        state.timeout = if wide < i64::MIN as i128 {
            i64::MIN
        } else {
            wide as i64
        };
        if container.is_open && state.timeout < 0 {
            container.is_open = false;
        }
    }
}

/// A submenu under the pointer.
#[derive(Clone, Copy, Debug, PartialEq, Eq, Structural)]
pub struct SubmenuHover {
    /// The place of the container of the submenu in the list of containers.
    pub container: usize,
    pub flux: FluxInteraction,
    /// Microseconds since the signal of the submenu changed.
    pub elapsed: u64,
}

/// Whether the hover opens its container: the pointer has rested on the
/// submenu long enough, and the container is closed.
pub open spec fn opens(entries: Seq<SubmenuEntry>, hover: SubmenuHover) -> bool {
    hover.flux == FluxInteraction::PointerEnter && hover.container < entries.len()
        && !entries[hover.container as int].container.is_open && hover.elapsed
        > MENU_CONTAINER_SWITCH_TIMEOUT
}

/// An entry that was opened by a hover.
pub open spec fn opened_entry(entry: SubmenuEntry) -> SubmenuEntry {
    SubmenuEntry {
        container: SubmenuContainer { is_open: true, ..entry.container },
        state: SubmenuContainerState { is_locked: true, timeout: MENU_CONTAINER_FADE_TIMEOUT },
        ..entry
    }
}

/// The containers after the first `upto` hovers, and the one that was
/// opened last.
pub open spec fn after_hovers(
    entries: Seq<SubmenuEntry>,
    hovers: Seq<SubmenuHover>,
    upto: nat,
) -> (Seq<SubmenuEntry>, Option<usize>)
    decreases upto,
{
    if upto == 0 {
        (entries, None)
    } else {
        let before = after_hovers(entries, hovers, (upto - 1) as nat);
        let hover = hovers[upto - 1];
        if opens(before.0, hover) {
            (
                before.0.update(
                    hover.container as int,
                    opened_entry(before.0[hover.container as int]),
                ),
                Some(hover.container),
            )
        } else {
            before
        }
    }
}

/// Entry `i` once the container at `opened` has been opened: every other
/// open container that hangs under the same parent is closed and unlocked.
pub open spec fn beside_opened(entries: Seq<SubmenuEntry>, opened: usize, i: int) -> SubmenuEntry {
    let entry = entries[i];
    if i != opened && entry.container.is_open && entry.container.external_container
        == entries[opened as int].container.external_container {
        SubmenuEntry {
            container: SubmenuContainer { is_open: false, ..entry.container },
            state: SubmenuContainerState { is_locked: false, ..entry.state },
            ..entry
        }
    } else {
        entry
    }
}

/// The containers after the hovers of a frame.
pub open spec fn hovered(entries: Seq<SubmenuEntry>, hovers: Seq<SubmenuHover>) -> Seq<SubmenuEntry> {
    let opened = after_hovers(entries, hovers, hovers.len());
    match opened.1 {
        Some(at) => Seq::new(opened.0.len(), |i: int| beside_opened(opened.0, at, i)),
        None => opened.0,
    }
}

/// Opens the submenus on which the pointer has rested long enough, and
/// closes the open siblings of the one that was opened last.
pub fn open_submenu_on_hover(hovers: &Vec<SubmenuHover>, entries: &mut Vec<SubmenuEntry>)
    ensures
        final(entries)@ == hovered(old(entries)@, hovers@),
{
    let mut opened: Option<usize> = None;
    let mut k: usize = 0;
    while k < hovers.len()
        invariant
            k <= hovers.len(),
            entries@.len() == old(entries)@.len(),
            (entries@, opened) == after_hovers(old(entries)@, hovers@, k as nat),
            opened matches Some(at) ==> at < entries@.len(),
        decreases hovers.len() - k,
    {
        let hover = hovers[k];
        if hover.flux == FluxInteraction::PointerEnter && hover.container < entries.len() {
            let entry = entries[hover.container];
            if !entry.container.is_open && hover.elapsed > MENU_CONTAINER_SWITCH_TIMEOUT {
                entries.set(
                    hover.container,
                    SubmenuEntry {
                        entity: entry.entity,
                        container: SubmenuContainer {
                            is_open: true,
                            external_container: entry.container.external_container,
                        },
                        state: SubmenuContainerState {
                            is_locked: true,
                            timeout: MENU_CONTAINER_FADE_TIMEOUT,
                        },
                    },
                );
                opened = Some(hover.container);
            }
        }
        k += 1;
    }
    if let Some(at) = opened {
        let ghost before = entries@;
        let external = entries[at].container.external_container;
        let mut i: usize = 0;
        while i < entries.len()
            invariant
                i <= entries.len(),
                at < entries@.len(),
                entries@.len() == before.len(),
                external == before[at as int].container.external_container,
                forall|j: int| 0 <= j < i ==> entries@[j] == beside_opened(before, at, j),
                forall|j: int| i <= j < entries@.len() ==> entries@[j] == before[j],
            decreases entries.len() - i,
        {
            let entry = entries[i];
            if i != at && entry.container.is_open && entry.container.external_container == external {
                entries.set(
                    i,
                    SubmenuEntry {
                        entity: entry.entity,
                        container: SubmenuContainer {
                            is_open: false,
                            external_container: entry.container.external_container,
                        },
                        state: SubmenuContainerState {
                            is_locked: false,
                            timeout: entry.state.timeout,
                        },
                    },
                );
            }
            i += 1;
        }
        assert(entries@ =~= hovered(old(entries)@, hovers@));
    }
}

/// A container that is closed, unlocked and run down.
pub open spec fn shut(entry: SubmenuEntry) -> SubmenuEntry {
    SubmenuEntry {
        container: SubmenuContainer { is_open: false, ..entry.container },
        state: SubmenuContainerState { is_locked: false, timeout: 0 },
        ..entry
    }
}

/// Closes every submenu when a menu changed.
pub fn close_submenus_on_menu_change(any_menu_changed: bool, entries: &mut Vec<SubmenuEntry>)
    ensures
        final(entries)@.len() == old(entries)@.len(),
        forall|i: int|
            0 <= i < old(entries)@.len() ==> #[trigger] final(entries)@[i] == if any_menu_changed {
                shut(old(entries)@[i])
            } else {
                old(entries)@[i]
            },
{
    if !any_menu_changed {
        return ;
    }
    let mut i: usize = 0;
    while i < entries.len()
        invariant
            i <= entries.len(),
            entries@.len() == old(entries)@.len(),
            forall|j: int| 0 <= j < i ==> #[trigger] entries@[j] == shut(old(entries)@[j]),
            forall|j: int| i <= j < entries@.len() ==> entries@[j] == old(entries)@[j],
        decreases entries.len() - i,
    {
        let entry = entries[i];
        entries.set(
            i,
            SubmenuEntry {
                entity: entry.entity,
                container: SubmenuContainer {
                    is_open: false,
                    external_container: entry.container.external_container,
                },
                state: SubmenuContainerState { is_locked: false, timeout: 0 },
            },
        );
        i += 1;
    }
}

/// The container that opened last among the containers that were written:
/// the last of the first `upto` that is open and written.
pub open spec fn last_opened(entries: Seq<SubmenuEntry>, changed: Seq<bool>, upto: nat) -> Option<usize>
    decreases upto,
{
    if upto == 0 {
        None
    } else if upto - 1 < changed.len() && changed[upto - 1] && entries[upto - 1].container.is_open {
        Some((upto - 1) as usize)
    } else {
        last_opened(entries, changed, (upto - 1) as nat)
    }
}

/// Whether container `i` is a seed of the closing: it was written and is
/// closed, or it is an open sibling of the container that opened last.
pub open spec fn is_seed(entries: Seq<SubmenuEntry>, changed: Seq<bool>, i: int) -> bool {
    let container = entries[i].container;
    ||| i < changed.len() && changed[i] && !container.is_open
    ||| (last_opened(entries, changed, entries.len()) matches Some(open) && i != open
        && container.is_open && container.external_container
        == entries[open as int].container.external_container)
}

/// Whether the entity `e` is the entity of a seed.
pub open spec fn names_seed(entries: Seq<SubmenuEntry>, changed: Seq<bool>, e: Entity) -> bool {
    exists|d: int| 0 <= d < entries.len() && #[trigger] entries[d].entity == e && is_seed(entries, changed, d)
}

/// Whether container `c` hangs, over at most `fuel` links of open
/// containers, under a seed.
pub open spec fn hangs_under_seed(
    entries: Seq<SubmenuEntry>,
    changed: Seq<bool>,
    c: int,
    fuel: nat,
) -> bool
    decreases fuel,
{
    if fuel == 0 || !entries[c].container.is_open || is_seed(entries, changed, c) {
        false
    } else {
        match entries[c].container.external_container {
            None => false,
            Some(e) => names_seed(entries, changed, e) || exists|d: int|
                0 <= d < entries.len() && #[trigger] entries[d].entity == e && hangs_under_seed(
                    entries,
                    changed,
                    d,
                    (fuel - 1) as nat,
                ),
        }
    }
}

/// Whether container `i` is open after the pass: it was open, is no seed,
/// and hangs under no seed.
pub open spec fn stays_open(entries: Seq<SubmenuEntry>, changed: Seq<bool>, i: int) -> bool {
    entries[i].container.is_open && !is_seed(entries, changed, i) && !hangs_under_seed(
        entries,
        changed,
        i,
        entries.len(),
    )
}

fn find_last_opened(entries: &Vec<SubmenuEntry>, changed: &Vec<bool>) -> (r: Option<usize>)
    ensures
        r == last_opened(entries@, changed@, entries@.len()),
        r matches Some(at) ==> at < entries@.len(),
{
    let mut found: Option<usize> = None;
    let mut i: usize = 0;
    while i < entries.len()
        invariant
            i <= entries.len(),
            found == last_opened(entries@, changed@, i as nat),
            found matches Some(at) ==> at < i,
        decreases entries.len() - i,
    {
        if i < changed.len() && changed[i] && entries[i].container.is_open {
            found = Some(i);
        }
        i += 1;
    }
    found
}

fn seed(entries: &Vec<SubmenuEntry>, changed: &Vec<bool>, opened: Option<usize>, i: usize) -> (r: bool)
    requires
        i < entries@.len(),
        opened == last_opened(entries@, changed@, entries@.len()),
        opened matches Some(at) ==> at < entries@.len(),
    ensures
        r == is_seed(entries@, changed@, i as int),
{
    let container = entries[i].container;
    if i < changed.len() && changed[i] && !container.is_open {
        return true;
    }
    match opened {
        Some(open) => i != open && container.is_open && container.external_container
            == entries[open].container.external_container,
        None => false,
    }
}

fn hangs(
    entries: &Vec<SubmenuEntry>,
    changed: &Vec<bool>,
    opened: Option<usize>,
    c: usize,
    fuel: usize,
) -> (r: bool)
    requires
        c < entries@.len(),
        opened == last_opened(entries@, changed@, entries@.len()),
        opened matches Some(at) ==> at < entries@.len(),
    ensures
        r == hangs_under_seed(entries@, changed@, c as int, fuel as nat),
    decreases fuel,
{
    if fuel == 0 || !entries[c].container.is_open || seed(entries, changed, opened, c) {
        return false;
    }
    let Some(e) = entries[c].container.external_container else {
        return false;
    };
    let mut d: usize = 0;
    while d < entries.len()
        invariant
            d <= entries.len(),
            c < entries@.len(),
            fuel > 0,
            entries@[c as int].container.is_open,
            !is_seed(entries@, changed@, c as int),
            entries@[c as int].container.external_container == Some(e),
            opened == last_opened(entries@, changed@, entries@.len()),
            opened matches Some(at) ==> at < entries@.len(),
            forall|j: int|
                0 <= j < d && #[trigger] entries@[j].entity == e ==> !is_seed(entries@, changed@, j)
                    && !hangs_under_seed(entries@, changed@, j, (fuel - 1) as nat),
        decreases entries.len() - d,
    {
        if entries[d].entity == e {
            if seed(entries, changed, opened, d) {
                assert(entries@[d as int].entity == e && is_seed(entries@, changed@, d as int));
                assert(names_seed(entries@, changed@, e));
                return true;
            }
            if hangs(entries, changed, opened, d, fuel - 1) {
                assert(entries@[d as int].entity == e && hangs_under_seed(
                    entries@,
                    changed@,
                    d as int,
                    (fuel - 1) as nat,
                ));
                return true;
            }
        }
        d += 1;
    }
    false
}

/// Closes what has to close after submenu containers were opened or closed:
/// the open siblings of the container that opened last, and every open
/// container that hangs, directly or over other open containers, under a
/// container that closed. `changed` says for each container whether it was
/// written in this frame. The result says for each container whether it
/// was closed by this pass.
pub fn update_open_submenu_containers(entries: &mut Vec<SubmenuEntry>, changed: &Vec<bool>) -> (closed:
    Vec<bool>)
    ensures
        final(entries)@.len() == old(entries)@.len(),
        closed@.len() == old(entries)@.len(),
        forall|i: int|
            0 <= i < old(entries)@.len() ==> #[trigger] final(entries)@[i] == (SubmenuEntry {
                container: SubmenuContainer {
                    is_open: stays_open(old(entries)@, changed@, i),
                    ..old(entries)@[i].container
                },
                ..old(entries)@[i]
            }),
        forall|i: int|
            0 <= i < old(entries)@.len() ==> #[trigger] closed@[i] == (old(
                entries,
            )@[i].container.is_open && !stays_open(old(entries)@, changed@, i)),
{
    let n = entries.len();
    let opened = find_last_opened(entries, changed);
    let mut keep: Vec<bool> = Vec::new();
    let mut i: usize = 0;
    while i < n
        invariant
            n == entries@.len(),
            entries@ == old(entries)@,
            i <= n,
            keep@.len() == i,
            opened == last_opened(entries@, changed@, entries@.len()),
            opened matches Some(at) ==> at < entries@.len(),
            forall|j: int| 0 <= j < i ==> keep@[j] == stays_open(entries@, changed@, j),
        decreases n - i,
    {
        let open = entries[i].container.is_open && !seed(entries, changed, opened, i) && !hangs(
            entries,
            changed,
            opened,
            i,
            n,
        );
        keep.push(open);
        i += 1;
    }
    let mut closed: Vec<bool> = Vec::new();
    let mut k: usize = 0;
    while k < n
        invariant
            n == entries@.len(),
            n == old(entries)@.len(),
            k <= n,
            keep@.len() == n,
            closed@.len() == k,
            forall|j: int| 0 <= j < n ==> keep@[j] == stays_open(old(entries)@, changed@, j),
            forall|j: int|
                0 <= j < k ==> #[trigger] entries@[j] == (SubmenuEntry {
                    container: SubmenuContainer {
                        is_open: stays_open(old(entries)@, changed@, j),
                        ..old(entries)@[j].container
                    },
                    ..old(entries)@[j]
                }),
            forall|j: int|
                0 <= j < k ==> #[trigger] closed@[j] == (old(entries)@[j].container.is_open
                    && !stays_open(old(entries)@, changed@, j)),
            forall|j: int| k <= j < n ==> entries@[j] == old(entries)@[j],
        decreases n - k,
    {
        let entry = entries[k];
        closed.push(entry.container.is_open && !keep[k]);
        entries.set(
            k,
            SubmenuEntry {
                entity: entry.entity,
                container: SubmenuContainer {
                    is_open: keep[k],
                    external_container: entry.container.external_container,
                },
                state: entry.state,
            },
        );
        k += 1;
    }
    closed
}

/// Of the submenus of one parent at most one is open after the pass: beside
/// the container that opened last, no container under the same parent
/// stays open.
pub proof fn lemma_one_open_submenu(entries: Seq<SubmenuEntry>, changed: Seq<bool>, other: int)
    requires
        last_opened(entries, changed, entries.len()) is Some,
        0 <= other < entries.len(),
        other != last_opened(entries, changed, entries.len()).unwrap(),
        entries[other].container.external_container == entries[last_opened(
            entries,
            changed,
            entries.len(),
        ).unwrap() as int].container.external_container,
    ensures
        !stays_open(entries, changed, other),
{
}

} // verus!
