use sickle_ui::flux_interaction::FluxInteraction;
use sickle_ui::submenu::{
    close_submenus_on_menu_change, open_submenu_on_hover, unlock_submenu_container_on_menu_interaction,
    update_open_submenu_containers, update_submenu_timeout, SubmenuContainer, SubmenuContainerState,
    SubmenuEntry, SubmenuHover, MENU_CONTAINER_FADE_TIMEOUT, MENU_CONTAINER_SWITCH_TIMEOUT,
};
use sickle_ui::units::Entity;

fn entry(id: u64, open: bool, under: Option<u64>) -> SubmenuEntry {
    SubmenuEntry {
        entity: Entity(id),
        container: SubmenuContainer { is_open: open, external_container: under.map(Entity) },
        state: SubmenuContainerState { timeout: 5, is_locked: open },
    }
}

fn open_flags(entries: &Vec<SubmenuEntry>) -> Vec<bool> {
    entries.iter().map(|e| e.container.is_open).collect()
}

fn hover(container: usize, elapsed: u64) -> SubmenuHover {
    SubmenuHover { container, flux: FluxInteraction::PointerEnter, elapsed }
}

#[test]
fn submenu_constants() {
    assert_eq!(MENU_CONTAINER_FADE_TIMEOUT, 1_000_000);
    assert_eq!(MENU_CONTAINER_SWITCH_TIMEOUT, 300_000);
    assert_eq!(SubmenuContainer::default(), SubmenuContainer { is_open: false, external_container: None });
    assert_eq!(SubmenuContainerState::default(), SubmenuContainerState { timeout: 0, is_locked: false });
}

#[test]
fn interaction_with_the_parent_unlocks() {
    let container = SubmenuContainer { is_open: true, external_container: Some(Entity(1)) };
    let mut state = SubmenuContainerState { timeout: 9, is_locked: true };
    unlock_submenu_container_on_menu_interaction(&container, &mut state, false);
    assert!(state.is_locked);
    unlock_submenu_container_on_menu_interaction(&container, &mut state, true);
    assert!(!state.is_locked);
    let rootless = SubmenuContainer { is_open: true, external_container: None };
    let mut locked = SubmenuContainerState { timeout: 9, is_locked: true };
    unlock_submenu_container_on_menu_interaction(&rootless, &mut locked, true);
    assert!(locked.is_locked);
    let closed = SubmenuContainer { is_open: false, external_container: Some(Entity(1)) };
    unlock_submenu_container_on_menu_interaction(&closed, &mut locked, true);
    assert!(locked.is_locked);
}

#[test]
fn unlocked_container_fades_out() {
    let mut container = SubmenuContainer { is_open: true, external_container: None };
    let mut state = SubmenuContainerState::default();
    update_submenu_timeout(&mut container, &mut state, FluxInteraction::PointerEnter, 16_000);
    assert_eq!(state, SubmenuContainerState { timeout: 1_000_000, is_locked: true });
    update_submenu_timeout(&mut container, &mut state, FluxInteraction::PointerLeave, 16_000);
    assert_eq!(state.timeout, 1_000_000);
    state.is_locked = false;
    update_submenu_timeout(&mut container, &mut state, FluxInteraction::PointerLeave, 600_000);
    assert_eq!(state.timeout, 400_000);
    assert!(container.is_open);
    update_submenu_timeout(&mut container, &mut state, FluxInteraction::PointerLeave, 400_000);
    assert_eq!(state.timeout, 0);
    assert!(container.is_open);
    update_submenu_timeout(&mut container, &mut state, FluxInteraction::PointerLeave, 400_000);
    assert!(container.is_open);
    state.timeout = 1;
    update_submenu_timeout(&mut container, &mut state, FluxInteraction::Idle, u64::MAX);
    assert_eq!(state.timeout, i64::MIN);
    assert!(!container.is_open);
}

#[test]
fn resting_pointer_opens_and_closes_siblings() {
    let mut entries = vec![
        entry(10, true, Some(1)),
        entry(11, false, Some(1)),
        entry(12, true, Some(2)),
        entry(13, false, None),
    ];
    open_submenu_on_hover(&vec![hover(1, 300_000)], &mut entries);
    assert_eq!(open_flags(&entries), vec![true, false, true, false]);
    open_submenu_on_hover(&vec![hover(1, 300_001), hover(9, 999_999), hover(0, 999_999)], &mut entries);
    assert_eq!(open_flags(&entries), vec![false, true, true, false]);
    assert_eq!(entries[1].state, SubmenuContainerState { timeout: 1_000_000, is_locked: true });
    assert_eq!(entries[0].state, SubmenuContainerState { timeout: 5, is_locked: false });
    let idle = SubmenuHover { container: 3, flux: FluxInteraction::Pressed, elapsed: 999_999 };
    open_submenu_on_hover(&vec![idle], &mut entries);
    assert_eq!(open_flags(&entries), vec![false, true, true, false]);
}

#[test]
fn menu_change_closes_everything() {
    let mut entries = vec![entry(10, true, Some(1)), entry(11, false, Some(1))];
    close_submenus_on_menu_change(false, &mut entries);
    assert_eq!(open_flags(&entries), vec![true, false]);
    close_submenus_on_menu_change(true, &mut entries);
    assert_eq!(open_flags(&entries), vec![false, false]);
    assert_eq!(entries[0].state, SubmenuContainerState::default());
    assert_eq!(entries[0].container.external_container, Some(Entity(1)));
}

#[test]
fn at_most_one_submenu_of_a_parent_stays_open() {
    let mut entries = vec![
        entry(10, true, Some(1)),
        entry(11, true, Some(1)),
        entry(12, true, Some(1)),
        entry(13, true, Some(2)),
    ];
    let closed = update_open_submenu_containers(&mut entries, &vec![false, true, false, false]);
    assert_eq!(open_flags(&entries), vec![false, true, false, true]);
    assert_eq!(closed, vec![true, false, true, false]);
}

#[test]
fn closing_cascades_down_the_chain() {
    let mut entries = vec![
        entry(10, false, Some(1)),
        entry(20, true, Some(10)),
        entry(30, true, Some(20)),
        entry(40, true, Some(30)),
        entry(50, true, Some(2)),
        entry(60, false, Some(50)),
        entry(70, true, Some(60)),
    ];
    let closed = update_open_submenu_containers(
        &mut entries,
        &vec![true, false, false, false, false, false, false],
    );
    assert_eq!(open_flags(&entries), vec![false, false, false, false, true, false, true]);
    assert_eq!(closed, vec![false, true, true, true, false, false, false]);
}

#[test]
fn closed_sibling_takes_its_submenus_along() {
    let mut entries = vec![
        entry(10, true, Some(1)),
        entry(11, true, Some(1)),
        entry(20, true, Some(10)),
        entry(21, true, Some(11)),
    ];
    update_open_submenu_containers(&mut entries, &vec![false, true]);
    assert_eq!(open_flags(&entries), vec![false, true, false, true]);
    let mut untouched = vec![entry(10, true, Some(1)), entry(11, true, Some(1))];
    let closed = update_open_submenu_containers(&mut untouched, &vec![]);
    assert_eq!(open_flags(&untouched), vec![true, true]);
    assert_eq!(closed, vec![false, false]);
}
