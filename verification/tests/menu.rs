use sickle_ui::flux_interaction::FluxInteraction;
use sickle_ui::input_extension::{ButtonInput, KeyCode};
use sickle_ui::menu::{
    handle_click_or_touch, handle_dropdown_click_or_touch, handle_foldable_button_press,
    handle_item_interaction, handle_option_press, toggle_checkbox, toggle_radio_button,
    update_dropdown_label, update_menu_item_on_change, update_menu_item_on_key_press,
    update_menu_item_on_pressed, update_radio_group_buttons, Checkbox, Dropdown, Foldable, Menu,
    MenuChange, MenuItem, PointerButtons, RadioButton, RadioGroup,
};

fn menu(is_open: bool, flux: FluxInteraction, flux_changed: bool) -> Menu {
    Menu { is_open, flux, flux_changed }
}

fn quiet(is_open: bool) -> Menu {
    menu(is_open, FluxInteraction::Idle, false)
}

fn open_flags(menus: &Vec<Menu>) -> Vec<bool> {
    menus.iter().map(|m| m.is_open).collect()
}

const NOTHING: PointerButtons = PointerButtons { just_pressed: false, just_released: false };
const DOWN: PointerButtons = PointerButtons { just_pressed: true, just_released: false };
const UP: PointerButtons = PointerButtons { just_pressed: false, just_released: true };

#[test]
fn press_outside_closes_the_menus() {
    let mut menus = vec![quiet(true), quiet(false)];
    assert_eq!(handle_click_or_touch(&mut menus, DOWN, false), MenuChange::CloseAll);
    assert_eq!(open_flags(&menus), vec![false, false]);
    let mut kept = vec![quiet(true), quiet(false)];
    assert_eq!(handle_click_or_touch(&mut kept, DOWN, true), MenuChange::Keep);
    assert_eq!(open_flags(&kept), vec![true, false]);
    let mut released = vec![quiet(true), quiet(false)];
    assert_eq!(handle_click_or_touch(&mut released, UP, true), MenuChange::CloseAll);
    assert_eq!(open_flags(&released), vec![false, false]);
}

#[test]
fn press_on_a_closed_menu_opens_it() {
    let mut menus = vec![quiet(false), menu(false, FluxInteraction::Pressed, true), quiet(true)];
    assert_eq!(handle_click_or_touch(&mut menus, DOWN, false), MenuChange::Open(1));
    assert_eq!(open_flags(&menus), vec![false, true, false]);
}

#[test]
fn press_on_the_open_menu_closes_it() {
    let mut menus = vec![quiet(false), menu(true, FluxInteraction::Pressed, true)];
    assert_eq!(handle_click_or_touch(&mut menus, DOWN, false), MenuChange::CloseAll);
    assert_eq!(open_flags(&menus), vec![false, false]);
    let mut released = vec![menu(false, FluxInteraction::Released, true), quiet(true)];
    assert_eq!(handle_click_or_touch(&mut released, UP, false), MenuChange::CloseAll);
    assert_eq!(open_flags(&released), vec![false, false]);
    let mut kept = vec![menu(true, FluxInteraction::Released, true), quiet(false)];
    assert_eq!(handle_click_or_touch(&mut kept, UP, false), MenuChange::Open(0));
    assert_eq!(open_flags(&kept), vec![true, false]);
}

#[test]
fn pointer_switches_between_menus_while_one_is_open() {
    let mut menus = vec![quiet(true), menu(false, FluxInteraction::PointerEnter, true)];
    assert_eq!(handle_click_or_touch(&mut menus, NOTHING, false), MenuChange::Open(1));
    assert_eq!(open_flags(&menus), vec![false, true]);
    let mut closed = vec![quiet(false), menu(false, FluxInteraction::PointerEnter, true)];
    assert_eq!(handle_click_or_touch(&mut closed, NOTHING, false), MenuChange::CloseAll);
    assert_eq!(open_flags(&closed), vec![false, false]);
    let mut leaving = vec![quiet(false), menu(true, FluxInteraction::PointerLeave, true)];
    assert_eq!(handle_click_or_touch(&mut leaving, NOTHING, false), MenuChange::Open(1));
    assert_eq!(open_flags(&leaving), vec![false, true]);
    let mut still = vec![quiet(true), menu(false, FluxInteraction::PointerEnter, false)];
    assert_eq!(handle_click_or_touch(&mut still, NOTHING, false), MenuChange::Keep);
    assert_eq!(open_flags(&still), vec![true, false]);
}

#[test]
fn first_deciding_menu_wins() {
    let mut menus = vec![
        menu(false, FluxInteraction::PointerLeave, true),
        menu(false, FluxInteraction::Pressed, true),
        menu(true, FluxInteraction::Pressed, true),
    ];
    assert_eq!(handle_click_or_touch(&mut menus, DOWN, false), MenuChange::Open(1));
    assert_eq!(open_flags(&menus), vec![false, true, false]);
}

#[test]
fn menu_items_are_marked_and_cleared() {
    let mut item = MenuItem::default();
    update_menu_item_on_pressed(&mut item, FluxInteraction::Pressed);
    assert!(!item.interacted());
    update_menu_item_on_pressed(&mut item, FluxInteraction::Released);
    assert!(item.interacted());
    assert!(handle_item_interaction(&vec![MenuItem::default(), item]));
    assert!(!handle_item_interaction(&vec![MenuItem::default()]));
    update_menu_item_on_change(&mut item);
    assert!(!item.interacted());
}

#[test]
fn shortcut_needs_its_modifiers() {
    let shortcut = vec![KeyCode::ControlLeft, KeyCode::ShiftLeft, KeyCode::KeyS];
    let held = |pressed: Vec<KeyCode>, just_pressed: Vec<KeyCode>| ButtonInput {
        pressed,
        just_pressed,
        just_released: vec![],
    };
    let mut item = MenuItem::default();
    update_menu_item_on_key_press(&mut item, &shortcut, &held(vec![KeyCode::ControlRight, KeyCode::KeyS], vec![KeyCode::KeyS]));
    assert!(!item.interacted());
    update_menu_item_on_key_press(
        &mut item,
        &shortcut,
        &held(vec![KeyCode::ControlRight, KeyCode::ShiftLeft, KeyCode::KeyS], vec![]),
    );
    assert!(!item.interacted());
    update_menu_item_on_key_press(
        &mut item,
        &shortcut,
        &held(vec![KeyCode::ControlRight, KeyCode::ShiftRight, KeyCode::KeyS], vec![KeyCode::KeyS]),
    );
    assert!(item.interacted());
    let mut single = MenuItem::default();
    update_menu_item_on_key_press(&mut single, &vec![KeyCode::F1], &held(vec![], vec![KeyCode::F1]));
    assert!(single.interacted());
    let mut none = MenuItem::default();
    update_menu_item_on_key_press(&mut none, &vec![], &held(vec![], vec![KeyCode::F1]));
    assert!(!none.interacted());
}

#[test]
fn checkbox_toggles_on_release() {
    let mut checkbox = Checkbox { checked: false };
    toggle_checkbox(&mut checkbox, FluxInteraction::Pressed);
    assert!(!checkbox.checked);
    toggle_checkbox(&mut checkbox, FluxInteraction::Released);
    assert!(checkbox.checked);
    toggle_checkbox(&mut checkbox, FluxInteraction::Released);
    assert!(!checkbox.checked);
}

#[test]
fn one_foldable_toggles_per_frame() {
    let used = MenuItem { interacted: true };
    let mut foldables = vec![Foldable { open: false }, Foldable { open: true }, Foldable { open: true }];
    handle_foldable_button_press(&vec![MenuItem::default(), used, used], &mut foldables);
    assert_eq!(foldables, vec![Foldable { open: false }, Foldable { open: false }, Foldable { open: true }]);
    handle_foldable_button_press(&vec![MenuItem::default()], &mut foldables);
    assert_eq!(foldables[1], Foldable { open: false });
    handle_foldable_button_press(&vec![MenuItem::default(), MenuItem::default(), MenuItem::default(), used], &mut foldables);
    assert_eq!(foldables.len(), 3);
}

#[test]
fn radio_buttons_select_and_unselect() {
    let mut group = RadioGroup { selected: None };
    let mut button = RadioButton { index: 2, checked: false, unselectable: true };
    toggle_radio_button(&mut button, &mut group, FluxInteraction::Released, false);
    assert_eq!(group.selected, None);
    toggle_radio_button(&mut button, &mut group, FluxInteraction::Pressed, false);
    assert!(button.checked);
    assert_eq!(group.selected, Some(2));
    group.selected = Some(9);
    toggle_radio_button(&mut button, &mut group, FluxInteraction::Pressed, false);
    assert!(button.checked);
    assert_eq!(group.selected, Some(9));
    toggle_radio_button(&mut button, &mut group, FluxInteraction::Pressed, true);
    assert!(!button.checked);
    assert_eq!(group.selected, None);
    let mut fixed = RadioButton { index: 1, checked: true, unselectable: false };
    toggle_radio_button(&mut fixed, &mut group, FluxInteraction::Pressed, true);
    assert!(fixed.checked);
    assert_eq!(group.selected, None);

    let mut buttons = vec![
        RadioButton { index: 0, checked: true, unselectable: false },
        RadioButton { index: 1, checked: false, unselectable: false },
        RadioButton { index: 2, checked: true, unselectable: true },
    ];
    update_radio_group_buttons(&RadioGroup { selected: Some(1) }, &mut buttons);
    assert_eq!(buttons.iter().map(|b| b.checked).collect::<Vec<bool>>(), vec![false, true, false]);
    update_radio_group_buttons(&RadioGroup { selected: None }, &mut buttons);
    assert_eq!(buttons.iter().map(|b| b.checked).collect::<Vec<bool>>(), vec![false, false, false]);
    assert!(buttons[2].unselectable);
}

#[test]
fn dropdowns_toggle_and_close() {
    let mut dropdowns = vec![
        Dropdown { value: None, is_open: true },
        Dropdown { value: Some(1), is_open: false },
        Dropdown { value: None, is_open: true },
    ];
    let flux = vec![FluxInteraction::Idle, FluxInteraction::Released, FluxInteraction::Released];
    handle_dropdown_click_or_touch(&mut dropdowns, &flux, false);
    assert_eq!(dropdowns.iter().map(|d| d.is_open).collect::<Vec<bool>>(), vec![true, false, true]);
    handle_dropdown_click_or_touch(&mut dropdowns, &flux, true);
    assert_eq!(dropdowns.iter().map(|d| d.is_open).collect::<Vec<bool>>(), vec![false, true, false]);
    handle_dropdown_click_or_touch(&mut dropdowns, &flux, true);
    assert_eq!(dropdowns.iter().map(|d| d.is_open).collect::<Vec<bool>>(), vec![false, false, false]);
    handle_dropdown_click_or_touch(&mut dropdowns, &vec![], true);
    assert_eq!(dropdowns[1].value, Some(1));

    let mut dropdown = Dropdown { value: None, is_open: true };
    handle_option_press(&mut dropdown, 3, FluxInteraction::Pressed);
    assert_eq!(dropdown.value, None);
    handle_option_press(&mut dropdown, 3, FluxInteraction::Released);
    assert_eq!(dropdown.value, Some(3));
    assert_eq!(update_dropdown_label(&mut dropdown, 4), Some(3));
    assert_eq!(update_dropdown_label(&mut dropdown, 3), None);
    assert_eq!(dropdown.value, None);
    assert!(dropdown.is_open);
}
