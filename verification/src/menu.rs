//! Menus and the small widgets: which menu or dropdown is open, which radio
//! button is checked, and what a press toggles.
use vstd::prelude::*;
use crate::flux_interaction::FluxInteraction;
use crate::input_extension::{ButtonInput, KeyCode, SymmetricKeysExt};

verus! {

/// A menu of a menu bar, as the menu pass sees it.
#[derive(Clone, Copy, Debug, PartialEq, Eq, Structural)]
pub struct Menu {
    pub is_open: bool,
    /// The signal of the button of the menu.
    pub flux: FluxInteraction,
    /// Whether the signal changed in this frame.
    pub flux_changed: bool,
}

/// What the pointer did in a frame.
#[derive(Clone, Copy, Debug, PartialEq, Eq, Structural)]
pub struct PointerButtons {
    /// Whether a mouse button or a touch went down.
    pub just_pressed: bool,
    /// Whether a mouse button or a touch came up.
    pub just_released: bool,
}

/// What the menu pass does to the menus.
#[derive(Clone, Copy, Debug, PartialEq, Eq, Structural)]
pub enum MenuChange {
    /// Leave every menu as it is.
    Keep,
    /// Close every menu.
    CloseAll,
    /// Open the menu at this place and close every other.
    Open(usize),
}

/// Whether some menu among the first `upto` has the signal `flux`.
pub open spec fn any_with(menus: Seq<Menu>, flux: FluxInteraction, upto: nat) -> bool
    decreases upto,
{
    upto > 0 && (menus[upto - 1].flux == flux || any_with(menus, flux, (upto - 1) as nat))
}

/// The first open menu among those from place `from` on.
pub open spec fn first_open(menus: Seq<Menu>, from: nat) -> Option<usize>
    decreases menus.len() - from,
{
    if from >= menus.len() {
        None
    } else if menus[from as int].is_open {
        Some(from as usize)
    } else {
        first_open(menus, from + 1)
    }
}

/// What the first menu from `from` on whose signal changed and decides
/// asks for, where `fallback` is what holds if none decides: a press on an
/// open menu or a release on a closed one closes all; any other press or
/// release opens that menu; and while some menu is open, the pointer that
/// enters a menu opens it.
pub open spec fn decided(menus: Seq<Menu>, from: nat, fallback: Option<usize>) -> Option<usize>
    decreases menus.len() - from,
{
    if from >= menus.len() {
        fallback
    } else {
        let menu = menus[from as int];
        let pressed = menu.flux == FluxInteraction::Pressed;
        let released = menu.flux == FluxInteraction::Released;
        if menu.flux_changed && ((menu.is_open && pressed) || (!menu.is_open && released)) {
            None
        } else if menu.flux_changed && (pressed || released) {
            Some(from as usize)
        } else if menu.flux_changed && first_open(menus, 0) is Some && menu.flux
            == FluxInteraction::PointerEnter {
            Some(from as usize)
        } else {
            decided(menus, from + 1, fallback)
        }
    }
}

/// Whether the signal of some menu changed.
pub open spec fn any_changed(menus: Seq<Menu>) -> bool {
    exists|i: int| 0 <= i < menus.len() && (#[trigger] menus[i]).flux_changed
}

/// What the menu pass does: a press or a release outside of every menu
/// closes the menus (a press on a menu item in that frame is left to the
/// item); otherwise the menu whose button was used decides.
pub open spec fn menu_change(menus: Seq<Menu>, pointer: PointerButtons, item_pressed: bool) -> MenuChange {
    if pointer.just_pressed && !any_with(menus, FluxInteraction::Pressed, menus.len()) {
        if item_pressed {
            MenuChange::Keep
        } else {
            MenuChange::CloseAll
        }
    } else if pointer.just_released && !any_with(menus, FluxInteraction::Released, menus.len()) {
        MenuChange::CloseAll
    } else if !any_changed(menus) {
        MenuChange::Keep
    } else {
        match decided(menus, 0, first_open(menus, 0)) {
            Some(open) => MenuChange::Open(open),
            None => MenuChange::CloseAll,
        }
    }
}

/// Menu `i` after a change.
pub open spec fn changed_menu(menus: Seq<Menu>, change: MenuChange, i: int) -> Menu {
    match change {
        MenuChange::Keep => menus[i],
        MenuChange::CloseAll => Menu { is_open: false, ..menus[i] },
        MenuChange::Open(open) => Menu { is_open: i == open, ..menus[i] },
    }
}

fn has_flux(menus: &Vec<Menu>, flux: FluxInteraction) -> (r: bool)
    ensures
        r == any_with(menus@, flux, menus@.len()),
{
    let mut found = false;
    let mut i: usize = 0;
    while i < menus.len()
        invariant
            i <= menus.len(),
            found == any_with(menus@, flux, i as nat),
        decreases menus.len() - i,
    {
        if menus[i].flux == flux {
            found = true;
        }
        i += 1;
    }
    found
}

fn find_first_open(menus: &Vec<Menu>) -> (r: Option<usize>)
    ensures
        r == first_open(menus@, 0),
        r matches Some(i) ==> i < menus@.len(),
{
    let mut i: usize = menus.len();
    let mut found: Option<usize> = None;
    while i > 0
        invariant
            i <= menus.len(),
            found == first_open(menus@, i as nat),
            found matches Some(k) ==> k < menus@.len(),
        decreases i,
    {
        i -= 1;
        if menus[i].is_open {
            found = Some(i);
        }
    }
    found
}

fn decide(menus: &Vec<Menu>, fallback: Option<usize>) -> (r: Option<usize>)
    requires
        fallback == first_open(menus@, 0),
    ensures
        r == decided(menus@, 0, fallback),
{
    let any_open = fallback.is_some();
    let mut i: usize = menus.len();
    let mut result: Option<usize> = fallback;
    while i > 0
        invariant
            i <= menus.len(),
            any_open == (first_open(menus@, 0) is Some),
            result == decided(menus@, i as nat, fallback),
        decreases i,
    {
        i -= 1;
        let menu = menus[i];
        if menu.flux_changed {
            let pressed = menu.flux == FluxInteraction::Pressed;
            let released = menu.flux == FluxInteraction::Released;
            if (menu.is_open && pressed) || (!menu.is_open && released) {
                result = None;
            } else if pressed || released {
                result = Some(i);
            } else if any_open && menu.flux == FluxInteraction::PointerEnter {
                result = Some(i);
            }
        }
    }
    result
}

fn some_changed(menus: &Vec<Menu>) -> (r: bool)
    ensures
        r == any_changed(menus@),
{
    let mut i: usize = 0;
    while i < menus.len()
        invariant
            i <= menus.len(),
            forall|j: int| 0 <= j < i ==> !(#[trigger] menus@[j]).flux_changed,
        decreases menus.len() - i,
    {
        if menus[i].flux_changed {
            return true;
        }
        i += 1;
    }
    false
}

/// The menu pass: opens and closes the menus of a menu bar after the
/// pointer was used. `item_pressed` says whether a menu item was pressed in
/// this frame. After the pass at most one menu is open.
pub fn handle_click_or_touch(menus: &mut Vec<Menu>, pointer: PointerButtons, item_pressed: bool) -> (change:
    MenuChange)
    ensures
        change == menu_change(old(menus)@, pointer, item_pressed),
        final(menus)@.len() == old(menus)@.len(),
        forall|i: int|
            0 <= i < old(menus)@.len() ==> #[trigger] final(menus)@[i] == changed_menu(
                old(menus)@,
                change,
                i,
            ),
{
    let change = if pointer.just_pressed && !has_flux(menus, FluxInteraction::Pressed) {
        if item_pressed {
            MenuChange::Keep
        } else {
            MenuChange::CloseAll
        }
    } else if pointer.just_released && !has_flux(menus, FluxInteraction::Released) {
        MenuChange::CloseAll
    } else if !some_changed(menus) {
        MenuChange::Keep
    } else {
        let fallback = find_first_open(menus);
        match decide(menus, fallback) {
            Some(open) => MenuChange::Open(open),
            None => MenuChange::CloseAll,
        }
    };
    let mut i: usize = 0;
    while i < menus.len()
        invariant
            i <= menus.len(),
            menus@.len() == old(menus)@.len(),
            forall|j: int| 0 <= j < i ==> #[trigger] menus@[j] == changed_menu(old(menus)@, change, j),
            forall|j: int| i <= j < menus@.len() ==> menus@[j] == old(menus)@[j],
        decreases menus.len() - i,
    {
        let menu = menus[i];
        let is_open = match change {
            MenuChange::Keep => menu.is_open,
            MenuChange::CloseAll => false,
            MenuChange::Open(open) => i == open,
        };
        menus.set(i, Menu { is_open, flux: menu.flux, flux_changed: menu.flux_changed });
        i += 1;
    }
    change
}

/// After a pass that decided, no two menus are open.
pub proof fn lemma_one_open_menu(menus: Seq<Menu>, change: MenuChange, a: int, b: int)
    requires
        change != MenuChange::Keep,
        0 <= a < menus.len(),
        0 <= b < menus.len(),
        a != b,
    ensures
        !(changed_menu(menus, change, a).is_open && changed_menu(menus, change, b).is_open),
{
}

/// A menu item: whether it was used in this frame.
#[derive(Clone, Copy, Debug, PartialEq, Eq, Structural)]
pub struct MenuItem {
    pub interacted: bool,
}

impl Default for MenuItem {
    fn default() -> (r: Self)
        ensures
            r.interacted == false,
    {
        MenuItem { interacted: false }
    }
}

impl MenuItem {
    pub fn interacted(&self) -> (r: bool)
        ensures
            r == self.interacted,
    {
        self.interacted
    }
}

/// Marks a menu item as used when its press is completed.
pub fn update_menu_item_on_pressed(item: &mut MenuItem, flux: FluxInteraction)
    ensures
        final(item).interacted == (old(item).interacted || flux == FluxInteraction::Released),
{
    if flux == FluxInteraction::Released {
        item.interacted = true;
    }
}

/// Whether the shortcut `shortcut` was just struck: its last key went down
/// in this frame while all the keys before it are down, where the two sides
/// of a modifier count as one key.
pub open spec fn struck(shortcut: Seq<KeyCode>, keys: &ButtonInput) -> bool {
    &&& shortcut.len() > 0
    &&& keys.just_pressed@.contains(shortcut.last())
    &&& forall|i: int| 0 <= i < shortcut.len() - 1 ==> keys.pressed_spec(#[trigger] shortcut[i])
}

fn contains_key(keys: &Vec<KeyCode>, keycode: KeyCode) -> (r: bool)
    ensures
        r == keys@.contains(keycode),
{
    let mut i: usize = 0;
    while i < keys.len()
        invariant
            i <= keys.len(),
            forall|j: int| 0 <= j < i ==> keys@[j] != keycode,
        decreases keys.len() - i,
    {
        if keys[i] == keycode {
            return true;
        }
        i += 1;
    }
    false
}

/// Marks a menu item as used when its shortcut is struck.
pub fn update_menu_item_on_key_press(item: &mut MenuItem, shortcut: &Vec<KeyCode>, keys: &ButtonInput)
    ensures
        final(item).interacted == (old(item).interacted || struck(shortcut@, keys)),
{
    if shortcut.len() == 0 {
        return ;
    }
    let main_key = shortcut[shortcut.len() - 1];
    if !contains_key(&keys.just_pressed, main_key) {
        return ;
    }
    let mut i: usize = 0;
    while i < shortcut.len() - 1
        invariant
            shortcut.len() > 0,
            i <= shortcut.len() - 1,
            forall|j: int| 0 <= j < i ==> keys.pressed_spec(#[trigger] shortcut@[j]),
        decreases shortcut.len() - 1 - i,
    {
        if !keys.symmetry_pressed(shortcut[i]) {
            return ;
        }
        i += 1;
    }
    item.interacted = true;
}

/// Clears the mark of a menu item once the frame has seen it.
pub fn update_menu_item_on_change(item: &mut MenuItem)
    ensures
        final(item).interacted == false,
{
    item.interacted = false;
}

/// Whether the menus close because a menu item was used.
pub fn handle_item_interaction(items: &Vec<MenuItem>) -> (close_all: bool)
    ensures
        close_all == exists|i: int| 0 <= i < items@.len() && (#[trigger] items@[i]).interacted,
{
    let mut i: usize = 0;
    while i < items.len()
        invariant
            i <= items.len(),
            forall|j: int| 0 <= j < i ==> !(#[trigger] items@[j]).interacted,
        decreases items.len() - i,
    {
        if items[i].interacted {
            return true;
        }
        i += 1;
    }
    false
}

/// A checkbox.
#[derive(Clone, Copy, Debug, PartialEq, Eq, Structural)]
pub struct Checkbox {
    pub checked: bool,
}

/// Toggles a checkbox when a press on it is completed.
pub fn toggle_checkbox(checkbox: &mut Checkbox, flux: FluxInteraction)
    ensures
        final(checkbox).checked == (old(checkbox).checked != (flux == FluxInteraction::Released)),
{
    if flux == FluxInteraction::Released {
        checkbox.checked = !checkbox.checked;
    }
}

/// A foldable section.
#[derive(Clone, Copy, Debug, PartialEq, Eq, Structural)]
pub struct Foldable {
    pub open: bool,
}

/// The first of the first `upto` items that was used.
pub open spec fn first_used(items: Seq<MenuItem>, upto: nat) -> Option<usize>
    decreases upto,
{
    if upto == 0 {
        None
    } else {
        match first_used(items, (upto - 1) as nat) {
            Some(i) => Some(i),
            None => if items[upto - 1].interacted {
                Some((upto - 1) as usize)
            } else {
                None
            },
        }
    }
}

/// Toggles the first foldable whose header was used; at most one foldable
/// toggles in a frame. `headers` are the headers of the foldables, place by
/// place.
pub fn handle_foldable_button_press(headers: &Vec<MenuItem>, foldables: &mut Vec<Foldable>)
    ensures
        final(foldables)@.len() == old(foldables)@.len(),
        forall|i: int|
            0 <= i < old(foldables)@.len() ==> #[trigger] final(foldables)@[i].open == (old(
                foldables,
            )@[i].open != (first_used(headers@, headers@.len()) == Some(i as usize))),
{
    let mut i: usize = 0;
    while i < headers.len()
        invariant
            i <= headers.len(),
            first_used(headers@, i as nat) is None,
            foldables@ == old(foldables)@,
        decreases headers.len() - i,
    {
        if headers[i].interacted {
            proof {
                lemma_first_used_is_stable(headers@, (i + 1) as nat, headers@.len());
            }
            if i < foldables.len() {
                let open = foldables[i].open;
                foldables.set(i, Foldable { open: !open });
            }
            return ;
        }
        i += 1;
    }
}

proof fn lemma_first_used_is_stable(items: Seq<MenuItem>, found: nat, upto: nat)
    requires
        found <= upto,
        first_used(items, found) is Some,
    ensures
        first_used(items, upto) == first_used(items, found),
    decreases upto,
{
    if upto > found {
        lemma_first_used_is_stable(items, found, (upto - 1) as nat);
    }
}

/// A radio button of a group.
#[derive(Clone, Copy, Debug, PartialEq, Eq, Structural)]
pub struct RadioButton {
    pub index: usize,
    pub checked: bool,
    /// Whether a press with Control held unchecks the button.
    pub unselectable: bool,
}

/// A group of radio buttons: the index of the checked one.
#[derive(Clone, Copy, Debug, PartialEq, Eq, Structural)]
pub struct RadioGroup {
    pub selected: Option<usize>,
}

/// The button after a press: an unchecked button is checked; a checked one
/// is unchecked where it allows that and Control is held.
pub open spec fn pressed_button(button: RadioButton, control: bool) -> RadioButton {
    if button.checked && button.unselectable && control {
        RadioButton { checked: false, ..button }
    } else {
        RadioButton { checked: true, ..button }
    }
}

/// Applies a press to a radio button and to its group: the group selects
/// the button that was checked, and nothing where the button was unchecked.
/// Any other signal, and a press that changes nothing, leaves both as they
/// are.
pub fn toggle_radio_button(
    button: &mut RadioButton,
    group: &mut RadioGroup,
    flux: FluxInteraction,
    control: bool,
)
    ensures
        *final(button) == if flux == FluxInteraction::Pressed {
            pressed_button(*old(button), control)
        } else {
            *old(button)
        },
        *final(group) == if flux == FluxInteraction::Pressed && *final(button) != *old(button) {
            RadioGroup {
                selected: if final(button).checked {
                    Some(old(button).index)
                } else {
                    None
                },
            }
        } else {
            *old(group)
        },
{
    if flux != FluxInteraction::Pressed {
        return ;
    }
    if button.checked && button.unselectable && control {
        button.checked = false;
    } else if !button.checked {
        button.checked = true;
    } else {
        return ;
    }
    group.selected = if button.checked {
        Some(button.index)
    } else {
        None
    };
}

/// Checks the button that its group selects and unchecks every other.
pub fn update_radio_group_buttons(group: &RadioGroup, buttons: &mut Vec<RadioButton>)
    ensures
        final(buttons)@.len() == old(buttons)@.len(),
        forall|i: int|
            0 <= i < old(buttons)@.len() ==> #[trigger] final(buttons)@[i] == (RadioButton {
                checked: group.selected == Some(old(buttons)@[i].index),
                ..old(buttons)@[i]
            }),
{
    let mut i: usize = 0;
    while i < buttons.len()
        invariant
            i <= buttons.len(),
            buttons@.len() == old(buttons)@.len(),
            forall|j: int|
                0 <= j < i ==> #[trigger] buttons@[j] == (RadioButton {
                    checked: group.selected == Some(old(buttons)@[j].index),
                    ..old(buttons)@[j]
                }),
            forall|j: int| i <= j < buttons@.len() ==> buttons@[j] == old(buttons)@[j],
        decreases buttons.len() - i,
    {
        let button = buttons[i];
        let checked = match group.selected {
            Some(index) => index == button.index,
            None => false,
        };
        buttons.set(
            i,
            RadioButton { index: button.index, checked, unselectable: button.unselectable },
        );
        i += 1;
    }
}

/// A dropdown: the option that it shows, and whether its list is open.
#[derive(Clone, Copy, Debug, PartialEq, Eq, Structural)]
pub struct Dropdown {
    pub value: Option<usize>,
    pub is_open: bool,
}

/// The first of the first `upto` dropdowns on which a press was completed.
pub open spec fn first_released(flux: Seq<FluxInteraction>, upto: nat) -> Option<usize>
    decreases upto,
{
    if upto == 0 {
        None
    } else {
        match first_released(flux, (upto - 1) as nat) {
            Some(i) => Some(i),
            None => if flux[upto - 1] == FluxInteraction::Released {
                Some((upto - 1) as usize)
            } else {
                None
            },
        }
    }
}

proof fn lemma_first_released_is_stable(flux: Seq<FluxInteraction>, found: nat, upto: nat)
    requires
        found <= upto,
        first_released(flux, found) is Some,
    ensures
        first_released(flux, upto) == first_released(flux, found),
    decreases upto,
{
    if upto > found {
        lemma_first_released_is_stable(flux, found, (upto - 1) as nat);
    }
}

fn find_released(flux: &Vec<FluxInteraction>) -> (r: Option<usize>)
    ensures
        r == first_released(flux@, flux@.len()),
{
    let mut i: usize = 0;
    while i < flux.len()
        invariant
            i <= flux.len(),
            first_released(flux@, i as nat) is None,
        decreases flux.len() - i,
    {
        if flux[i] == FluxInteraction::Released {
            proof {
                lemma_first_released_is_stable(flux@, (i + 1) as nat, flux@.len());
            }
            return Some(i);
        }
        i += 1;
    }
    None
}

/// The dropdown pass after a mouse button or a touch came up: the first
/// dropdown on which the press was completed toggles, and every other
/// dropdown closes. `flux` holds the signals of the dropdowns, place by
/// place.
pub fn handle_dropdown_click_or_touch(
    dropdowns: &mut Vec<Dropdown>,
    flux: &Vec<FluxInteraction>,
    just_released: bool,
)
    ensures
        final(dropdowns)@.len() == old(dropdowns)@.len(),
        forall|i: int|
            0 <= i < old(dropdowns)@.len() ==> #[trigger] final(dropdowns)@[i] == if just_released {
                Dropdown {
                    is_open: first_released(flux@, flux@.len()) == Some(i as usize) && !old(
                        dropdowns,
                    )@[i].is_open,
                    ..old(dropdowns)@[i]
                }
            } else {
                old(dropdowns)@[i]
            },
{
    if !just_released {
        return ;
    }
    let open = find_released(flux);
    let mut i: usize = 0;
    while i < dropdowns.len()
        invariant
            i <= dropdowns.len(),
            dropdowns@.len() == old(dropdowns)@.len(),
            open == first_released(flux@, flux@.len()),
            forall|j: int|
                0 <= j < i ==> #[trigger] dropdowns@[j] == (Dropdown {
                    is_open: open == Some(j as usize) && !old(dropdowns)@[j].is_open,
                    ..old(dropdowns)@[j]
                }),
            forall|j: int| i <= j < dropdowns@.len() ==> dropdowns@[j] == old(dropdowns)@[j],
        decreases dropdowns.len() - i,
    {
        let dropdown = dropdowns[i];
        let toggles = match open {
            Some(at) => at == i,
            None => false,
        };
        dropdowns.set(i, Dropdown { value: dropdown.value, is_open: toggles && !dropdown.is_open });
        i += 1;
    }
}

/// Takes the option on which a press was completed as the value of its
/// dropdown.
pub fn handle_option_press(dropdown: &mut Dropdown, option: usize, flux: FluxInteraction)
    ensures
        *final(dropdown) == if flux == FluxInteraction::Released {
            Dropdown { value: Some(option), ..*old(dropdown) }
        } else {
            *old(dropdown)
        },
{
    if flux == FluxInteraction::Released {
        dropdown.value = Some(option);
    }
}

/// Drops the value of a dropdown that names no option of its list, and
/// returns the place of the option to show.
pub fn update_dropdown_label(dropdown: &mut Dropdown, option_count: usize) -> (shown: Option<usize>)
    ensures
        *final(dropdown) == (Dropdown {
            value: match old(dropdown).value {
                Some(v) if v < option_count => Some(v),
                _ => None,
            },
            ..*old(dropdown)
        }),
        shown == final(dropdown).value,
{
    if let Some(value) = dropdown.value {
        if value >= option_count {
            dropdown.value = None;
        }
    }
    dropdown.value
}

} // verus!
