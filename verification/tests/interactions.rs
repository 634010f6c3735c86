use sickle_ui::animated_interaction::{AnimatedInteractionState, AnimationProgress};
use sickle_ui::flux_interaction::FluxInteraction;
use sickle_ui::interactions::{
    calculate_interaction_result, update_controlled_component, update_transition_base_state,
    ComponentController, InteractionConfig, InteractionState, InteractiveBackground,
    InteractiveBorderColor, InteractiveBorderSize, InteractiveHeight, InteractiveHeightState,
    InteractiveMargin,
};
use sickle_ui::style::{BackgroundColor, BorderColor, Color, Style, UiRect, Val};

fn rect(v: i64) -> UiRect {
    UiRect { left: Val::Px(v), right: Val::Px(v), top: Val::Px(v), bottom: Val::Px(v) }
}

fn style(height: i64) -> Style {
    Style { border: rect(0), margin: rect(0), height: Val::Px(height) }
}

#[test]
fn controller_without_animation_follows_the_signal() {
    let config = InteractiveHeight::new(Some(Val::Px(10)), Some(Val::Px(20)), None);
    let mut controlled = style(0);
    let mut state = InteractiveHeight::state(&controlled);

    let step = |flux: FluxInteraction, state: &mut InteractiveHeightState, controlled: &mut Style| {
        update_transition_base_state::<InteractiveHeight, _, _, _>(controlled, state, &flux);
        update_controlled_component(&config, &*state, &flux, None, controlled)
    };

    assert!(step(FluxInteraction::PointerEnter, &mut state, &mut controlled));
    assert_eq!(controlled.height, Val::Px(10));
    assert!(step(FluxInteraction::Pressed, &mut state, &mut controlled));
    assert_eq!(controlled.height, Val::Px(20));
    assert_eq!(state.transition_base(), Val::Px(10));
    assert!(step(FluxInteraction::Released, &mut state, &mut controlled));
    assert_eq!(controlled.height, Val::Px(10));
    assert!(!step(FluxInteraction::Released, &mut state, &mut controlled));
    assert!(step(FluxInteraction::PointerLeave, &mut state, &mut controlled));
    assert_eq!(controlled.height, Val::Px(0));
    assert_eq!(state.original(), Val::Px(0));
}

#[test]
fn missing_targets_leave_the_property_alone() {
    let config = InteractiveHeight::default();
    let state = InteractiveHeight::state(&style(5));
    for flux in [FluxInteraction::Pressed, FluxInteraction::PointerEnter, FluxInteraction::PointerLeave] {
        assert_eq!(calculate_interaction_result(&config, &state, &flux, None), None);
    }
    assert_eq!(
        calculate_interaction_result(&config, &state, &FluxInteraction::Released, None),
        Some(Val::Px(5))
    );
    assert_eq!(
        calculate_interaction_result(&config, &state, &FluxInteraction::PressCanceled, None),
        Some(Val::Px(5))
    );
    assert_eq!(
        calculate_interaction_result(&config, &state, &FluxInteraction::Idle, None),
        Some(Val::Px(5))
    );
}

#[test]
fn animation_interpolates_between_start_and_end() {
    let config = InteractiveHeight::new(Some(Val::Px(10)), Some(Val::Px(30)), Some(Val::Px(40)));
    let mut state = InteractiveHeight::state(&style(0));
    state.set_transition_base(Val::Px(10));
    let at = |progress: AnimationProgress, flux: FluxInteraction| {
        calculate_interaction_result(&config, &state, &flux, Some(&AnimatedInteractionState { progress }))
    };
    assert_eq!(at(AnimationProgress::Start, FluxInteraction::Pressed), Some(Val::Px(10)));
    assert_eq!(at(AnimationProgress::Inbetween(500_000), FluxInteraction::Pressed), Some(Val::Px(20)));
    assert_eq!(at(AnimationProgress::End, FluxInteraction::Pressed), Some(Val::Px(30)));
    assert_eq!(at(AnimationProgress::Inbetween(250_000), FluxInteraction::Released), Some(Val::Px(25)));
    assert_eq!(at(AnimationProgress::Start, FluxInteraction::PressCanceled), Some(Val::Px(40)));
    assert_eq!(at(AnimationProgress::Inbetween(500_000), FluxInteraction::PressCanceled), Some(Val::Px(20)));
    assert_eq!(at(AnimationProgress::Inbetween(500_000), FluxInteraction::PointerEnter), Some(Val::Px(5)));
    assert_eq!(at(AnimationProgress::Inbetween(500_000), FluxInteraction::PointerLeave), Some(Val::Px(5)));
    assert_eq!(at(AnimationProgress::Start, FluxInteraction::Idle), Some(Val::Px(0)));
}

#[test]
fn released_without_pressed_value_jumps_to_the_end() {
    let config = InteractiveHeight::new(Some(Val::Px(10)), None, None);
    let state = InteractiveHeight::state(&style(0));
    let animated = AnimatedInteractionState { progress: AnimationProgress::Start };
    assert_eq!(
        calculate_interaction_result(&config, &state, &FluxInteraction::Released, Some(&animated)),
        Some(Val::Px(10))
    );
}

#[test]
fn transition_base_is_taken_on_press_only() {
    let controlled = style(7);
    let mut state = InteractiveHeight::state(&style(0));
    update_transition_base_state::<InteractiveHeight, _, _, _>(&controlled, &mut state, &FluxInteraction::PointerEnter);
    assert_eq!(state.transition_base(), Val::Px(0));
    update_transition_base_state::<InteractiveHeight, _, _, _>(&controlled, &mut state, &FluxInteraction::Pressed);
    assert_eq!(state.transition_base(), Val::Px(7));
    assert_eq!(state.original(), Val::Px(0));
    state.set_original(Val::Px(3));
    assert_eq!(state.original(), Val::Px(3));
    assert_eq!(state.transition_base(), Val::Px(7));
}

#[test]
fn each_controller_writes_its_own_property() {
    let white = Color { r: 1_000_000, g: 1_000_000, b: 1_000_000, a: 1_000_000 };
    let black = Color { r: 0, g: 0, b: 0, a: 1_000_000 };

    let mut background = BackgroundColor(black);
    assert_eq!(InteractiveBackground::extract_value(&background), black);
    assert!(InteractiveBackground::update_controlled_component(&mut background, white));
    assert!(!InteractiveBackground::update_controlled_component(&mut background, white));
    assert_eq!(background, BackgroundColor(white));

    let mut border = BorderColor(black);
    assert!(InteractiveBorderColor::update_controlled_component(&mut border, white));
    assert_eq!(border, BorderColor(white));

    let mut controlled = style(1);
    assert!(InteractiveBorderSize::update_controlled_component(&mut controlled, rect(2)));
    assert!(InteractiveMargin::update_controlled_component(&mut controlled, rect(3)));
    assert!(InteractiveHeight::update_controlled_component(&mut controlled, Val::Px(4)));
    assert_eq!(controlled, Style { border: rect(2), margin: rect(3), height: Val::Px(4) });
    assert_eq!(InteractiveBorderSize::extract_value(&controlled), rect(2));
    assert_eq!(InteractiveMargin::extract_value(&controlled), rect(3));
    assert_eq!(InteractiveMargin::state(&controlled).original(), rect(3));

    let config = InteractiveBackground::new(Some(white), None, Some(black));
    assert_eq!(config.highlight(), Some(white));
    assert_eq!(config.pressed(), None);
    assert_eq!(config.cancel(), Some(black));
}
