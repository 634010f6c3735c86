use sickle_ui::flux_interaction::{
    reset_stopwatch_on_change, tick_flux_interaction_stopwatch, transition, update_flux_interaction,
    update_prev_interaction, FluxInteraction, FluxInteractionConfig, FluxInteractionStopwatch,
    Interaction, PrevInteraction, Stopwatch, TrackedInteraction,
};

#[test]
fn transition_table_has_six_entries() {
    assert_eq!(transition(PrevInteraction::Idle, Interaction::Idle), None);
    assert_eq!(
        transition(PrevInteraction::Idle, Interaction::Hovered),
        Some(FluxInteraction::PointerEnter)
    );
    assert_eq!(transition(PrevInteraction::Idle, Interaction::Pressed), Some(FluxInteraction::Pressed));
    assert_eq!(
        transition(PrevInteraction::Hovered, Interaction::Idle),
        Some(FluxInteraction::PointerLeave)
    );
    assert_eq!(transition(PrevInteraction::Hovered, Interaction::Hovered), None);
    assert_eq!(
        transition(PrevInteraction::Hovered, Interaction::Pressed),
        Some(FluxInteraction::Pressed)
    );
    assert_eq!(
        transition(PrevInteraction::Pressed, Interaction::Idle),
        Some(FluxInteraction::PressCanceled)
    );
    assert_eq!(
        transition(PrevInteraction::Pressed, Interaction::Hovered),
        Some(FluxInteraction::Released)
    );
    assert_eq!(transition(PrevInteraction::Pressed, Interaction::Pressed), None);
}

#[test]
fn pointer_enter_from_idle_to_hovered() {
    assert_eq!(
        update_flux_interaction(PrevInteraction::Idle, Interaction::Hovered, FluxInteraction::Idle),
        FluxInteraction::PointerEnter
    );
}

#[test]
fn signal_is_kept_where_the_table_has_no_entry() {
    assert_eq!(
        update_flux_interaction(
            PrevInteraction::Hovered,
            Interaction::Hovered,
            FluxInteraction::Released
        ),
        FluxInteraction::Released
    );
}

#[test]
fn disabled_is_sticky() {
    for prev in [PrevInteraction::Idle, PrevInteraction::Hovered, PrevInteraction::Pressed] {
        for curr in [Interaction::Idle, Interaction::Hovered, Interaction::Pressed] {
            assert_eq!(
                update_flux_interaction(prev, curr, FluxInteraction::Disabled),
                FluxInteraction::Disabled
            );
        }
    }
}

#[test]
fn previous_state_follows_raw_state() {
    assert_eq!(update_prev_interaction(Interaction::Pressed), PrevInteraction::Pressed);
    assert_eq!(update_prev_interaction(Interaction::Hovered), PrevInteraction::Hovered);
    assert_eq!(update_prev_interaction(Interaction::Idle), PrevInteraction::Idle);
}

#[test]
fn defaults_are_idle() {
    assert_eq!(FluxInteraction::default(), FluxInteraction::Idle);
    assert_eq!(PrevInteraction::default(), PrevInteraction::Idle);
    assert_eq!(Interaction::default(), Interaction::Idle);
    assert_eq!(FluxInteractionConfig::default().max_interaction_duration, 1_000_000);
    let element = TrackedInteraction::default();
    assert_eq!(element.interaction, FluxInteraction::Idle);
    assert_eq!(element.stopwatch.unwrap().0.elapsed(), 0);
}

#[test]
fn stopwatch_ticks_and_saturates() {
    let mut watch = Stopwatch::new();
    watch.tick(250);
    watch.tick(750);
    assert_eq!(watch.elapsed(), 1000);
    watch.tick(u64::MAX);
    assert_eq!(watch.elapsed(), u64::MAX);
    watch.reset();
    assert_eq!(watch.elapsed(), 0);
}

#[test]
fn stale_stopwatch_is_dropped() {
    let config = FluxInteractionConfig::default();
    let fresh = Some(FluxInteractionStopwatch(Stopwatch::from_elapsed(1_000_000)));
    let ticked = tick_flux_interaction_stopwatch(&config, 16_000, fresh);
    assert_eq!(ticked.unwrap().0.elapsed(), 1_016_000);
    let dropped = tick_flux_interaction_stopwatch(&config, 16_000, ticked);
    assert_eq!(dropped, None);
    assert_eq!(tick_flux_interaction_stopwatch(&config, 16_000, None), None);
}

#[test]
fn change_resets_or_creates_the_stopwatch() {
    let running = Some(FluxInteractionStopwatch(Stopwatch::from_elapsed(77)));
    assert_eq!(reset_stopwatch_on_change(running).0.elapsed(), 0);
    assert_eq!(reset_stopwatch_on_change(None).0.elapsed(), 0);
}

#[test]
fn advance_runs_one_frame_of_the_classifier() {
    let config = FluxInteractionConfig::default();
    let mut element = TrackedInteraction::default();
    element.advance(&config, 16_000, Interaction::Idle);
    assert_eq!(element.interaction, FluxInteraction::Idle);
    assert_eq!(element.stopwatch.unwrap().0.elapsed(), 16_000);

    element.advance(&config, 16_000, Interaction::Hovered);
    assert_eq!(element.interaction, FluxInteraction::PointerEnter);
    assert_eq!(element.prev_interaction, PrevInteraction::Hovered);
    assert_eq!(element.stopwatch.unwrap().0.elapsed(), 0);

    element.advance(&config, 16_000, Interaction::Hovered);
    assert_eq!(element.interaction, FluxInteraction::PointerEnter);
    assert_eq!(element.stopwatch.unwrap().0.elapsed(), 16_000);

    element.advance(&config, 16_000, Interaction::Pressed);
    assert_eq!(element.interaction, FluxInteraction::Pressed);
    element.advance(&config, 16_000, Interaction::Hovered);
    assert_eq!(element.interaction, FluxInteraction::Released);
    element.advance(&config, 16_000, Interaction::Idle);
    assert_eq!(element.interaction, FluxInteraction::PointerLeave);
}

#[test]
fn idle_element_loses_its_stopwatch_after_the_ceiling() {
    let config = FluxInteractionConfig { max_interaction_duration: 30_000 };
    let mut element = TrackedInteraction::default();
    element.advance(&config, 20_000, Interaction::Idle);
    element.advance(&config, 20_000, Interaction::Idle);
    assert_eq!(element.stopwatch.unwrap().0.elapsed(), 40_000);
    element.advance(&config, 20_000, Interaction::Idle);
    assert_eq!(element.stopwatch, None);
    element.advance(&config, 20_000, Interaction::Pressed);
    assert_eq!(element.stopwatch.unwrap().0.elapsed(), 0);
}

#[test]
fn disabled_element_keeps_ticking_without_reset() {
    let config = FluxInteractionConfig::default();
    let mut element = TrackedInteraction::default();
    element.interaction = FluxInteraction::Disabled;
    element.advance(&config, 5, Interaction::Pressed);
    assert_eq!(element.interaction, FluxInteraction::Disabled);
    assert_eq!(element.prev_interaction, PrevInteraction::Pressed);
    assert_eq!(element.stopwatch.unwrap().0.elapsed(), 5);
}
