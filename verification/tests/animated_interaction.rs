use sickle_ui::animated_interaction::{
    tween_step, update_animated_interaction_state, AnimatedInteraction, AnimatedInteractionState,
    AnimationConfig, AnimationProgress, TweenStep,
};
use sickle_ui::ease::Ease;
use sickle_ui::flux_interaction::FluxInteraction;
use sickle_ui::units::RATIO_ONE;

fn linear(ratio: i64, _easing: Ease) -> i64 {
    ratio
}

fn config(duration: u64) -> AnimationConfig {
    AnimationConfig { duration, easing: Ease::Linear, out_duration: None, out_easing: None }
}

fn plain(duration: u64) -> AnimatedInteraction {
    AnimatedInteraction {
        tween: config(duration),
        hover: None,
        press: None,
        cancel: None,
        reset_delay: None,
    }
}

#[test]
fn default_animation_configuration() {
    let animation = AnimatedInteraction::default();
    assert_eq!(animation.tween.duration, 100_000);
    assert_eq!(animation.hover, None);
    assert_eq!(animation.press.unwrap().duration, 50_000);
    assert_eq!(animation.press.unwrap().out_duration, Some(0));
    assert_eq!(animation.cancel.unwrap().duration, 100_000);
    assert_eq!(animation.reset_delay, None);
    assert_eq!(AnimationConfig::default(), config(0));
    assert_eq!(AnimationProgress::default(), AnimationProgress::Start);
    assert_eq!(AnimatedInteractionState::default().progress, AnimationProgress::Start);
    assert_eq!(Ease::default(), Ease::Linear);
}

#[test]
fn pressed_eases_over_the_press_duration() {
    let animation = AnimatedInteraction::default();
    assert_eq!(
        tween_step(&animation, FluxInteraction::Pressed, 25_000),
        TweenStep::Ease { ratio: 500_000, easing: Ease::Linear, settles: false }
    );
    assert_eq!(
        update_animated_interaction_state(&animation, FluxInteraction::Pressed, 25_000, linear),
        AnimationProgress::Inbetween(500_000)
    );
}

#[test]
fn pressed_never_settles_into_end() {
    let animation = AnimatedInteraction::default();
    assert_eq!(
        update_animated_interaction_state(&animation, FluxInteraction::Pressed, 80_000, linear),
        AnimationProgress::Inbetween(RATIO_ONE)
    );
}

#[test]
fn released_uses_the_out_duration() {
    let animation = AnimatedInteraction::default();
    assert_eq!(
        update_animated_interaction_state(&animation, FluxInteraction::Released, 10, linear),
        AnimationProgress::End
    );
    let mut slow = AnimatedInteraction::default();
    slow.press = Some(AnimationConfig {
        duration: 50_000,
        easing: Ease::Linear,
        out_duration: Some(200_000),
        out_easing: Some(Ease::OutExpo),
    });
    assert_eq!(
        tween_step(&slow, FluxInteraction::Released, 50_000),
        TweenStep::Ease { ratio: 250_000, easing: Ease::OutExpo, settles: true }
    );
    assert_eq!(
        update_animated_interaction_state(&slow, FluxInteraction::Released, 200_000, linear),
        AnimationProgress::End
    );
}

#[test]
fn hover_falls_back_to_the_base_tween() {
    let animation = AnimatedInteraction::default();
    assert_eq!(
        update_animated_interaction_state(&animation, FluxInteraction::PointerEnter, 30_000, linear),
        AnimationProgress::Inbetween(300_000)
    );
    assert_eq!(
        update_animated_interaction_state(&animation, FluxInteraction::PointerLeave, 100_000, linear),
        AnimationProgress::End
    );
    assert_eq!(
        update_animated_interaction_state(&animation, FluxInteraction::PointerLeave, 99_999, linear),
        AnimationProgress::Inbetween(999_990)
    );
}

#[test]
fn canceled_press_rests_then_returns() {
    let animation = AnimatedInteraction::default();
    assert_eq!(tween_step(&animation, FluxInteraction::PressCanceled, 99_999), TweenStep::Start);
    assert_eq!(
        tween_step(&animation, FluxInteraction::PressCanceled, 150_000),
        TweenStep::Ease { ratio: 500_000, easing: Ease::Linear, settles: true }
    );
    assert_eq!(
        update_animated_interaction_state(&animation, FluxInteraction::PressCanceled, 200_000, linear),
        AnimationProgress::End
    );
    let mut delayed = AnimatedInteraction::default();
    delayed.reset_delay = Some(10_000);
    assert_eq!(tween_step(&delayed, FluxInteraction::PressCanceled, 9_000), TweenStep::Start);
    assert_eq!(
        update_animated_interaction_state(&delayed, FluxInteraction::PressCanceled, 60_000, linear),
        AnimationProgress::Inbetween(500_000)
    );
}

#[test]
fn other_signals_are_at_the_end() {
    let animation = AnimatedInteraction::default();
    for flux in [FluxInteraction::Idle, FluxInteraction::Disabled] {
        assert_eq!(
            update_animated_interaction_state(&animation, flux, 1, linear),
            AnimationProgress::End
        );
    }
}

#[test]
fn zero_duration_ends_on_the_first_tick() {
    let animation = plain(0);
    for flux in [
        FluxInteraction::Pressed,
        FluxInteraction::Released,
        FluxInteraction::PressCanceled,
        FluxInteraction::PointerEnter,
        FluxInteraction::PointerLeave,
        FluxInteraction::Idle,
        FluxInteraction::Disabled,
    ] {
        for elapsed in [0u64, 1, 1_000_000] {
            assert_eq!(
                update_animated_interaction_state(&animation, flux, elapsed, linear),
                AnimationProgress::End
            );
        }
    }
}

#[test]
fn zero_out_duration_never_divides() {
    let mut animation = plain(100_000);
    animation.cancel = Some(AnimationConfig {
        duration: 100_000,
        easing: Ease::Linear,
        out_duration: Some(0),
        out_easing: None,
    });
    assert_eq!(
        update_animated_interaction_state(&animation, FluxInteraction::PressCanceled, 100_000, linear),
        AnimationProgress::End
    );
}

#[test]
fn easing_is_asked_once_with_the_linear_ratio() {
    let animation = plain(200_000);
    let eased = update_animated_interaction_state(
        &animation,
        FluxInteraction::PointerEnter,
        50_000,
        |ratio: i64, easing: Ease| {
            assert_eq!(ratio, 250_000);
            assert_eq!(easing, Ease::Linear);
            ratio * 2
        },
    );
    assert_eq!(eased, AnimationProgress::Inbetween(500_000));
}

#[test]
fn eased_ratio_is_held_between_zero_and_one() {
    let animation = plain(200_000);
    let beyond = |_ratio: i64, _easing: Ease| 1_100_000;
    let below = |_ratio: i64, _easing: Ease| -100_000;
    assert_eq!(
        update_animated_interaction_state(&animation, FluxInteraction::PointerEnter, 50_000, beyond),
        AnimationProgress::End
    );
    assert_eq!(
        update_animated_interaction_state(&animation, FluxInteraction::Pressed, 50_000, beyond),
        AnimationProgress::Inbetween(RATIO_ONE)
    );
    assert_eq!(
        update_animated_interaction_state(&animation, FluxInteraction::PointerEnter, 50_000, below),
        AnimationProgress::Inbetween(0)
    );
    assert_eq!(
        update_animated_interaction_state(&animation, FluxInteraction::Pressed, 50_000, below),
        AnimationProgress::Inbetween(0)
    );
    let open = TweenStep::Ease { ratio: 3, easing: Ease::OutBack, settles: false };
    assert_eq!(open.resolve(i64::MAX), AnimationProgress::Inbetween(RATIO_ONE));
    assert_eq!(open.resolve(i64::MIN), AnimationProgress::Inbetween(0));
}

#[test]
fn resolve_settles_only_where_asked() {
    let settling = TweenStep::Ease { ratio: 3, easing: Ease::Linear, settles: true };
    let open = TweenStep::Ease { ratio: 3, easing: Ease::Linear, settles: false };
    assert_eq!(settling.resolve(RATIO_ONE), AnimationProgress::End);
    assert_eq!(open.resolve(RATIO_ONE), AnimationProgress::Inbetween(RATIO_ONE));
    assert_eq!(settling.resolve(7), AnimationProgress::Inbetween(7));
    assert_eq!(TweenStep::Start.resolve(7), AnimationProgress::Start);
    assert_eq!(TweenStep::End.resolve(7), AnimationProgress::End);
}

#[test]
fn long_elapsed_times_do_not_overflow() {
    let animation = plain(u64::MAX);
    assert_eq!(
        update_animated_interaction_state(&animation, FluxInteraction::PointerEnter, u64::MAX - 1, linear),
        AnimationProgress::Inbetween(999_999)
    );
    assert_eq!(
        update_animated_interaction_state(&animation, FluxInteraction::PointerEnter, u64::MAX, linear),
        AnimationProgress::End
    );
}
