//! Animation progress of an element, from its signal, its stopwatch and its
//! animation configuration.
use vstd::prelude::*;
use crate::ease::Ease;
use crate::flux_interaction::FluxInteraction;
use crate::units::RATIO_ONE;

verus! {

/// Where an animation stands in the current frame.
#[derive(Clone, Copy, Debug, PartialEq, Eq, Structural)]
pub enum AnimationProgress {
    Start,
    /// The eased ratio, in millionths, between zero and one whole.
    Inbetween(i64),
    End,
}

impl AnimationProgress {
    /// The ratio of a progress in between lies between zero and one whole.
    pub open spec fn wf(self) -> bool {
        self matches AnimationProgress::Inbetween(ratio) ==> 0 <= ratio <= RATIO_ONE
    }
}

impl Default for AnimationProgress {
    fn default() -> (r: Self)
        ensures
            r == AnimationProgress::Start,
    {
        AnimationProgress::Start
    }
}

/// Timing of one kind of transition. Durations are in microseconds.
#[derive(Clone, Copy, Debug, PartialEq, Eq, Structural)]
pub struct AnimationConfig {
    pub duration: u64,
    pub easing: Ease,
    pub out_duration: Option<u64>,
    pub out_easing: Option<Ease>,
}

impl Default for AnimationConfig {
    fn default() -> (r: Self)
        ensures
            r == (AnimationConfig {
                duration: 0,
                easing: Ease::Linear,
                out_duration: None,
                out_easing: None,
            }),
    {
        AnimationConfig { duration: 0, easing: Ease::Linear, out_duration: None, out_easing: None }
    }
}

impl AnimationConfig {
    /// Length of the way back: the out duration, or the duration where none is set.
    pub open spec fn out_time(self) -> u64 {
        match self.out_duration {
            Some(d) => d,
            None => self.duration,
        }
    }

    /// Curve of the way back: the out easing, or the easing where none is set.
    pub open spec fn out_ease(self) -> Ease {
        match self.out_easing {
            Some(e) => e,
            None => self.easing,
        }
    }

    fn get_out_time(&self) -> (r: u64)
        ensures
            r == self.out_time(),
    {
        match self.out_duration {
            Some(d) => d,
            None => self.duration,
        }
    }

    fn get_out_ease(&self) -> (r: Ease)
        ensures
            r == self.out_ease(),
    {
        match self.out_easing {
            Some(e) => e,
            None => self.easing,
        }
    }
}

/// The animation state of an element: the progress of the frame.
#[derive(Clone, Copy, Debug, PartialEq, Eq, Structural)]
pub struct AnimatedInteractionState {
    pub progress: AnimationProgress,
}

impl Default for AnimatedInteractionState {
    fn default() -> (r: Self)
        ensures
            r.progress == AnimationProgress::Start,
    {
        AnimatedInteractionState { progress: AnimationProgress::Start }
    }
}

/// Animation configuration of an element: the base tween and the optional
/// overrides per kind of transition.
#[derive(Clone, Copy, Debug, PartialEq, Eq, Structural)]
pub struct AnimatedInteraction {
    pub tween: AnimationConfig,
    pub hover: Option<AnimationConfig>,
    pub press: Option<AnimationConfig>,
    pub cancel: Option<AnimationConfig>,
    /// Microseconds for which a canceled press rests before it animates back.
    pub reset_delay: Option<u64>,
}

impl Default for AnimatedInteraction {
    fn default() -> (r: Self)
        ensures
            r == (AnimatedInteraction {
                tween: AnimationConfig {
                    duration: 100_000,
                    easing: Ease::Linear,
                    out_duration: None,
                    out_easing: None,
                },
                hover: None,
                press: Some(
                    AnimationConfig {
                        duration: 50_000,
                        easing: Ease::Linear,
                        out_duration: Some(0),
                        out_easing: None,
                    },
                ),
                cancel: Some(
                    AnimationConfig {
                        duration: 100_000,
                        easing: Ease::Linear,
                        out_duration: None,
                        out_easing: None,
                    },
                ),
                reset_delay: None,
            }),
    {
        AnimatedInteraction {
            tween: AnimationConfig {
                duration: 100_000,
                easing: Ease::Linear,
                out_duration: None,
                out_easing: None,
            },
            hover: None,
            press: Some(
                AnimationConfig {
                    duration: 50_000,
                    easing: Ease::Linear,
                    out_duration: Some(0),
                    out_easing: None,
                },
            ),
            cancel: Some(
                AnimationConfig {
                    duration: 100_000,
                    easing: Ease::Linear,
                    out_duration: None,
                    out_easing: None,
                },
            ),
            reset_delay: None,
        }
    }
}

/// What remains to be done to know the progress of a frame.
#[derive(Clone, Copy, Debug, PartialEq, Eq, Structural)]
pub enum TweenStep {
    /// The animation rests at its start value.
    Start,
    /// The animation has reached its end value.
    End,
    /// The linear `ratio`, in millionths, has to go through `easing`. Where
    /// `settles` holds, an eased ratio of exactly one whole ends the animation.
    Ease { ratio: i64, easing: Ease, settles: bool },
}

/// The part `elapsed / time` of a tween of `time > 0` microseconds, in
/// millionths, held at one whole.
pub open spec fn linear_ratio(elapsed: u64, time: u64) -> int {
    if elapsed >= time {
        RATIO_ONE as int
    } else {
        (elapsed * RATIO_ONE) / (time as int)
    }
}

/// The tween that a kind of transition runs on: its override, or the base tween.
pub open spec fn effective(kind: Option<AnimationConfig>, base: AnimationConfig) -> AnimationConfig {
    match kind {
        Some(c) => c,
        None => base,
    }
}

/// A step that eases over `time` microseconds, or `End` where `time` is zero.
pub open spec fn ease_over(elapsed: u64, time: u64, easing: Ease, settles: bool) -> TweenStep {
    if time == 0 {
        TweenStep::End
    } else {
        TweenStep::Ease { ratio: linear_ratio(elapsed, time) as i64, easing, settles }
    }
}

/// The step of an element with signal `flux` whose stopwatch reads `elapsed`.
pub open spec fn tween_step_spec(animation: AnimatedInteraction, flux: FluxInteraction, elapsed: u64) -> TweenStep {
    match flux {
        FluxInteraction::Pressed => {
            let tween = effective(animation.press, animation.tween);
            ease_over(elapsed, tween.duration, tween.easing, false)
        },
        FluxInteraction::Released => {
            let tween = effective(animation.press, animation.tween);
            ease_over(elapsed, tween.out_time(), tween.out_ease(), true)
        },
        FluxInteraction::PressCanceled => {
            let tween = effective(animation.cancel, animation.tween);
            let reset_delay = match animation.reset_delay {
                Some(d) => d,
                None => tween.duration,
            };
            if elapsed < reset_delay {
                TweenStep::Start
            } else if tween.duration == 0 {
                TweenStep::End
            } else {
                ease_over((elapsed - reset_delay) as u64, tween.out_time(), tween.out_ease(), true)
            }
        },
        FluxInteraction::PointerEnter => {
            let tween = effective(animation.hover, animation.tween);
            ease_over(elapsed, tween.duration, tween.easing, true)
        },
        FluxInteraction::PointerLeave => {
            let tween = effective(animation.hover, animation.tween);
            ease_over(elapsed, tween.out_time(), tween.out_ease(), true)
        },
        _ => TweenStep::End,
    }
}

/// What a curve returned, held between zero and one whole: a curve that
/// swings below its start or beyond its end rests there for that frame.
pub open spec fn held_ratio(eased: i64) -> i64 {
    if eased < 0 {
        0
    } else if eased > RATIO_ONE {
        RATIO_ONE
    } else {
        eased
    }
}

impl TweenStep {
    /// The progress of the frame, once the easing curve has turned the linear
    /// ratio into `eased`: the eased ratio, held between zero and one whole,
    /// or `End` where a step that settles has reached one whole.
    pub open spec fn resolved(self, eased: i64) -> AnimationProgress {
        match self {
            TweenStep::Start => AnimationProgress::Start,
            TweenStep::End => AnimationProgress::End,
            TweenStep::Ease { ratio, easing, settles } => if settles && held_ratio(eased)
                == RATIO_ONE {
                AnimationProgress::End
            } else {
                AnimationProgress::Inbetween(held_ratio(eased))
            },
        }
    }

    /// Finishes a step with the eased ratio. `eased` is read only by a step
    /// that asked for easing.
    pub fn resolve(self, eased: i64) -> (r: AnimationProgress)
        ensures
            r == self.resolved(eased),
            r.wf(),
    {
        match self {
            TweenStep::Start => AnimationProgress::Start,
            TweenStep::End => AnimationProgress::End,
            TweenStep::Ease { ratio: _, easing: _, settles } => {
                let held: i64 = if eased < 0 {
                    0
                } else if eased > RATIO_ONE {
                    RATIO_ONE
                } else {
                    eased
                };
                if settles && held == RATIO_ONE {
                    AnimationProgress::End
                } else {
                    AnimationProgress::Inbetween(held)
                }
            },
        }
    }
}

fn compute_linear_ratio(elapsed: u64, time: u64) -> (r: i64)
    requires
        time > 0,
    ensures
        r == linear_ratio(elapsed, time),
        0 <= r <= RATIO_ONE,
{
    if elapsed >= time {
        RATIO_ONE
    } else {
        let wide: u128 = (elapsed as u128) * 1_000_000u128;
        let q: u128 = wide / (time as u128);
        assert(q <= RATIO_ONE) by (nonlinear_arith)
            requires
                q == (elapsed * RATIO_ONE) / (time as int),
                0 <= elapsed < time,
                RATIO_ONE == 1_000_000,
        ;
        q as i64
    }
}

fn compute_ease_over(elapsed: u64, time: u64, easing: Ease, settles: bool) -> (r: TweenStep)
    ensures
        r == ease_over(elapsed, time, easing, settles),
        r matches TweenStep::Ease { ratio, .. } ==> 0 <= ratio <= RATIO_ONE,
{
    if time == 0 {
        TweenStep::End
    } else {
        TweenStep::Ease { ratio: compute_linear_ratio(elapsed, time), easing, settles }
    }
}

fn pick(kind: Option<AnimationConfig>, base: AnimationConfig) -> (r: AnimationConfig)
    ensures
        r == effective(kind, base),
{
    match kind {
        Some(c) => c,
        None => base,
    }
}

/// Decides, from the signal and the stopwatch reading, whether the animation
/// rests at its start, has ended, or stands at a linear ratio that still has
/// to be eased. A tween of zero length never asks for easing.
pub fn tween_step(animation: &AnimatedInteraction, flux: FluxInteraction, elapsed: u64) -> (r:
    TweenStep)
    ensures
        r == tween_step_spec(*animation, flux, elapsed),
        r matches TweenStep::Ease { ratio, .. } ==> 0 <= ratio <= RATIO_ONE,
{
    match flux {
        FluxInteraction::Pressed => {
            let tween = pick(animation.press, animation.tween);
            compute_ease_over(elapsed, tween.duration, tween.easing, false)
        },
        FluxInteraction::Released => {
            let tween = pick(animation.press, animation.tween);
            compute_ease_over(elapsed, tween.get_out_time(), tween.get_out_ease(), true)
        },
        FluxInteraction::PressCanceled => {
            let tween = pick(animation.cancel, animation.tween);
            let reset_delay: u64 = match animation.reset_delay {
                Some(d) => d,
                None => tween.duration,
            };
            if elapsed < reset_delay {
                TweenStep::Start
            } else if tween.duration == 0 {
                TweenStep::End
            } else {
                compute_ease_over(
                    elapsed - reset_delay,
                    tween.get_out_time(),
                    tween.get_out_ease(),
                    true,
                )
            }
        },
        FluxInteraction::PointerEnter => {
            let tween = pick(animation.hover, animation.tween);
            compute_ease_over(elapsed, tween.duration, tween.easing, true)
        },
        FluxInteraction::PointerLeave => {
            let tween = pick(animation.hover, animation.tween);
            compute_ease_over(elapsed, tween.get_out_time(), tween.get_out_ease(), true)
        },
        _ => TweenStep::End,
    }
}

/// The progress of the frame for an element with signal `flux` whose
/// stopwatch reads `elapsed`, with `ease` as the evaluator of easing curves.
/// `ease` is called at most once, on a linear ratio between zero and one
/// whole, and only where the step asks for easing. Whatever the curve
/// returns, the ratio of a progress in between lies between zero and one
/// whole.
pub fn update_animated_interaction_state<F: Fn(i64, Ease) -> i64>(
    animation: &AnimatedInteraction,
    flux: FluxInteraction,
    elapsed: u64,
    ease: F,
) -> (r: AnimationProgress)
    requires
        forall|ratio: i64, easing: Ease| 0 <= ratio <= RATIO_ONE ==> call_requires(ease, (ratio, easing)),
    ensures
        match tween_step_spec(*animation, flux, elapsed) {
            TweenStep::Ease { ratio, easing, settles } => exists|eased: i64|
                call_ensures(ease, (ratio, easing), eased) && r == tween_step_spec(
                    *animation,
                    flux,
                    elapsed,
                ).resolved(eased),
            step => r == step.resolved(0),
        },
        r.wf(),
        r matches AnimationProgress::Inbetween(v) ==> 0 <= v <= RATIO_ONE,
{
    let step = tween_step(animation, flux, elapsed);
    match step {
        TweenStep::Ease { ratio, easing, settles: _ } => {
            let eased: i64 = ease(ratio, easing);
            step.resolve(eased)
        },
        _ => step.resolve(0),
    }
}

/// A configuration whose every duration is zero ends on the first frame of
/// any signal, whatever the stopwatch reads and whatever the curve returns.
pub proof fn lemma_zero_duration_ends(
    animation: AnimatedInteraction,
    flux: FluxInteraction,
    elapsed: u64,
    eased: i64,
)
    requires
        ({
            let tween = match flux {
                FluxInteraction::Pressed | FluxInteraction::Released => effective(
                    animation.press,
                    animation.tween,
                ),
                FluxInteraction::PressCanceled => effective(animation.cancel, animation.tween),
                _ => effective(animation.hover, animation.tween),
            };
            &&& tween.duration == 0
            &&& tween.out_duration is Some ==> tween.out_duration == Some(0u64)
            &&& flux == FluxInteraction::PressCanceled && animation.reset_delay is Some
                ==> animation.reset_delay == Some(0u64)
        }),
    ensures
        tween_step_spec(animation, flux, elapsed) == TweenStep::End,
        tween_step_spec(animation, flux, elapsed).resolved(eased) == AnimationProgress::End,
{
}

/// Whatever the configuration, a tween of zero length is never in between:
/// the step that selects it does not ask for easing.
pub proof fn lemma_zero_length_never_inbetween(elapsed: u64, easing: Ease, settles: bool, eased: i64)
    ensures
        ease_over(elapsed, 0, easing, settles).resolved(eased) == AnimationProgress::End,
{
}

/// The ratio of a progress in between lies between zero and one whole,
/// whatever the curve returns.
pub proof fn lemma_progress_ratio_in_range(step: TweenStep, eased: i64)
    ensures
        step.resolved(eased).wf(),
        step.resolved(eased) matches AnimationProgress::Inbetween(v) ==> 0 <= v <= RATIO_ONE,
{
}

} // verus!
