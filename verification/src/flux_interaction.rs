//! From raw pointer states to discrete interaction events.
use vstd::prelude::*;

verus! {

/// The raw pointer state of an element, as the host reports it each frame.
#[derive(Clone, Copy, Debug, PartialEq, Eq, Structural, Hash)]
pub enum Interaction {
    Pressed,
    Hovered,
    Idle,
}

/// The discrete interaction signal of an element.
#[derive(Clone, Copy, Debug, PartialEq, Eq, Structural, Hash)]
pub enum FluxInteraction {
    Idle,
    PointerEnter,
    PointerLeave,
    /// Pressing started, but not completed or cancelled
    Pressed,
    /// Pressing completed over the node
    Released,
    /// Pressing cancelled by releasing outside of node
    PressCanceled,
    Disabled,
}

/// The raw pointer state that the previous change left behind.
#[derive(Clone, Copy, Debug, PartialEq, Eq, Structural, Hash)]
pub enum PrevInteraction {
    Idle,
    Pressed,
    Hovered,
}

impl Default for Interaction {
    fn default() -> (r: Self)
        ensures
            r == Interaction::Idle,
    {
        Interaction::Idle
    }
}

impl Default for FluxInteraction {
    fn default() -> (r: Self)
        ensures
            r == FluxInteraction::Idle,
    {
        FluxInteraction::Idle
    }
}

impl Default for PrevInteraction {
    fn default() -> (r: Self)
        ensures
            r == PrevInteraction::Idle,
    {
        PrevInteraction::Idle
    }
}

/// The entry of the transition table for a change of the raw state from
/// `prev` to `curr`; `None` where the table has no entry.
pub open spec fn flux_transition(prev: PrevInteraction, curr: Interaction) -> Option<
    FluxInteraction,
> {
    match (prev, curr) {
        (PrevInteraction::Idle, Interaction::Hovered) => Some(FluxInteraction::PointerEnter),
        (PrevInteraction::Idle, Interaction::Pressed) => Some(FluxInteraction::Pressed),
        (PrevInteraction::Hovered, Interaction::Pressed) => Some(FluxInteraction::Pressed),
        (PrevInteraction::Hovered, Interaction::Idle) => Some(FluxInteraction::PointerLeave),
        (PrevInteraction::Pressed, Interaction::Idle) => Some(FluxInteraction::PressCanceled),
        (PrevInteraction::Pressed, Interaction::Hovered) => Some(FluxInteraction::Released),
        _ => None,
    }
}

/// Whether a change of the raw state to `curr` writes the signal of an
/// element whose signal is `flux`.
pub open spec fn flux_changes(prev: PrevInteraction, curr: Interaction, flux: FluxInteraction) -> bool {
    flux != FluxInteraction::Disabled && flux_transition(prev, curr).is_some()
}

/// The signal after a change of the raw state from `prev` to `curr`.
pub open spec fn next_flux(prev: PrevInteraction, curr: Interaction, flux: FluxInteraction) -> FluxInteraction {
    if flux_changes(prev, curr, flux) {
        flux_transition(prev, curr).unwrap()
    } else {
        flux
    }
}

/// The remembered raw state after the raw state became `curr`.
pub open spec fn next_prev(curr: Interaction) -> PrevInteraction {
    match curr {
        Interaction::Pressed => PrevInteraction::Pressed,
        Interaction::Hovered => PrevInteraction::Hovered,
        Interaction::Idle => PrevInteraction::Idle,
    }
}

/// Looks a raw-state change up in the transition table.
pub fn transition(prev: PrevInteraction, curr: Interaction) -> (r: Option<FluxInteraction>)
    ensures
        r == flux_transition(prev, curr),
{
    match prev {
        PrevInteraction::Idle => match curr {
            Interaction::Hovered => Some(FluxInteraction::PointerEnter),
            Interaction::Pressed => Some(FluxInteraction::Pressed),
            Interaction::Idle => None,
        },
        PrevInteraction::Hovered => match curr {
            Interaction::Pressed => Some(FluxInteraction::Pressed),
            Interaction::Idle => Some(FluxInteraction::PointerLeave),
            Interaction::Hovered => None,
        },
        PrevInteraction::Pressed => match curr {
            Interaction::Idle => Some(FluxInteraction::PressCanceled),
            Interaction::Hovered => Some(FluxInteraction::Released),
            Interaction::Pressed => None,
        },
    }
}

/// The signal of an element whose raw state changed from `prev` to `curr`.
/// A disabled element keeps its signal whatever the change.
pub fn update_flux_interaction(prev: PrevInteraction, curr: Interaction, flux: FluxInteraction) -> (r:
    FluxInteraction)
    ensures
        r == next_flux(prev, curr, flux),
        flux == FluxInteraction::Disabled ==> r == FluxInteraction::Disabled,
{
    if flux == FluxInteraction::Disabled {
        return flux;
    }
    match transition(prev, curr) {
        Some(next) => next,
        None => flux,
    }
}

/// The raw state to remember once the raw state became `curr`.
pub fn update_prev_interaction(curr: Interaction) -> (r: PrevInteraction)
    ensures
        r == next_prev(curr),
{
    match curr {
        Interaction::Pressed => PrevInteraction::Pressed,
        Interaction::Hovered => PrevInteraction::Hovered,
        Interaction::Idle => PrevInteraction::Idle,
    }
}

/// The transition table, pair by pair: a disabled element stays disabled
/// under every change of the raw state, and any other element takes the
/// signal that the pair of the remembered and the new raw state selects, or
/// keeps its signal where the pair selects none.
pub proof fn lemma_flux_transition_table(prev: PrevInteraction, curr: Interaction, flux: FluxInteraction)
    ensures
        next_flux(prev, curr, FluxInteraction::Disabled) == FluxInteraction::Disabled,
        flux != FluxInteraction::Disabled ==> next_flux(prev, curr, flux) == match (prev, curr) {
            (PrevInteraction::Idle, Interaction::Idle) => flux,
            (PrevInteraction::Idle, Interaction::Hovered) => FluxInteraction::PointerEnter,
            (PrevInteraction::Idle, Interaction::Pressed) => FluxInteraction::Pressed,
            (PrevInteraction::Hovered, Interaction::Idle) => FluxInteraction::PointerLeave,
            (PrevInteraction::Hovered, Interaction::Hovered) => flux,
            (PrevInteraction::Hovered, Interaction::Pressed) => FluxInteraction::Pressed,
            (PrevInteraction::Pressed, Interaction::Idle) => FluxInteraction::PressCanceled,
            (PrevInteraction::Pressed, Interaction::Hovered) => FluxInteraction::Released,
            (PrevInteraction::Pressed, Interaction::Pressed) => flux,
        },
        flux != FluxInteraction::Disabled ==> next_flux(prev, curr, flux) != FluxInteraction::Disabled,
{
}

/// The ceiling on the age of an element's stopwatch.
#[derive(Clone, Copy, Debug, PartialEq, Eq, Structural)]
pub struct FluxInteractionConfig {
    /// Microseconds after which an untouched stopwatch is dropped.
    pub max_interaction_duration: u64,
}

impl Default for FluxInteractionConfig {
    fn default() -> (r: Self)
        ensures
            r.max_interaction_duration == 1_000_000,
    {
        FluxInteractionConfig { max_interaction_duration: 1_000_000 }
    }
}

/// Time since it was last reset, in microseconds.
#[derive(Clone, Copy, Debug, PartialEq, Eq, Structural)]
pub struct Stopwatch {
    elapsed: u64,
}

impl Stopwatch {
    pub closed spec fn elapsed_spec(self) -> u64 {
        self.elapsed
    }

    /// A stopwatch at zero.
    pub fn new() -> (r: Stopwatch)
        ensures
            r.elapsed_spec() == 0,
    {
        Stopwatch { elapsed: 0 }
    }

    /// A stopwatch that has run for `elapsed` microseconds.
    pub fn from_elapsed(elapsed: u64) -> (r: Stopwatch)
        ensures
            r.elapsed_spec() == elapsed,
    {
        Stopwatch { elapsed }
    }

    #[verifier::when_used_as_spec(elapsed_spec)]
    pub fn elapsed(self) -> (r: u64)
        ensures
            r == self.elapsed_spec(),
    {
        self.elapsed
    }

    /// Lets `delta` microseconds pass; the count stops at `u64::MAX`.
    pub fn tick(&mut self, delta: u64)
        ensures
            final(self).elapsed_spec() == if old(self).elapsed_spec() + delta > u64::MAX {
                u64::MAX
            } else {
                (old(self).elapsed_spec() + delta) as u64
            },
    {
        self.elapsed = if delta > u64::MAX - self.elapsed {
            u64::MAX
        } else {
            self.elapsed + delta
        };
    }

    pub fn reset(&mut self)
        ensures
            final(self).elapsed_spec() == 0,
    {
        self.elapsed = 0;
    }
}

/// The stopwatch of one element: time since its signal last changed.
#[derive(Clone, Copy, Debug, PartialEq, Eq, Structural)]
pub struct FluxInteractionStopwatch(pub Stopwatch);

impl Default for FluxInteractionStopwatch {
    fn default() -> (r: Self)
        ensures
            r.0.elapsed_spec() == 0,
    {
        FluxInteractionStopwatch(Stopwatch::new())
    }
}

/// What an interactive element carries: its signal, the raw state that it
/// remembers, and its stopwatch while it has one.
#[derive(Clone, Copy, Debug, PartialEq, Eq, Structural)]
pub struct TrackedInteraction {
    pub interaction: FluxInteraction,
    pub prev_interaction: PrevInteraction,
    pub stopwatch: Option<FluxInteractionStopwatch>,
}

impl Default for TrackedInteraction {
    fn default() -> (r: Self)
        ensures
            r.interaction == FluxInteraction::Idle,
            r.prev_interaction == PrevInteraction::Idle,
            r.stopwatch.is_some(),
            r.stopwatch.unwrap().0.elapsed_spec() == 0,
    {
        TrackedInteraction {
            interaction: FluxInteraction::Idle,
            prev_interaction: PrevInteraction::Idle,
            stopwatch: Some(FluxInteractionStopwatch(Stopwatch::new())),
        }
    }
}

/// The microseconds on a stopwatch after `delta` more have passed.
pub open spec fn ticked(elapsed: u64, delta: u64) -> u64 {
    if elapsed + delta > u64::MAX {
        u64::MAX
    } else {
        (elapsed + delta) as u64
    }
}

/// The reading of an element's stopwatch after the tick of one frame: a
/// stopwatch older than the ceiling is dropped, any other runs on by `delta`.
pub open spec fn ticked_stopwatch(
    config: FluxInteractionConfig,
    delta: u64,
    elapsed: Option<u64>,
) -> Option<u64> {
    match elapsed {
        Some(e) => if e > config.max_interaction_duration {
            None
        } else {
            Some(ticked(e, delta))
        },
        None => None,
    }
}

/// The reading of a stopwatch, where there is one.
pub open spec fn reading(stopwatch: Option<FluxInteractionStopwatch>) -> Option<u64> {
    match stopwatch {
        Some(s) => Some(s.0.elapsed_spec()),
        None => None,
    }
}

/// Advances the stopwatch of one element by the frame's `delta`, or drops it
/// once it is older than the configured ceiling.
pub fn tick_flux_interaction_stopwatch(
    config: &FluxInteractionConfig,
    delta: u64,
    stopwatch: Option<FluxInteractionStopwatch>,
) -> (r: Option<FluxInteractionStopwatch>)
    ensures
        reading(r) == ticked_stopwatch(*config, delta, reading(stopwatch)),
{
    match stopwatch {
        Some(s) => {
            if s.0.elapsed() > config.max_interaction_duration {
                None
            } else {
                let mut inner = s.0;
                inner.tick(delta);
                Some(FluxInteractionStopwatch(inner))
            }
        },
        None => None,
    }
}

/// The stopwatch of an element whose signal has just changed: the one it had
/// set back to zero, or a fresh one.
pub fn reset_stopwatch_on_change(stopwatch: Option<FluxInteractionStopwatch>) -> (r:
    FluxInteractionStopwatch)
    ensures
        r.0.elapsed_spec() == 0,
{
    match stopwatch {
        Some(s) => {
            let mut inner = s.0;
            inner.reset();
            FluxInteractionStopwatch(inner)
        },
        None => FluxInteractionStopwatch::default(),
    }
}

impl TrackedInteraction {
    /// The element after one frame in which its raw state is `curr`.
    pub open spec fn advanced(
        self,
        config: FluxInteractionConfig,
        delta: u64,
        curr: Interaction,
    ) -> (Option<u64>, FluxInteraction, PrevInteraction) {
        (
            if flux_changes(self.prev_interaction, curr, self.interaction) {
                Some(0u64)
            } else {
                ticked_stopwatch(config, delta, reading(self.stopwatch))
            },
            next_flux(self.prev_interaction, curr, self.interaction),
            next_prev(curr),
        )
    }

    /// One frame of the classifier for this element: the stopwatch ticks or is
    /// dropped, the signal follows the transition table, a written signal
    /// sets the stopwatch to zero, and the raw state is remembered.
    pub fn advance(&mut self, config: &FluxInteractionConfig, delta: u64, curr: Interaction)
        ensures
            (reading(final(self).stopwatch), final(self).interaction, final(self).prev_interaction)
                == old(self).advanced(*config, delta, curr),
    {
        let ticked = tick_flux_interaction_stopwatch(config, delta, self.stopwatch);
        let written = self.interaction != FluxInteraction::Disabled && transition(
            self.prev_interaction,
            curr,
        ).is_some();
        self.interaction = update_flux_interaction(self.prev_interaction, curr, self.interaction);
        self.stopwatch = if written {
            Some(reset_stopwatch_on_change(ticked))
        } else {
            ticked
        };
        self.prev_interaction = update_prev_interaction(curr);
    }
}

} // verus!
