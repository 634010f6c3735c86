//! The controller that binds a property of an element to its interaction
//! signal.
use vstd::prelude::*;
use crate::animated_interaction::{AnimatedInteractionState, AnimationProgress};
use crate::flux_interaction::FluxInteraction;
use crate::lerp::Lerp;
use crate::style::{BackgroundColor, BorderColor, Color, Style, UiRect, Val};

verus! {

/// The target values of a controlled property, per interaction.
pub trait InteractionConfig: Sized {
    type TargetType;

    spec fn highlight_spec(&self) -> Option<Self::TargetType>;

    spec fn pressed_spec(&self) -> Option<Self::TargetType>;

    spec fn cancel_spec(&self) -> Option<Self::TargetType>;

    fn new(
        highlight: Option<Self::TargetType>,
        pressed: Option<Self::TargetType>,
        cancel: Option<Self::TargetType>,
    ) -> (r: Self)
        ensures
            r.highlight_spec() == highlight,
            r.pressed_spec() == pressed,
            r.cancel_spec() == cancel,
    ;

    /// The value while the pointer is over the element.
    fn highlight(&self) -> (r: Option<Self::TargetType>)
        ensures
            r == self.highlight_spec(),
    ;

    /// The value while the element is pressed.
    fn pressed(&self) -> (r: Option<Self::TargetType>)
        ensures
            r == self.pressed_spec(),
    ;

    /// The value from which a canceled press returns.
    fn cancel(&self) -> (r: Option<Self::TargetType>)
        ensures
            r == self.cancel_spec(),
    ;
}

/// What the controller remembers of a controlled property.
pub trait InteractionState: Sized {
    type TargetType;

    spec fn original_spec(&self) -> Self::TargetType;

    spec fn transition_base_spec(&self) -> Self::TargetType;

    /// The value of the property before any interaction began.
    fn original(&self) -> (r: Self::TargetType)
        ensures
            r == self.original_spec(),
    ;

    /// The value from which a press starts.
    fn transition_base(&self) -> (r: Self::TargetType)
        ensures
            r == self.transition_base_spec(),
    ;

    fn set_original(&mut self, from: Self::TargetType)
        ensures
            final(self).original_spec() == from,
            final(self).transition_base_spec() == old(self).transition_base_spec(),
    ;

    fn set_transition_base(&mut self, from: Self::TargetType)
        ensures
            final(self).transition_base_spec() == from,
            final(self).original_spec() == old(self).original_spec(),
    ;
}

/// How the controller reads and writes the property of the element it
/// controls.
pub trait ComponentController {
    type TargetType;

    type InteractionState: crate::interactions::InteractionState<TargetType = Self::TargetType>;

    type ControlledComponent;

    /// The controlled property of a component.
    spec fn value_of(from: &Self::ControlledComponent) -> Self::TargetType;

    /// The state of a controller that starts on `from`.
    fn state(from: &Self::ControlledComponent) -> (r: Self::InteractionState)
        ensures
            r.original_spec() == Self::value_of(from),
            r.transition_base_spec() == Self::value_of(from),
    ;

    fn extract_value(from: &Self::ControlledComponent) -> (r: Self::TargetType)
        ensures
            r == Self::value_of(from),
    ;

    /// Sets the property to `new_value`, leaving a component alone that holds
    /// it already; says whether the component was written.
    fn update_controlled_component(
        controlled_component: &mut Self::ControlledComponent,
        new_value: Self::TargetType,
    ) -> (written: bool)
        ensures
            Self::value_of(final(controlled_component)) == new_value,
            written == (Self::value_of(old(controlled_component)) != new_value),
            !written ==> *final(controlled_component) == *old(controlled_component),
    ;
}

/// The value from which the transition of `flux` starts, where it has one.
pub open spec fn start_value<R>(
    highlight: Option<R>,
    pressed: Option<R>,
    cancel: Option<R>,
    original: R,
    transition_base: R,
    flux: FluxInteraction,
) -> Option<R> {
    match flux {
        FluxInteraction::Pressed => Some(transition_base),
        FluxInteraction::Released => pressed,
        FluxInteraction::PressCanceled => cancel,
        FluxInteraction::PointerEnter => Some(original),
        FluxInteraction::PointerLeave => highlight,
        _ => None,
    }
}

/// The value at which the transition of `flux` ends, or `None` where the
/// configuration gives the transition no effect.
pub open spec fn end_value<R>(
    highlight: Option<R>,
    pressed: Option<R>,
    original: R,
    flux: FluxInteraction,
) -> Option<R> {
    match flux {
        FluxInteraction::Pressed => pressed,
        FluxInteraction::Released => match highlight {
            Some(h) => Some(h),
            None => Some(original),
        },
        FluxInteraction::PointerEnter => highlight,
        FluxInteraction::PointerLeave => match highlight {
            Some(_) => Some(original),
            None => None,
        },
        _ => Some(original),
    }
}

/// The value of the controlled property in this frame, or `None` where it
/// is to be left as it is. Without an animation, or without a start value,
/// the property takes the end value at once.
pub open spec fn interaction_result<R: Lerp>(
    highlight: Option<R>,
    pressed: Option<R>,
    cancel: Option<R>,
    original: R,
    transition_base: R,
    flux: FluxInteraction,
    progress: Option<AnimationProgress>,
) -> Option<R> {
    match end_value(highlight, pressed, original, flux) {
        None => None,
        Some(end) => match (
            progress,
            start_value(highlight, pressed, cancel, original, transition_base, flux),
        ) {
            (Some(AnimationProgress::Start), Some(start)) => Some(start),
            (Some(AnimationProgress::Inbetween(t)), Some(start)) => Some(start.lerp_spec(end, t)),
            _ => Some(end),
        },
    }
}

/// The progress that an animation state holds, where there is one.
pub open spec fn progress_of(animation_state: Option<&AnimatedInteractionState>) -> Option<
    AnimationProgress,
> {
    match animation_state {
        Some(s) => Some(s.progress),
        None => None,
    }
}

/// Computes the value that the controlled property takes in this frame.
pub fn calculate_interaction_result<T, S, R>(
    interaction_config: &T,
    transient_state: &S,
    flux_interaction: &FluxInteraction,
    animation_state: Option<&AnimatedInteractionState>,
) -> (r: Option<R>) where
    T: InteractionConfig<TargetType = R>,
    S: InteractionState<TargetType = R>,
    R: Lerp,

    ensures
        r == interaction_result(
            interaction_config.highlight_spec(),
            interaction_config.pressed_spec(),
            interaction_config.cancel_spec(),
            transient_state.original_spec(),
            transient_state.transition_base_spec(),
            *flux_interaction,
            progress_of(animation_state),
        ),
{
    let original_value = transient_state.original();

    let (start_value, end_value) = match *flux_interaction {
        FluxInteraction::Pressed => {
            let Some(pressed_value) = interaction_config.pressed() else {
                return None;
            };

            (Some(transient_state.transition_base()), pressed_value)
        },
        FluxInteraction::Released => {
            let end_value = match interaction_config.highlight() {
                Some(h) => h,
                None => original_value,
            };

            (interaction_config.pressed(), end_value)
        },
        FluxInteraction::PressCanceled => (interaction_config.cancel(), original_value),
        FluxInteraction::PointerEnter => {
            let Some(highlight_value) = interaction_config.highlight() else {
                return None;
            };

            (Some(original_value), highlight_value)
        },
        FluxInteraction::PointerLeave => {
            let Some(highlight_value) = interaction_config.highlight() else {
                return None;
            };

            (Some(highlight_value), original_value)
        },
        _ => (None, original_value),
    };

    let new_value = match (animation_state, start_value) {
        (Some(state), Some(start_value)) => match state.progress {
            AnimationProgress::Start => start_value,
            AnimationProgress::Inbetween(tween_ratio) => start_value.lerp(end_value, tween_ratio),
            AnimationProgress::End => end_value,
        },
        _ => end_value,
    };

    Some(new_value)
}

/// Refreshes the value from which a press starts: on `Pressed` the state
/// takes the current value of the controlled property.
pub fn update_transition_base_state<I, S, C, R>(
    controlled_component: &C,
    state: &mut S,
    interaction: &FluxInteraction,
) where
    S: InteractionState<TargetType = R>,
    I: ComponentController<InteractionState = S, TargetType = R, ControlledComponent = C>,

    ensures
        final(state).original_spec() == old(state).original_spec(),
        final(state).transition_base_spec() == if *interaction == FluxInteraction::Pressed {
            I::value_of(controlled_component)
        } else {
            old(state).transition_base_spec()
        },
{
    if *interaction == FluxInteraction::Pressed {
        state.set_transition_base(I::extract_value(controlled_component));
    }
}

/// Applies the frame's value to the controlled component. The component is
/// written only where the frame has a value for it and it does not hold that
/// value yet; the result says whether it was.
pub fn update_controlled_component<I, S, C, R>(
    interaction_config: &I,
    transient_state: &S,
    flux_interaction: &FluxInteraction,
    animation_state: Option<&AnimatedInteractionState>,
    controlled_component: &mut C,
) -> (written: bool) where
    I: InteractionConfig<TargetType = R> + ComponentController<
        InteractionState = S,
        TargetType = R,
        ControlledComponent = C,
    >,
    S: InteractionState<TargetType = R>,
    R: Lerp,

    ensures
        ({
            let value = interaction_result(
                interaction_config.highlight_spec(),
                interaction_config.pressed_spec(),
                interaction_config.cancel_spec(),
                transient_state.original_spec(),
                transient_state.transition_base_spec(),
                *flux_interaction,
                progress_of(animation_state),
            );
            match value {
                Some(v) => {
                    &&& I::value_of(final(controlled_component)) == v
                    &&& written == (I::value_of(old(controlled_component)) != v)
                },
                None => !written,
            }
        }),
        !written ==> *final(controlled_component) == *old(controlled_component),
{
    match calculate_interaction_result(
        interaction_config,
        transient_state,
        flux_interaction,
        animation_state,
    ) {
        Some(new_value) => I::update_controlled_component(controlled_component, new_value),
        None => false,
    }
}

/// Target values for the background colour of an element.
#[derive(Clone, Copy, Debug, PartialEq, Eq, Structural)]
pub struct InteractiveBackground {
    pub highlight: Option<Color>,
    pub pressed: Option<Color>,
    pub cancel: Option<Color>,
}

impl Default for InteractiveBackground {
    fn default() -> (r: Self)
        ensures
            r == (InteractiveBackground { highlight: None, pressed: None, cancel: None }),
    {
        InteractiveBackground { highlight: None, pressed: None, cancel: None }
    }
}

impl InteractionConfig for InteractiveBackground {
    type TargetType = Color;

    open spec fn highlight_spec(&self) -> Option<Color> {
        self.highlight
    }

    open spec fn pressed_spec(&self) -> Option<Color> {
        self.pressed
    }

    open spec fn cancel_spec(&self) -> Option<Color> {
        self.cancel
    }

    fn new(highlight: Option<Color>, pressed: Option<Color>, cancel: Option<Color>) -> (r: Self) {
        InteractiveBackground { highlight, pressed, cancel }
    }

    fn highlight(&self) -> (r: Option<Color>) {
        self.highlight
    }

    fn pressed(&self) -> (r: Option<Color>) {
        self.pressed
    }

    fn cancel(&self) -> (r: Option<Color>) {
        self.cancel
    }
}

/// What the controller of the background colour remembers.
#[derive(Clone, Copy, Debug, PartialEq, Eq, Structural)]
pub struct InteractiveBackgroundState {
    original: Color,
    transition_base: Color,
}

impl InteractionState for InteractiveBackgroundState {
    type TargetType = Color;

    closed spec fn original_spec(&self) -> Color {
        self.original
    }

    closed spec fn transition_base_spec(&self) -> Color {
        self.transition_base
    }

    fn original(&self) -> (r: Color) {
        self.original
    }

    fn transition_base(&self) -> (r: Color) {
        self.transition_base
    }

    fn set_original(&mut self, from: Color) {
        self.original = from;
    }

    fn set_transition_base(&mut self, from: Color) {
        self.transition_base = from;
    }
}

impl ComponentController for InteractiveBackground {
    type TargetType = Color;

    type InteractionState = InteractiveBackgroundState;

    type ControlledComponent = BackgroundColor;

    open spec fn value_of(from: &BackgroundColor) -> Color {
        from.0
    }

    fn state(from: &BackgroundColor) -> (r: InteractiveBackgroundState) {
        InteractiveBackgroundState { original: from.0, transition_base: from.0 }
    }

    fn extract_value(from: &BackgroundColor) -> (r: Color) {
        from.0
    }

    fn update_controlled_component(controlled_component: &mut BackgroundColor, new_value: Color) -> (written:
        bool) {
        let written = controlled_component.0 != new_value;
        if written {
            controlled_component.0 = new_value;
        }
        written
    }
}

/// Target values for the border widths of an element.
#[derive(Clone, Copy, Debug, PartialEq, Eq, Structural)]
pub struct InteractiveBorderSize {
    pub highlight: Option<UiRect>,
    pub pressed: Option<UiRect>,
    pub cancel: Option<UiRect>,
}

impl Default for InteractiveBorderSize {
    fn default() -> (r: Self)
        ensures
            r == (InteractiveBorderSize { highlight: None, pressed: None, cancel: None }),
    {
        InteractiveBorderSize { highlight: None, pressed: None, cancel: None }
    }
}

impl InteractionConfig for InteractiveBorderSize {
    type TargetType = UiRect;

    open spec fn highlight_spec(&self) -> Option<UiRect> {
        self.highlight
    }

    open spec fn pressed_spec(&self) -> Option<UiRect> {
        self.pressed
    }

    open spec fn cancel_spec(&self) -> Option<UiRect> {
        self.cancel
    }

    fn new(highlight: Option<UiRect>, pressed: Option<UiRect>, cancel: Option<UiRect>) -> (r: Self) {
        InteractiveBorderSize { highlight, pressed, cancel }
    }

    fn highlight(&self) -> (r: Option<UiRect>) {
        self.highlight
    }

    fn pressed(&self) -> (r: Option<UiRect>) {
        self.pressed
    }

    fn cancel(&self) -> (r: Option<UiRect>) {
        self.cancel
    }
}

/// What the controller of the border widths remembers.
#[derive(Clone, Copy, Debug, PartialEq, Eq, Structural)]
pub struct InteractiveBorderSizeState {
    original: UiRect,
    transition_base: UiRect,
}

impl InteractionState for InteractiveBorderSizeState {
    type TargetType = UiRect;

    closed spec fn original_spec(&self) -> UiRect {
        self.original
    }

    closed spec fn transition_base_spec(&self) -> UiRect {
        self.transition_base
    }

    fn original(&self) -> (r: UiRect) {
        self.original
    }

    fn transition_base(&self) -> (r: UiRect) {
        self.transition_base
    }

    fn set_original(&mut self, from: UiRect) {
        self.original = from;
    }

    fn set_transition_base(&mut self, from: UiRect) {
        self.transition_base = from;
    }
}

impl ComponentController for InteractiveBorderSize {
    type TargetType = UiRect;

    type InteractionState = InteractiveBorderSizeState;

    type ControlledComponent = Style;

    open spec fn value_of(from: &Style) -> UiRect {
        from.border
    }

    fn state(from: &Style) -> (r: InteractiveBorderSizeState) {
        InteractiveBorderSizeState { original: from.border, transition_base: from.border }
    }

    fn extract_value(from: &Style) -> (r: UiRect) {
        from.border
    }

    fn update_controlled_component(controlled_component: &mut Style, new_value: UiRect) -> (written:
        bool) {
        let written = controlled_component.border != new_value;
        if written {
            controlled_component.border = new_value;
        }
        written
    }
}

/// Target values for the border colour of an element.
#[derive(Clone, Copy, Debug, PartialEq, Eq, Structural)]
pub struct InteractiveBorderColor {
    pub highlight: Option<Color>,
    pub pressed: Option<Color>,
    pub cancel: Option<Color>,
}

impl Default for InteractiveBorderColor {
    fn default() -> (r: Self)
        ensures
            r == (InteractiveBorderColor { highlight: None, pressed: None, cancel: None }),
    {
        InteractiveBorderColor { highlight: None, pressed: None, cancel: None }
    }
}

impl InteractionConfig for InteractiveBorderColor {
    type TargetType = Color;

    open spec fn highlight_spec(&self) -> Option<Color> {
        self.highlight
    }

    open spec fn pressed_spec(&self) -> Option<Color> {
        self.pressed
    }

    open spec fn cancel_spec(&self) -> Option<Color> {
        self.cancel
    }

    fn new(highlight: Option<Color>, pressed: Option<Color>, cancel: Option<Color>) -> (r: Self) {
        InteractiveBorderColor { highlight, pressed, cancel }
    }

    fn highlight(&self) -> (r: Option<Color>) {
        self.highlight
    }

    fn pressed(&self) -> (r: Option<Color>) {
        self.pressed
    }

    fn cancel(&self) -> (r: Option<Color>) {
        self.cancel
    }
}

/// What the controller of the border colour remembers.
#[derive(Clone, Copy, Debug, PartialEq, Eq, Structural)]
pub struct InteractiveBorderColorState {
    original: Color,
    transition_base: Color,
}

impl InteractionState for InteractiveBorderColorState {
    type TargetType = Color;

    closed spec fn original_spec(&self) -> Color {
        self.original
    }

    closed spec fn transition_base_spec(&self) -> Color {
        self.transition_base
    }

    fn original(&self) -> (r: Color) {
        self.original
    }

    fn transition_base(&self) -> (r: Color) {
        self.transition_base
    }

    fn set_original(&mut self, from: Color) {
        self.original = from;
    }

    fn set_transition_base(&mut self, from: Color) {
        self.transition_base = from;
    }
}

impl ComponentController for InteractiveBorderColor {
    type TargetType = Color;

    type InteractionState = InteractiveBorderColorState;

    type ControlledComponent = BorderColor;

    open spec fn value_of(from: &BorderColor) -> Color {
        from.0
    }

    fn state(from: &BorderColor) -> (r: InteractiveBorderColorState) {
        InteractiveBorderColorState { original: from.0, transition_base: from.0 }
    }

    fn extract_value(from: &BorderColor) -> (r: Color) {
        from.0
    }

    fn update_controlled_component(controlled_component: &mut BorderColor, new_value: Color) -> (written:
        bool) {
        let written = controlled_component.0 != new_value;
        if written {
            controlled_component.0 = new_value;
        }
        written
    }
}

/// Target values for the margins of an element.
#[derive(Clone, Copy, Debug, PartialEq, Eq, Structural)]
pub struct InteractiveMargin {
    pub highlight: Option<UiRect>,
    pub pressed: Option<UiRect>,
    pub cancel: Option<UiRect>,
}

impl Default for InteractiveMargin {
    fn default() -> (r: Self)
        ensures
            r == (InteractiveMargin { highlight: None, pressed: None, cancel: None }),
    {
        InteractiveMargin { highlight: None, pressed: None, cancel: None }
    }
}

impl InteractionConfig for InteractiveMargin {
    type TargetType = UiRect;

    open spec fn highlight_spec(&self) -> Option<UiRect> {
        self.highlight
    }

    open spec fn pressed_spec(&self) -> Option<UiRect> {
        self.pressed
    }

    open spec fn cancel_spec(&self) -> Option<UiRect> {
        self.cancel
    }

    fn new(highlight: Option<UiRect>, pressed: Option<UiRect>, cancel: Option<UiRect>) -> (r: Self) {
        InteractiveMargin { highlight, pressed, cancel }
    }

    fn highlight(&self) -> (r: Option<UiRect>) {
        self.highlight
    }

    fn pressed(&self) -> (r: Option<UiRect>) {
        self.pressed
    }

    fn cancel(&self) -> (r: Option<UiRect>) {
        self.cancel
    }
}

/// What the controller of the margins remembers.
#[derive(Clone, Copy, Debug, PartialEq, Eq, Structural)]
pub struct InteractiveMarginState {
    original: UiRect,
    transition_base: UiRect,
}

impl InteractionState for InteractiveMarginState {
    type TargetType = UiRect;

    closed spec fn original_spec(&self) -> UiRect {
        self.original
    }

    closed spec fn transition_base_spec(&self) -> UiRect {
        self.transition_base
    }

    fn original(&self) -> (r: UiRect) {
        self.original
    }

    fn transition_base(&self) -> (r: UiRect) {
        self.transition_base
    }

    fn set_original(&mut self, from: UiRect) {
        self.original = from;
    }

    fn set_transition_base(&mut self, from: UiRect) {
        self.transition_base = from;
    }
}

impl ComponentController for InteractiveMargin {
    type TargetType = UiRect;

    type InteractionState = InteractiveMarginState;

    type ControlledComponent = Style;

    open spec fn value_of(from: &Style) -> UiRect {
        from.margin
    }

    fn state(from: &Style) -> (r: InteractiveMarginState) {
        InteractiveMarginState { original: from.margin, transition_base: from.margin }
    }

    fn extract_value(from: &Style) -> (r: UiRect) {
        from.margin
    }

    fn update_controlled_component(controlled_component: &mut Style, new_value: UiRect) -> (written:
        bool) {
        let written = controlled_component.margin != new_value;
        if written {
            controlled_component.margin = new_value;
        }
        written
    }
}

/// Target values for the height of an element.
#[derive(Clone, Copy, Debug, PartialEq, Eq, Structural)]
pub struct InteractiveHeight {
    pub highlight: Option<Val>,
    pub pressed: Option<Val>,
    pub cancel: Option<Val>,
}

impl Default for InteractiveHeight {
    fn default() -> (r: Self)
        ensures
            r == (InteractiveHeight { highlight: None, pressed: None, cancel: None }),
    {
        InteractiveHeight { highlight: None, pressed: None, cancel: None }
    }
}

impl InteractionConfig for InteractiveHeight {
    type TargetType = Val;

    open spec fn highlight_spec(&self) -> Option<Val> {
        self.highlight
    }

    open spec fn pressed_spec(&self) -> Option<Val> {
        self.pressed
    }

    open spec fn cancel_spec(&self) -> Option<Val> {
        self.cancel
    }

    fn new(highlight: Option<Val>, pressed: Option<Val>, cancel: Option<Val>) -> (r: Self) {
        InteractiveHeight { highlight, pressed, cancel }
    }

    fn highlight(&self) -> (r: Option<Val>) {
        self.highlight
    }

    fn pressed(&self) -> (r: Option<Val>) {
        self.pressed
    }

    fn cancel(&self) -> (r: Option<Val>) {
        self.cancel
    }
}

/// What the controller of the height remembers.
#[derive(Clone, Copy, Debug, PartialEq, Eq, Structural)]
pub struct InteractiveHeightState {
    original: Val,
    transition_base: Val,
}

impl InteractionState for InteractiveHeightState {
    type TargetType = Val;

    closed spec fn original_spec(&self) -> Val {
        self.original
    }

    closed spec fn transition_base_spec(&self) -> Val {
        self.transition_base
    }

    fn original(&self) -> (r: Val) {
        self.original
    }

    fn transition_base(&self) -> (r: Val) {
        self.transition_base
    }

    fn set_original(&mut self, from: Val) {
        self.original = from;
    }

    fn set_transition_base(&mut self, from: Val) {
        self.transition_base = from;
    }
}

impl ComponentController for InteractiveHeight {
    type TargetType = Val;

    type InteractionState = InteractiveHeightState;

    type ControlledComponent = Style;

    open spec fn value_of(from: &Style) -> Val {
        from.height
    }

    fn state(from: &Style) -> (r: InteractiveHeightState) {
        InteractiveHeightState { original: from.height, transition_base: from.height }
    }

    fn extract_value(from: &Style) -> (r: Val) {
        from.height
    }

    fn update_controlled_component(controlled_component: &mut Style, new_value: Val) -> (written:
        bool) {
        let written = controlled_component.height != new_value;
        if written {
            controlled_component.height = new_value;
        }
        written
    }
}

} // verus!
