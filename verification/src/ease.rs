//! The named easing curves.
use vstd::prelude::*;

verus! {

/// Selector of an easing curve: a map from normalized time to normalized
/// progress.
#[derive(Clone, Copy, Debug, PartialEq, Eq, Structural, Hash)]
pub enum Ease {
    Linear,
    InSine,
    OutSine,
    InOutSine,
    InQuad,
    OutQuad,
    InOutQuad,
    InCubic,
    OutCubic,
    InOutCubic,
    InQuart,
    OutQuart,
    InOutQuart,
    InQuint,
    OutQuint,
    InOutQuint,
    InExpo,
    OutExpo,
    InOutExpo,
    InCirc,
    OutCirc,
    InOutCirc,
    InBack,
    OutBack,
    InOutBack,
    InElastic,
    OutElastic,
    InOutElastic,
    InBounce,
    OutBounce,
    InOutBounce,
}

impl Default for Ease {
    fn default() -> (r: Self)
        ensures
            r == Ease::Linear,
    {
        Ease::Linear
    }
}

/// A scalar that can be sent through an easing curve. The host implements it
/// for the number type in which it evaluates the curves.
pub trait ValueEasing: Sized {
    fn ease(&self, ease_type: Ease) -> Self;
}

} // verus!
