//! Linear interpolation of the values that an interaction can animate.
use vstd::prelude::*;
use crate::style::{Color, UiRect, Val};
use crate::units::{lerp_i64, lerp_int, RATIO_ONE};

verus! {

/// A value that can stand part of the way between two values. The ratio `t`
/// is in millionths.
pub trait Lerp: Sized {
    /// The value at ratio `t` on the way from `self` to `to`.
    spec fn lerp_spec(&self, to: Self, t: i64) -> Self;

    fn lerp(&self, to: Self, t: i64) -> (r: Self)
        ensures
            r == self.lerp_spec(to, t),
    ;
}

impl Lerp for i64 {
    open spec fn lerp_spec(&self, to: Self, t: i64) -> Self {
        lerp_int(*self, to, t) as i64
    }

    fn lerp(&self, to: Self, t: i64) -> (r: Self) {
        lerp_i64(*self, to, t)
    }
}

/// A channel held between zero and one whole.
pub open spec fn clamp_channel(v: i64) -> i64 {
    if v < 0 {
        0
    } else if v > RATIO_ONE {
        RATIO_ONE
    } else {
        v
    }
}

fn lerp_channel(from: i64, to: i64, t: i64) -> (r: i64)
    ensures
        r == clamp_channel(lerp_int(from, to, t) as i64),
{
    let v: i64 = lerp_i64(from, to, t);
    if v < 0 {
        0
    } else if v > RATIO_ONE {
        RATIO_ONE
    } else {
        v
    }
}

impl Lerp for Color {
    /// Channel by channel, each result held between zero and one whole.
    open spec fn lerp_spec(&self, to: Self, t: i64) -> Self {
        Color {
            r: clamp_channel(lerp_int(self.r, to.r, t) as i64),
            g: clamp_channel(lerp_int(self.g, to.g, t) as i64),
            b: clamp_channel(lerp_int(self.b, to.b, t) as i64),
            a: clamp_channel(lerp_int(self.a, to.a, t) as i64),
        }
    }

    fn lerp(&self, to: Self, t: i64) -> (r: Self) {
        Color {
            r: lerp_channel(self.r, to.r, t),
            g: lerp_channel(self.g, to.g, t),
            b: lerp_channel(self.b, to.b, t),
            a: lerp_channel(self.a, to.a, t),
        }
    }
}

impl Lerp for Val {
    /// Two lengths of one scale interpolate within that scale; any other
    /// pair stays at `self`.
    open spec fn lerp_spec(&self, to: Self, t: i64) -> Self {
        match (*self, to) {
            (Val::Px(a), Val::Px(b)) => Val::Px(lerp_int(a, b, t) as i64),
            (Val::Percent(a), Val::Percent(b)) => Val::Percent(lerp_int(a, b, t) as i64),
            (Val::Vw(a), Val::Vw(b)) => Val::Vw(lerp_int(a, b, t) as i64),
            (Val::Vh(a), Val::Vh(b)) => Val::Vh(lerp_int(a, b, t) as i64),
            (Val::VMin(a), Val::VMin(b)) => Val::VMin(lerp_int(a, b, t) as i64),
            (Val::VMax(a), Val::VMax(b)) => Val::VMax(lerp_int(a, b, t) as i64),
            _ => *self,
        }
    }

    fn lerp(&self, to: Self, t: i64) -> (r: Self) {
        match *self {
            Val::Auto => Val::Auto,
            Val::Px(value) => {
                if let Val::Px(other) = to {
                    Val::Px(lerp_i64(value, other, t))
                } else {
                    Val::Px(value)
                }
            },
            Val::Percent(value) => {
                if let Val::Percent(other) = to {
                    Val::Percent(lerp_i64(value, other, t))
                } else {
                    Val::Percent(value)
                }
            },
            Val::Vw(value) => {
                if let Val::Vw(other) = to {
                    Val::Vw(lerp_i64(value, other, t))
                } else {
                    Val::Vw(value)
                }
            },
            Val::Vh(value) => {
                if let Val::Vh(other) = to {
                    Val::Vh(lerp_i64(value, other, t))
                } else {
                    Val::Vh(value)
                }
            },
            Val::VMin(value) => {
                if let Val::VMin(other) = to {
                    Val::VMin(lerp_i64(value, other, t))
                } else {
                    Val::VMin(value)
                }
            },
            Val::VMax(value) => {
                if let Val::VMax(other) = to {
                    Val::VMax(lerp_i64(value, other, t))
                } else {
                    Val::VMax(value)
                }
            },
        }
    }
}

impl Lerp for UiRect {
    open spec fn lerp_spec(&self, to: Self, t: i64) -> Self {
        UiRect {
            left: self.left.lerp_spec(to.left, t),
            right: self.right.lerp_spec(to.right, t),
            top: self.top.lerp_spec(to.top, t),
            bottom: self.bottom.lerp_spec(to.bottom, t),
        }
    }

    fn lerp(&self, to: Self, t: i64) -> (r: Self) {
        UiRect {
            left: self.left.lerp(to.left, t),
            right: self.right.lerp(to.right, t),
            top: self.top.lerp(to.top, t),
            bottom: self.bottom.lerp(to.bottom, t),
        }
    }
}

/// At ratio zero a scalar stands at its start, at one whole at its end.
pub proof fn lemma_lerp_endpoints(from: i64, to: i64)
    ensures
        from.lerp_spec(to, 0) == from,
        from.lerp_spec(to, RATIO_ONE) == to,
{
    assert((to - from) * 0 == 0);
    assert(((to - from) * 1_000_000) / 1_000_000 == to - from);
}

} // verus!
