//! Scrolling: from the wheel events of a frame to the scroll that the
//! hovered scrollables record.
use vstd::prelude::*;

verus! {

/// The axis of a scroll.
#[derive(Clone, Copy, Debug, PartialEq, Eq, Structural, Hash)]
pub enum ScrollAxis {
    Horizontal,
    Vertical,
}

impl Default for ScrollAxis {
    fn default() -> (r: Self)
        ensures
            r == ScrollAxis::Horizontal,
    {
        ScrollAxis::Horizontal
    }
}

/// What a wheel amount counts.
#[derive(Clone, Copy, Debug, PartialEq, Eq, Structural, Hash)]
pub enum MouseScrollUnit {
    Line,
    Pixel,
}

/// One turn of the wheel. The amounts are in millionths of the unit.
#[derive(Clone, Copy, Debug, PartialEq, Eq, Structural)]
pub struct MouseWheel {
    pub unit: MouseScrollUnit,
    pub x: i64,
    pub y: i64,
}

/// The last scroll that an element has seen.
#[derive(Clone, Copy, Debug, PartialEq, Eq, Structural)]
pub struct Scrollable {
    pub axis: Option<ScrollAxis>,
    /// The amount of the scroll, in millionths of its unit.
    pub diff: i64,
    pub unit: MouseScrollUnit,
}

impl Default for Scrollable {
    fn default() -> (r: Self)
        ensures
            r == (Scrollable { axis: None, diff: 0, unit: MouseScrollUnit::Pixel }),
    {
        Scrollable { axis: None, diff: 0, unit: MouseScrollUnit::Pixel }
    }
}

/// A scroll: its axis, its amount and the unit of the amount.
#[derive(Clone, Copy, Debug, PartialEq, Eq, Structural)]
pub struct Scroll {
    pub axis: ScrollAxis,
    pub diff: i64,
    pub unit: MouseScrollUnit,
}

impl Scrollable {
    /// The last scroll of the element, where it has seen one.
    pub open spec fn last_change_spec(self) -> Option<Scroll> {
        match self.axis {
            Some(axis) => Some(Scroll { axis, diff: self.diff, unit: self.unit }),
            None => None,
        }
    }

    pub fn last_change(&self) -> (r: Option<Scroll>)
        ensures
            r == self.last_change_spec(),
    {
        let Some(axis) = self.axis else {
            return None;
        };
        Some(Scroll { axis, diff: self.diff, unit: self.unit })
    }
}

/// The negation of an amount, held at the upper end of the range.
pub open spec fn reversed(v: i64) -> i64 {
    if v == i64::MIN {
        i64::MAX
    } else {
        (-v) as i64
    }
}

/// The scroll that a turn of the wheel asks for: against the horizontal
/// amount where there is one, else against the vertical one; along the
/// horizontal axis for a turn to the right or while Shift is down.
pub open spec fn scroll_of(event: MouseWheel, shift: bool) -> Scroll {
    Scroll {
        axis: if event.x > 0 || shift {
            ScrollAxis::Horizontal
        } else {
            ScrollAxis::Vertical
        },
        diff: if event.x != 0 {
            reversed(event.x)
        } else {
            reversed(event.y)
        },
        unit: event.unit,
    }
}

/// The element after the wheel events of a frame: an element under the
/// pointer records the scroll of the last event; without an event, and for
/// an element that is not under the pointer, nothing changes.
pub open spec fn scrolled(
    scrollable: Scrollable,
    events: Seq<MouseWheel>,
    shift: bool,
    hovered: bool,
) -> Scrollable {
    if events.len() == 0 || !hovered {
        scrollable
    } else {
        let scroll = scroll_of(events.last(), shift);
        Scrollable { axis: Some(scroll.axis), diff: scroll.diff, unit: scroll.unit }
    }
}

fn negate(v: i64) -> (r: i64)
    ensures
        r == reversed(v),
{
    if v == i64::MIN {
        i64::MAX
    } else {
        -v
    }
}

/// Records the scroll of the frame on one element. Of several wheel events
/// only the last counts.
pub fn update_scrollables(
    events: &Vec<MouseWheel>,
    shift: bool,
    hovered: bool,
    scrollable: &mut Scrollable,
) -> (written: bool)
    ensures
        *final(scrollable) == scrolled(*old(scrollable), events@, shift, hovered),
        written == (events@.len() > 0 && hovered),
{
    if events.len() == 0 || !hovered {
        return false;
    }
    let event = events[events.len() - 1];
    scrollable.axis = if event.x > 0 || shift {
        Some(ScrollAxis::Horizontal)
    } else {
        Some(ScrollAxis::Vertical)
    };
    scrollable.diff = if event.x != 0 {
        negate(event.x)
    } else {
        negate(event.y)
    };
    scrollable.unit = event.unit;
    true
}

} // verus!
