//! Sliders: the ratio of a slider under wheel and drag, its value, and the
//! place of its handle.
use vstd::prelude::*;
use crate::drag_interaction::{DragState, Draggable};
use crate::scroll_interaction::{MouseScrollUnit, Scroll, ScrollAxis};
use crate::units::{clamp_i64, floor_div, lerp_i64, lerp_int, narrow, Vec2, RATIO_ONE};

verus! {

/// The axis along which a slider runs.
#[derive(Clone, Copy, Debug, PartialEq, Eq, Structural, Hash)]
pub enum SliderAxis {
    Horizontal,
    Vertical,
}

impl Default for SliderAxis {
    fn default() -> (r: Self)
        ensures
            r == SliderAxis::Horizontal,
    {
        SliderAxis::Horizontal
    }
}

/// The range and the look of a slider. Values are in millionths.
#[derive(Clone, Copy, Debug, PartialEq, Eq, Structural)]
pub struct SliderConfig {
    pub min: i64,
    pub max: i64,
    pub initial_value: i64,
    pub show_current: bool,
    pub axis: SliderAxis,
}

impl Default for SliderConfig {
    fn default() -> (r: Self)
        ensures
            r == (SliderConfig {
                min: 0,
                max: 1_000_000,
                initial_value: 500_000,
                show_current: false,
                axis: SliderAxis::Horizontal,
            }),
            r.wf(),
    {
        SliderConfig {
            min: 0,
            max: 1_000_000,
            initial_value: 500_000,
            show_current: false,
            axis: SliderAxis::Horizontal,
        }
    }
}

impl SliderConfig {
    /// The range is not empty and holds the initial value.
    pub open spec fn wf(self) -> bool {
        self.min < self.max && self.min <= self.initial_value <= self.max
    }

    /// A slider configuration. The range must not be empty and must hold
    /// the initial value.
    pub fn new(min: i64, max: i64, initial_value: i64, show_current: bool, axis: SliderAxis) -> (r:
        SliderConfig)
        requires
            min < max,
            min <= initial_value <= max,
        ensures
            r == (SliderConfig { min, max, initial_value, show_current, axis }),
            r.wf(),
    {
        SliderConfig { min, max, initial_value, show_current, axis }
    }

    /// A configuration where the values make one, `None` where the range is
    /// empty or does not hold the initial value.
    pub fn checked(min: i64, max: i64, initial_value: i64, show_current: bool, axis: SliderAxis) -> (r:
        Option<SliderConfig>)
        ensures
            r == if min < max && min <= initial_value <= max {
                Some(SliderConfig { min, max, initial_value, show_current, axis })
            } else {
                None
            },
    {
        if max <= min || initial_value < min || initial_value > max {
            None
        } else {
            Some(SliderConfig::new(min, max, initial_value, show_current, axis))
        }
    }

    pub fn horizontal(min: i64, max: i64, initial_value: i64, show_current: bool) -> (r: SliderConfig)
        requires
            min < max,
            min <= initial_value <= max,
        ensures
            r == (SliderConfig {
                min,
                max,
                initial_value,
                show_current,
                axis: SliderAxis::Horizontal,
            }),
    {
        SliderConfig::new(min, max, initial_value, show_current, SliderAxis::Horizontal)
    }

    pub fn vertical(min: i64, max: i64, initial_value: i64, show_current: bool) -> (r: SliderConfig)
        requires
            min < max,
            min <= initial_value <= max,
        ensures
            r == (SliderConfig { min, max, initial_value, show_current, axis: SliderAxis::Vertical }),
    {
        SliderConfig::new(min, max, initial_value, show_current, SliderAxis::Vertical)
    }

    /// The configuration with another initial value, which must lie in the
    /// range.
    pub fn with_value(self, value: i64) -> (r: SliderConfig)
        requires
            self.min <= value <= self.max,
        ensures
            r == (SliderConfig { initial_value: value, ..self }),
    {
        SliderConfig {
            min: self.min,
            max: self.max,
            initial_value: value,
            show_current: self.show_current,
            axis: self.axis,
        }
    }
}

/// A ratio held between nothing and one whole.
pub open spec fn clamp_ratio(v: int) -> i64 {
    if v < 0 {
        0
    } else if v > RATIO_ONE {
        RATIO_ONE
    } else {
        v as i64
    }
}

fn to_ratio(v: i128) -> (r: i64)
    ensures
        r == clamp_ratio(v as int),
{
    if v < 0 {
        0
    } else if v > RATIO_ONE as i128 {
        RATIO_ONE
    } else {
        v as i64
    }
}

/// The part of the range of `config` at which `value` lies, in millionths.
pub open spec fn ratio_of(config: SliderConfig, value: i64) -> i64 {
    clamp_ratio(((value - config.min) * RATIO_ONE) / (config.max - config.min))
}

/// A slider: how far along its range it stands.
#[derive(Clone, Copy, Debug, PartialEq, Eq, Structural)]
pub struct Slider {
    /// The place along the range, in millionths.
    pub ratio: i64,
    /// The ratio at which the current drag began.
    pub base_ratio: Option<i64>,
    pub config: SliderConfig,
}

impl Default for Slider {
    fn default() -> (r: Self)
        ensures
            r == (Slider {
                ratio: 0,
                base_ratio: None,
                config: SliderConfig {
                    min: 0,
                    max: 1_000_000,
                    initial_value: 500_000,
                    show_current: false,
                    axis: SliderAxis::Horizontal,
                },
            }),
            r.wf(),
    {
        Slider { ratio: 0, base_ratio: None, config: SliderConfig::default() }
    }
}

impl Slider {
    /// The ratio lies between nothing and one whole, and the range is one.
    pub open spec fn wf(self) -> bool {
        0 <= self.ratio <= RATIO_ONE && self.config.wf()
    }

    /// A slider that stands at the initial value of its configuration.
    pub fn new(config: SliderConfig) -> (r: Slider)
        requires
            config.wf(),
        ensures
            r == (Slider { ratio: ratio_of(config, config.initial_value), base_ratio: None, config }),
            r.wf(),
    {
        let mut slider = Slider { ratio: 0, base_ratio: None, config };
        slider.set_value(config.initial_value);
        slider
    }

    /// The value at which the slider stands.
    pub fn value(&self) -> (r: i64)
        ensures
            r == lerp_int(self.config.min, self.config.max, self.ratio),
    {
        lerp_i64(self.config.min, self.config.max, self.ratio)
    }

    /// Moves the slider to `value`. A value outside the range, or a range
    /// that is empty, leaves the slider where it is.
    pub fn set_value(&mut self, value: i64)
        ensures
            *final(self) == if old(self).config.min <= value <= old(self).config.max && old(
                self,
            ).config.min < old(self).config.max {
                Slider { ratio: ratio_of(old(self).config, value), ..*old(self) }
            } else {
                *old(self)
            },
            old(self).wf() ==> final(self).wf(),
    {
        if value > self.config.max || value < self.config.min || self.config.min >= self.config.max {
            return ;
        }
        let span: i128 = self.config.max as i128 - self.config.min as i128;
        let part: i128 = value as i128 - self.config.min as i128;
        assert(0 <= part * 1_000_000 <= 0x1_0000_0000_0000_0000 * 1_000_000) by (nonlinear_arith)
            requires
                0 <= part <= 0x1_0000_0000_0000_0000,
        ;
        self.ratio = to_ratio(floor_div(part * 1_000_000, span));
    }
}

/// What a scroll adds to the ratio of a slider: a hundredth of the amount
/// against the scroll, five times that for a line. `None` for a scroll
/// along the horizontal axis, which sliders do not follow.
pub open spec fn scroll_fraction(scroll: Scroll) -> Option<int> {
    if scroll.axis == ScrollAxis::Horizontal {
        None
    } else {
        Some(
            match scroll.unit {
                MouseScrollUnit::Line => (-scroll.diff * 5) / 100,
                MouseScrollUnit::Pixel => (-scroll.diff) / 100,
            },
        )
    }
}

/// Moves a slider by a turn of the wheel.
pub fn update_slider_on_scroll(slider: &mut Slider, scroll: Scroll)
    ensures
        *final(slider) == match scroll_fraction(scroll) {
            Some(fraction) => Slider { ratio: clamp_ratio(old(slider).ratio + fraction), ..*old(slider) },
            None => *old(slider),
        },
{
    if scroll.axis == ScrollAxis::Horizontal {
        return ;
    }
    let offset: i128 = match scroll.unit {
        MouseScrollUnit::Line => -(scroll.diff as i128) * 5,
        MouseScrollUnit::Pixel => -(scroll.diff as i128),
    };
    let fraction: i128 = floor_div(offset, 100);
    slider.ratio = to_ratio(slider.ratio as i128 + fraction);
}

/// What a drag adds to the ratio of a slider whose handle has `room` units
/// to move in: the part of the room that the drag covers; upwards counts
/// as more on a vertical slider. `None` where the drag covers nothing
/// along the axis or the handle has no room.
pub open spec fn drag_fraction(axis: SliderAxis, diff: Vec2, bar_size: Vec2, handle_size: Vec2) -> Option<
    int,
> {
    let (moved, room) = match axis {
        SliderAxis::Horizontal => (diff.x as int, bar_size.x - handle_size.x),
        SliderAxis::Vertical => (-diff.y, bar_size.y - handle_size.y),
    };
    if moved == 0 || room == 0 {
        None
    } else if room > 0 {
        Some((moved * RATIO_ONE) / room)
    } else {
        Some((-moved * RATIO_ONE) / (-room))
    }
}

/// The slider after a drag on its handle. A canceled drag takes the slider
/// back to where the drag began; the start of a drag notes where it begins;
/// a drag under way moves the slider by the part of the room of the handle
/// that it covers.
pub open spec fn dragged(slider: Slider, draggable: Draggable, bar_size: Vec2, handle_size: Vec2) -> Slider {
    if draggable.state == DragState::Inactive || draggable.state == DragState::MaybeDragged {
        slider
    } else if draggable.state == DragState::DragCanceled && slider.base_ratio is Some {
        Slider { ratio: slider.base_ratio.unwrap(), ..slider }
    } else {
        let noted = if draggable.state == DragState::DragStart {
            Slider { base_ratio: Some(slider.ratio), ..slider }
        } else {
            slider
        };
        match draggable.diff {
            None => noted,
            Some(diff) => match drag_fraction(slider.config.axis, diff, bar_size, handle_size) {
                None => noted,
                Some(fraction) => Slider { ratio: clamp_ratio(noted.ratio + fraction), ..noted },
            },
        }
    }
}

/// Moves a slider by a drag on its handle.
pub fn update_slider_on_drag(
    slider: &mut Slider,
    draggable: &Draggable,
    bar_size: Vec2,
    handle_size: Vec2,
)
    ensures
        *final(slider) == dragged(*old(slider), *draggable, bar_size, handle_size),
{
    if draggable.state == DragState::Inactive || draggable.state == DragState::MaybeDragged {
        return ;
    }
    if draggable.state == DragState::DragCanceled {
        if let Some(base_ratio) = slider.base_ratio {
            slider.ratio = base_ratio;
            return ;
        }
    }
    if draggable.state == DragState::DragStart {
        slider.base_ratio = Some(slider.ratio);
    }
    let Some(diff) = draggable.diff else {
        return ;
    };
    let (moved, room): (i128, i128) = match slider.config.axis {
        SliderAxis::Horizontal => (diff.x as i128, bar_size.x as i128 - handle_size.x as i128),
        SliderAxis::Vertical => (-(diff.y as i128), bar_size.y as i128 - handle_size.y as i128),
    };
    if moved == 0 || room == 0 {
        return ;
    }
    assert(-0x8000_0000_0000_0000 * 1_000_000 <= moved * 1_000_000 <= 0x8000_0000_0000_0000
        * 1_000_000) by (nonlinear_arith)
        requires
            -0x8000_0000_0000_0000 <= moved <= 0x8000_0000_0000_0000,
    ;
    let fraction: i128 = if room > 0 {
        floor_div(moved * 1_000_000, room)
    } else {
        floor_div(-moved * 1_000_000, -room)
    };
    assert(-0x8000_0000_0000_0000 * 1_000_000 <= fraction <= 0x8000_0000_0000_0000 * 1_000_000)
        by (nonlinear_arith)
        requires
            room != 0,
            fraction == if room > 0 {
                (moved * 1_000_000) / (room as int)
            } else {
                (-moved * 1_000_000) / (-room as int)
            },
            -0x8000_0000_0000_0000 * 1_000_000 <= moved * 1_000_000 <= 0x8000_0000_0000_0000
                * 1_000_000,
    ;
    slider.ratio = to_ratio(slider.ratio as i128 + fraction);
}

/// Where the handle of a slider lies along its bar: at the part of its
/// room that the ratio names (held between nothing and one whole), from the
/// left on a horizontal slider and from the bottom on a vertical one.
pub open spec fn handle_place(slider: Slider, bar_size: Vec2, handle_size: Vec2) -> int {
    let ratio = clamp_ratio(slider.ratio as int);
    match slider.config.axis {
        SliderAxis::Horizontal => clamp_i64(
            ((bar_size.x - handle_size.x) * ratio) / (RATIO_ONE as int),
        ),
        SliderAxis::Vertical => clamp_i64(
            ((bar_size.y - handle_size.y) * (RATIO_ONE - ratio)) / (RATIO_ONE as int),
        ),
    }
}

/// Computes the place of the handle of a slider: its left edge on a
/// horizontal slider, its top edge on a vertical one.
pub fn update_slider_handle(slider: &Slider, bar_size: Vec2, handle_size: Vec2) -> (r: i64)
    ensures
        r == handle_place(*slider, bar_size, handle_size),
{
    let ratio: i64 = to_ratio(slider.ratio as i128);
    let (room, part): (i128, i128) = match slider.config.axis {
        SliderAxis::Horizontal => (bar_size.x as i128 - handle_size.x as i128, ratio as i128),
        SliderAxis::Vertical => (
            bar_size.y as i128 - handle_size.y as i128,
            RATIO_ONE as i128 - ratio as i128,
        ),
    };
    assert(-0x1_0000_0000_0000_0000 * 1_000_000 <= room * part <= 0x1_0000_0000_0000_0000
        * 1_000_000) by (nonlinear_arith)
        requires
            -0x1_0000_0000_0000_0000 <= room <= 0x1_0000_0000_0000_0000,
            0 <= part <= 1_000_000,
    ;
    narrow(floor_div(room * part, 1_000_000))
}

} // verus!
