//! The style values that the controllers read and write.
use vstd::prelude::*;

verus! {

/// A colour; each channel is a ratio in millionths.
#[derive(Clone, Copy, Debug, PartialEq, Eq, Structural, Hash)]
pub struct Color {
    pub r: i64,
    pub g: i64,
    pub b: i64,
    pub a: i64,
}

/// A length of the box model, tagged with its scale.
#[derive(Clone, Copy, Debug, PartialEq, Eq, Structural, Hash)]
pub enum Val {
    Auto,
    Px(i64),
    Percent(i64),
    Vw(i64),
    Vh(i64),
    VMin(i64),
    VMax(i64),
}

/// The four sides of a box.
#[derive(Clone, Copy, Debug, PartialEq, Eq, Structural, Hash)]
pub struct UiRect {
    pub left: Val,
    pub right: Val,
    pub top: Val,
    pub bottom: Val,
}

/// The axis and direction along which an element lays out its children.
#[derive(Clone, Copy, Debug, PartialEq, Eq, Structural, Hash)]
pub enum FlexDirection {
    Row,
    Column,
    RowReverse,
    ColumnReverse,
}

/// Whether an element takes part in the flow of its siblings.
#[derive(Clone, Copy, Debug, PartialEq, Eq, Structural, Hash)]
pub enum PositionType {
    Relative,
    Absolute,
}

/// The background colour of an element.
#[derive(Clone, Copy, Debug, PartialEq, Eq, Structural, Hash)]
pub struct BackgroundColor(pub Color);

/// The border colour of an element.
#[derive(Clone, Copy, Debug, PartialEq, Eq, Structural, Hash)]
pub struct BorderColor(pub Color);

/// The box-model properties of an element that the controllers animate.
#[derive(Clone, Copy, Debug, PartialEq, Eq, Structural, Hash)]
pub struct Style {
    pub border: UiRect,
    pub margin: UiRect,
    pub height: Val,
}

impl Default for FlexDirection {
    fn default() -> (r: Self)
        ensures
            r == FlexDirection::Row,
    {
        FlexDirection::Row
    }
}

impl Default for PositionType {
    fn default() -> (r: Self)
        ensures
            r == PositionType::Relative,
    {
        PositionType::Relative
    }
}

impl Default for Val {
    fn default() -> (r: Self)
        ensures
            r == Val::Auto,
    {
        Val::Auto
    }
}

} // verus!
