//! Interaction and layout state machines of a retained-mode widget toolkit.
//!
//! Every quantity is an integer: lengths and coordinates are whole layout
//! units, times are microseconds, ratios are millionths and zone sizes are
//! millionths of a percent. Each update pass is a function from the state of
//! one element (or of one group of elements) and the inputs of the frame to
//! the next state, so that the host drives the passes in order and performs
//! the side effects that they ask for.
pub mod units;
pub mod hierarchy;
pub mod flux_interaction;
pub mod style;
pub mod ease;
pub mod lerp;
pub mod animated_interaction;
pub mod interactions;
pub mod drag_interaction;
pub mod drop_interaction;
pub mod resize_interaction;
pub mod sized_zone;
pub mod scene;
pub mod zone_layout;
pub mod docking_zone;
pub mod input_extension;
pub mod floating_panel;
pub mod tab_container;
pub mod scroll_interaction;
pub mod scroll_view;
pub mod slider;
pub mod submenu;
pub mod menu;
pub mod ui_commands;
