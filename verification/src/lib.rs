//! Interaction logic of a headless spinbox widget.
//!
//! `spinbox` holds the widget's components that carry no numeric value,
//! `interaction` decides how a spinbox reacts to pointer and keyboard events,
//! and `laws` states the properties that hold across those decisions.

pub mod spinbox;
pub mod interaction;
pub mod laws;
