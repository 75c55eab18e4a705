//! A small window manager for functional reactive interfaces.
//!
//! Application code describes each frame as a [`view::View`]: an ordered list of
//! components carrying modifiers and event handlers. The library resolves the
//! unit-based box model of every component, lays out text glyph by glyph, and
//! decides which handlers fire against the bounding boxes and the input of the
//! frame.
use vstd::prelude::*;

/// Typed units, modifiers, components and views.
pub mod view;

/// Shared key/value state and the message log that handlers write to.
pub mod events;

/// Resolution of units and of a component's modifier list into a box.
pub mod layout;

/// Glyph measurement cache, line wrapping and alignment of text.
pub mod text;

/// Hit testing, handler selection and the plan of one frame.
pub mod dispatch;

/// Configuration of the window that runs the render cycle.
pub mod window;

verus! {

} // verus!
