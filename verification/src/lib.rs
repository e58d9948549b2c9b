//! A registry-based, retained-mode, modular GUI library: the verified core.
//!
//! This crate holds the state machines and bookkeeping of the GUI: how focus
//! is combined, how module outputs are merged, how modules are registered and
//! how their cached images refer to each other, how a window is dragged,
//! resized and collapsed, and how the text and number inputs edit their text.
//! Drawing pixels and measuring glyphs is left to the caller.
use vstd::prelude::*;

pub mod focus_taken;
pub mod formatting;
pub mod gui;
pub mod input;
pub mod module_manager;
pub mod paths;
pub mod window_manager;
pub mod mouse_data;
pub mod output;
pub mod modules;
pub mod layout;

pub use focus_taken::FocusTaken;
pub use formatting::Formatting;
pub use input::ModuleDrawInfo;
pub use module_manager::{BufferState, InsertionMode, ModuleRegistry};
pub use paths::ModulePath;
pub use mouse_data::{ButtonState, MouseState};
pub use output::{ClipboardData, CursorStyle, GuiOutput};

verus! {

/// The currently used coordinate system value type
pub type DearMirlGuiCoordinateType = i32;

} // verus!
