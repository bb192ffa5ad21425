//! Model and rules of an immediate-mode file dialog: flag sets, the
//! configuration of an open request, the per-identifier session state and the
//! selection read back from the renderer.

pub mod config;
pub mod context;
pub mod dialog;
pub mod flags;
pub mod selection;
pub mod text;
pub mod util;
pub mod window;

pub use crate::config::{FileDialogConfig, ResultMode};
pub use crate::context::Context;
pub use crate::dialog::FileDialog;
pub use crate::flags::{FileDialogFlags, FileStyleFlags};
pub use crate::selection::Selection;
