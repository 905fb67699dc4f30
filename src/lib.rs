//! Navigation engine of a terminal document browser: the document list, the
//! per-document session, the command set and the coordinator that turns
//! commands into actions, and the sizing of pages for inline display.

pub mod apply;
pub mod command;
pub mod coordinator;
pub mod display;
pub mod document;

pub use apply::Apply;
pub use command::{command_for_key, Command, Keystroke};
pub use coordinator::{Action, Coordinator};
pub use display::{display_fit, image_sequence_of, inline_image, push_decimal, Fit};
pub use document::{start_page_index, DocumentList, DocumentSession, RenderError, RenderedPage};
