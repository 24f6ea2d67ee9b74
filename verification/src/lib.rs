//! A statically typed, memory-safe wrapper core for a handle-based native GUI
//! toolkit (opaque widget objects addressed through named attributes and
//! C-style callback slots).
//!
//! The toolkit itself is modelled as in-process state ([`native::NativeState`])
//! owned by the session context ([`context::KISSContext`]); the event loop is
//! driven from outside by feeding simulated native events through the dispatch
//! entry points. The bridging rules — single-session lifecycle, class-tagged
//! handle identity and downcasting, borrow-tracked string views, and the
//! callback registry — are stated in contracts and verified.

pub mod attrs;
pub mod base;
pub mod button;
pub mod callback;
pub mod container;
pub mod context;
pub mod dialog;
pub mod image;
pub mod laws;
pub mod logmap;
pub mod move_cell;
pub mod native;
pub mod progress;
pub mod text;
pub mod timer;
pub mod widget;
