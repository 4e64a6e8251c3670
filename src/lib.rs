//! Backend dispatch and drawing-session state for a 2D rendering front end
//! that sits in front of several native rendering backends.
//!
//! The library holds the decisions that every backend shares: which backend a
//! display is built on, the per-thread exclusivity of drawing sessions, the
//! hand-over of a thread-bound graphics context to a session, the save/restore
//! discipline of a session, the tagging of resources by backend, the choice of
//! native configurations, and the pixel conversion that precedes presentation
//! on the software backend.

pub mod backend;
pub mod builder;
pub mod config;
pub mod error;
pub mod pixels;
pub mod scope;
pub mod session;
pub mod surface;

pub use backend::{candidate_order, registry, Backend, Fallback, Selection};
pub use builder::DisplayBuilder;
pub use config::{choose_config, context_attempts, GlConfigInfo, GlContextKind};
pub use error::Error;
pub use pixels::rgba_to_xrgb;
pub use scope::{ContextScope, ContextSlot};
pub use session::{first_error, Session, SessionLock};
pub use surface::{
    choose_alpha_mode, choose_format, find_adapter, validate_size, AlphaKind, FormatKind,
};
