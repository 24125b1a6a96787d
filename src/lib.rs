//! The update-and-render scheduling core of a retained-mode UI: the event
//! queue and its fixed-point flush, invalidation flags, redraw arbitration and
//! the decision of whether the host loop polls, waits or exits.
pub mod animation;
pub mod application;
pub mod binding;
pub mod entity;
pub mod event;
pub mod flags;
pub mod pipeline;
pub mod window;
