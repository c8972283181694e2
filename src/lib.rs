//! Event dispatch and control registry core of a native windowing toolkit.
//!
//! Platform handles, messages and times are plain values here: the code that
//! talks to the windowing system hands them in and acts on what comes back.
pub mod controls;
pub mod error;
pub mod event_loop;
pub mod events;
pub mod handles;
pub mod templates;
pub mod ui;
