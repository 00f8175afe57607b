//! Bootstrap logic of a desktop application that stays resident in the
//! background: the order in which platform capabilities are attached at start,
//! the startup sequence that runs them, and the window-event interceptor that
//! turns a close request into hiding the window.

pub mod capability;
pub mod window;
pub mod startup;
