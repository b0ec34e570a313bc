//! Action-reporting gesture views and the environment view.

pub mod drag;
pub mod env;
pub mod tap;
