//! The rule groups, one module each. Every group is a pure function from
//! the header snapshot to a list of findings; no group depends on another
//! group's output.

pub mod cookies;
pub mod csp;
pub mod cors;
pub mod hsts;
pub mod misc;
pub mod xframe;
