//! Rule-evaluation engine for HTTP security headers.
//!
//! The library turns a raw, case-insensitive, possibly multi-valued header
//! collection into a severity-ranked list of findings: weaknesses in
//! Content-Security-Policy, CORS, Strict-Transport-Security, framing
//! protection, cookie attributes and a few auxiliary headers. Fetching the
//! response, argument handling and rendering live outside the library; it
//! works on plain header names and values and performs no I/O.

pub mod checks;
pub mod directive;
pub mod headers;
pub mod model;
pub mod num;
pub mod scan;
pub mod text;
