//! A small control plane for a host-local DNS ad-blocking service.
//!
//! The library translates the three supported operations (disable with an
//! optional duration, enable, status query) into invocations of the
//! service's command-line tool, classifies the tool's free-text output by
//! fixed substring patterns into a canonical [`state::State`] or a typed
//! error, and maps each outcome to an HTTP status code and response body.
//! Only the invocation of the external program itself is trusted; argument
//! construction, classification and response mapping are verified.

pub mod classifier;
pub mod command;
pub mod http;
pub mod service;
pub mod state;
