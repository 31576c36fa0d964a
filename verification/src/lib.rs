//! A verified client core for a remote task/calendar service: it builds
//! canonical JSON payloads from typed flags, raw JSON blobs and repeatable
//! `key=value` overrides with deterministic precedence, plans every
//! authenticated request, and classifies every failure — network, HTTP, or
//! malformed response — into a diagnostic-rich error. The thin binary
//! around it only parses arguments, performs the HTTP calls and terminal
//! drawing, and prints what this library hands back.

pub mod cli;
pub mod dashboard;
pub mod error;
pub mod json;
pub mod model;
pub mod payload;
pub mod response;
pub mod text;
pub mod transport;
