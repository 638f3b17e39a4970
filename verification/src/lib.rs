//! A small client library for a GraphQL issue-tracking API.
//!
//! The library holds everything that can be stated and checked about the
//! client: the typed schema of requests and responses, the command-line
//! grammar, the exact query and mutation strings, the JSON framing of a
//! request body, and the rules that decide what each command reports.
//! Reading the environment, the HTTP exchange itself, and response
//! deserialization live outside the library and hand it plain values.

pub mod api;
pub mod cli;
pub mod commands;
pub mod json;
pub mod types;
