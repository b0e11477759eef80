//! Code generation behind a small set of procedural macros: the macros' inputs are
//! modelled as plain values (token and item models), and every expansion is
//! produced as Rust source text whose exact shape is stated by the contracts.

pub mod error_message;
pub mod examples;
pub mod functions;
pub mod model;
pub mod outside;
pub mod pairs;
pub mod reading;
pub mod str_map;
pub mod structs;
pub mod text;
