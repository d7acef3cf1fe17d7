//! Quotes for swaps against the Oxedium pool: the fixed-point swap math with its
//! fee split and reserve check, the pool's data, and what the pool needs around
//! them to stand as a venue of a router. Every function is verified against its
//! contract; the few calls into other crates stand in `bindings`.

pub mod amm;
pub mod bindings;
pub mod components;
pub mod error;
pub mod oxedium_amm;
pub mod states;
pub mod utils;
