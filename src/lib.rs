//! A fee-gated price feed between two programs: a producer that holds
//! admin-curated prices and sells them per lookup, and a consumer that asks
//! for prices and keeps what is delivered back to it. Every handler is a
//! function from state and call to next state and response; `chain` runs one
//! trigger through both programs with all-or-nothing effect.
pub mod chain;
pub mod consumer;
pub mod decimal;
pub mod funds;
pub mod producer;
pub mod symbol_map;
pub mod symbol_order;
