//! A verified core for an 8-bit accumulator-based microprocessor: a total
//! instruction decoder over a byte stream, and an execution engine that
//! fetches, decodes, and applies instructions to machine state (eight
//! one-byte registers with 16-bit pair views, a dedicated stack pointer,
//! a 64 KiB linear memory, condition flags, and a run state).

pub mod isa;
pub mod decoder;
pub mod semantics;
pub mod machine;
