//! Decoder for a legacy length-prefixed, bit-packed game-service wire
//! protocol: a bit cursor over frame bytes, a variable-width signed
//! integer codec, the message-header decoder with its opcode taxonomy,
//! and a handler registry keyed by message type.

pub mod bits;
pub mod varnum;
pub mod opcodes;
pub mod codes;
pub mod message;
pub mod registry;
