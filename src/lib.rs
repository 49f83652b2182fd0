//! A symmetric-cipher session: configuration, buffer-size rules and the
//! one-shot drivers, with the block-cipher engine kept outside the library.

pub mod error;
pub mod types;
pub mod session;
pub mod oneshot;
pub mod parity;
