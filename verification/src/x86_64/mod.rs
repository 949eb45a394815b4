//! The x86_64 target: its registers and its instruction stream.

pub mod encoding;
pub mod register;
pub mod stream;
