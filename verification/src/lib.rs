//! Direct machine-code emission: an instruction stream takes typed
//! "emit this instruction" calls and appends their binary encoding to a
//! byte buffer, with a label registry backing later relocation.

pub mod entity;
pub mod product;
pub mod stream;
pub mod x86_64;

pub use product::Product;
pub use stream::InstructionStream;
