//! The finished output of an instruction stream.

use vstd::prelude::*;

verus! {

/// The output of an instruction stream: the machine code it produced, as bytes.
#[derive(Debug, PartialEq)]
pub struct Product {
    /// The bytes produced by an instruction stream.
    bytes: Vec<u8>,
}

impl View for Product {
    type V = Seq<u8>;

    /// The machine code, byte by byte.
    closed spec fn view(&self) -> Seq<u8> {
        self.bytes@
    }
}

impl Clone for Product {
    /// Copies the machine code.
    fn clone(&self) -> (r: Self)
        ensures
            r@ == self@,
    {
        let bytes = self.bytes.clone();
        assert(bytes@ =~= self.bytes@);
        Self { bytes }
    }
}

impl Product {
    /// Creates a new product initialized with the provided bytes.
    pub fn new(bytes: Vec<u8>) -> (r: Self)
        ensures
            r@ == bytes@,
    {
        Self { bytes }
    }

    /// Finalizes the instruction stream output and returns the produced bytes.
    pub fn emit(self) -> (r: Vec<u8>)
        ensures
            r@ == self@,
    {
        self.bytes
    }
}

} // verus!
