use vstd::prelude::*;

verus! {

/// The 12-bit address field `nnn` of an opcode.
pub open spec fn addr_of(op: u16) -> u16 {
    op % 4096
}

/// The low 4-bit field `n` of an opcode.
pub open spec fn nibble_of(op: u16) -> u8 {
    (op % 16) as u8
}

/// The register index `x`: bits 8 to 11 of an opcode.
pub open spec fn x_of(op: u16) -> u8 {
    ((op / 256) % 16) as u8
}

/// The register index `y`: bits 4 to 7 of an opcode.
pub open spec fn y_of(op: u16) -> u8 {
    ((op / 16) % 16) as u8
}

/// The immediate byte `kk` of an opcode.
pub open spec fn byte_of(op: u16) -> u8 {
    (op % 256) as u8
}

/// The instruction group: the top nibble of an opcode.
pub open spec fn group_of(op: u16) -> u16 {
    op / 4096
}

/// A raw 16-bit CHIP-8 opcode with its bit-field projections.
#[derive(Debug, Copy, Clone)]
pub struct Instruction(u16);

impl View for Instruction {
    type V = u16;

    closed spec fn view(&self) -> u16 {
        self.0
    }
}

impl Instruction {
    pub fn new(raw: u16) -> (r: Instruction)
        ensures
            r@ == raw,
    {
        Instruction(raw)
    }

    /// The raw opcode.
    pub fn raw(&self) -> (r: u16)
        ensures
            r == self@,
    {
        self.0
    }

    pub fn addr(&self) -> (r: u16)
        ensures
            r == addr_of(self@),
    {
        let op = self.0;
        assert(op & 0x0FFF == op % 4096) by (bit_vector);
        op & 0x0FFF
    }

    pub fn nibble(&self) -> (r: u8)
        ensures
            r == nibble_of(self@),
    {
        let op = self.0;
        assert(op & 0xF == op % 16) by (bit_vector);
        (op & 0xF) as u8
    }

    pub fn x(&self) -> (r: u8)
        ensures
            r == x_of(self@),
    {
        let op = self.0;
        let high_byte = op >> 8u16;
        assert(op >> 8u16 == op / 256) by (bit_vector);
        assert(high_byte & 0xF == high_byte % 16) by (bit_vector);
        (high_byte & 0xF) as u8
    }

    pub fn y(&self) -> (r: u8)
        ensures
            r == y_of(self@),
    {
        let op = self.0;
        assert((op >> 4u16) & 0xF == (op / 16) % 16) by (bit_vector);
        ((op >> 4u16) & 0xF) as u8
    }

    pub fn byte(&self) -> (r: u8)
        ensures
            r == byte_of(self@),
    {
        let op = self.0;
        assert(op & 255 == op % 256) by (bit_vector);
        (op & 255) as u8
    }
}

} // verus!
