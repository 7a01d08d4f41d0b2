use crate::cpu::CPU;
use crate::machine::{family, field_kk, field_n, field_nnn, field_x, field_y};
use vstd::prelude::*;

verus! {

/// Masking and shifting an instruction word yields its fields as the model
/// defines them by division and remainder.
pub proof fn lemma_fields_by_mask(op: u16)
    ensures
        (op & 0xF000) >> 12 == family(op),
        (op & 0x0F00) >> 8 == field_x(op),
        (op & 0x00F0) >> 4 == field_y(op),
        op & 0x000F == field_n(op),
        op & 0x00FF == field_kk(op),
        op & 0x0FFF == field_nnn(op),
        op & 0xF000 == family(op) * 4096,
{
    assert((op & 0xF000) >> 12 == op / 4096) by (bit_vector);
    assert((op & 0x0F00) >> 8 == (op / 256) % 16) by (bit_vector);
    assert((op & 0x00F0) >> 4 == (op / 16) % 16) by (bit_vector);
    assert(op & 0x000F == op % 16) by (bit_vector);
    assert(op & 0x00FF == op % 256) by (bit_vector);
    assert(op & 0x0FFF == op % 4096) by (bit_vector);
    assert(op & 0xF000 == (op / 4096) * 4096) by (bit_vector);
}

impl CPU {
    /// Field `x` of the current instruction: a register selector.
    pub fn op_0n00(&self) -> (x: u16)
        ensures
            x == field_x(self.opcode),
            x < 16,
    {
        proof {
            lemma_fields_by_mask(self.opcode);
        }
        (self.opcode & 0x0f00) >> 8
    }

    /// Field `y` of the current instruction: a register selector.
    pub fn op_00n0(&self) -> (y: u16)
        ensures
            y == field_y(self.opcode),
            y < 16,
    {
        proof {
            lemma_fields_by_mask(self.opcode);
        }
        (self.opcode & 0x00f0) >> 4
    }

    /// Field `n` of the current instruction: a four-bit count.
    pub fn op_000n(&self) -> (n: u16)
        ensures
            n == field_n(self.opcode),
            n < 16,
    {
        proof {
            lemma_fields_by_mask(self.opcode);
        }
        self.opcode & 0x000f
    }

    /// Field `kk` of the current instruction: an eight-bit immediate.
    pub fn op_00nn(&self) -> (kk: u16)
        ensures
            kk == field_kk(self.opcode),
            kk < 256,
    {
        proof {
            lemma_fields_by_mask(self.opcode);
        }
        self.opcode & 0x00ff
    }

    /// Field `nnn` of the current instruction: a twelve-bit address.
    pub fn op_0nnn(&self) -> (nnn: u16)
        ensures
            nnn == field_nnn(self.opcode),
            nnn < 4096,
    {
        proof {
            lemma_fields_by_mask(self.opcode);
        }
        self.opcode & 0x0fff
    }
}

} // verus!
