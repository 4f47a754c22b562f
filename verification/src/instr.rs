use vstd::prelude::*;

verus! {

/// One CHIP-8 instruction word, split into its fixed bit fields.
///
/// Every field is extracted eagerly from the word; families that do not use a
/// field simply ignore it. The fields overlap by design: `address` covers the
/// same bits as `x`, `y` and `nibble`, and `kk_byte` covers `y` and `nibble`.
#[derive(Clone, Copy, Debug, PartialEq, Eq, Structural)]
pub struct Instruction {
    /// Bits 15-12: the instruction class (family selector).
    pub msb: u8,
    /// Bits 11-8: index of the first register operand.
    pub x: u8,
    /// Bits 7-4: index of the second register operand.
    pub y: u8,
    /// Bits 3-0: disambiguator nibble for overloaded classes.
    pub nibble: u8,
    /// Bits 7-0: byte-sized literal operand.
    pub kk_byte: u8,
    /// Bits 11-0: address/literal operand.
    pub address: u16,
}

impl Instruction {
    /// The field decomposition as a mathematical function of the word.
    pub open spec fn spec_decode(cmd: u16) -> Instruction {
        Instruction {
            msb: (cmd / 0x1000) as u8,
            x: ((cmd / 0x100) % 0x10) as u8,
            y: ((cmd / 0x10) % 0x10) as u8,
            nibble: (cmd % 0x10) as u8,
            kk_byte: (cmd % 0x100) as u8,
            address: (cmd % 0x1000) as u16,
        }
    }

    /// The operand fields stay inside their bit widths. The renderer asks for
    /// no more than this: the class is handled defensively even out of range.
    pub open spec fn operands_in_range(self) -> bool {
        &&& self.x < 0x10
        &&& self.y < 0x10
        &&& self.nibble < 0x10
        &&& self.address < 0x1000
    }

    /// Every field stays inside its bit width, the class included: what
    /// decoding a word always yields.
    pub open spec fn wf(self) -> bool {
        &&& self.msb < 0x10
        &&& self.operands_in_range()
    }

    /// Decode one 16-bit opcode word. Total: every word decodes to some
    /// record, and the result is a pure function of the word.
    pub fn from_u16(cmd: u16) -> (r: Instruction)
        ensures
            r == Instruction::spec_decode(cmd),
            r.wf(),
    {
        proof {
            assert((cmd >> 12) as u8 == (cmd / 0x1000) as u8) by (bit_vector);
            assert(((cmd >> 8) & 0xF) as u8 == ((cmd / 0x100) % 0x10) as u8) by (bit_vector);
            assert(((cmd >> 4) & 0xF) as u8 == ((cmd / 0x10) % 0x10) as u8) by (bit_vector);
            assert((cmd & 0xF) as u8 == (cmd % 0x10) as u8) by (bit_vector);
            assert((cmd & 0xFF) as u8 == (cmd % 0x100) as u8) by (bit_vector);
            assert((cmd & 0xFFF) == (cmd % 0x1000) as u16) by (bit_vector);
        }
        Instruction {
            msb: (cmd >> 12) as u8,
            x: ((cmd >> 8) & 0xF) as u8,
            y: ((cmd >> 4) & 0xF) as u8,
            kk_byte: (cmd & 0xFF) as u8,
            nibble: (cmd & 0xF) as u8,
            address: cmd & 0xFFF,
        }
    }
}

/// Decoding is deterministic and total: `spec_decode` is defined on every
/// 16-bit word, so two decodes of the same word always yield records that are
/// equal field by field, and every field lies inside its bit width.
pub proof fn lemma_decode_deterministic_total(cmd: u16, a: Instruction, b: Instruction)
    requires
        a == Instruction::spec_decode(cmd),
        b == Instruction::spec_decode(cmd),
    ensures
        a == b,
        a.wf(),
{
}

} // verus!
