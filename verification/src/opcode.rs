//! The instruction decoder: two raw bytes become the six fields of an instruction.

use vstd::prelude::*;

verus! {

/// A decoded instruction: `op`, `x`, `y`, `n`, `nn` and `nnn`, in this order.
///
/// For the instruction word `0xABCD` these are `0xA`, `0xB`, `0xC`, `0xD`, `0xCD` and `0xBCD`.
#[derive(Clone, Copy, Debug, PartialEq, Eq, Structural)]
pub struct OpCode(
    pub u8,  // op
    pub u8,  // x
    pub u8,  // y
    pub u8,  // n
    pub u8,  // nn
    pub u16,  // nnn
);

impl OpCode {
    /// The fields of the instruction whose first byte is `byte0` and whose second is `byte1`.
    pub open spec fn decode(byte0: u8, byte1: u8) -> OpCode {
        OpCode(
            byte0 >> 4,
            byte0 & 0xF,
            byte1 >> 4,
            byte1 & 0xF,
            byte1,
            (((byte0 & 0xF) as u16) << 8) | (byte1 as u16),
        )
    }

    /// The six fields agree with each other: four nibbles, `nn` made of `y` and `n`, and
    /// `nnn` made of `x` and `nn`. Exactly the values that `decode` produces are well formed.
    pub open spec fn wf(&self) -> bool {
        &&& self.0 < 16
        &&& self.1 < 16
        &&& self.2 < 16
        &&& self.3 < 16
        &&& self.4 == self.2 * 16 + self.3
        &&& self.5 == self.1 * 256 + self.4
    }

    /// The first byte of the instruction word that decodes to `self`.
    pub open spec fn byte0(&self) -> int {
        self.0 * 16 + self.1
    }

    /// The second byte of the instruction word that decodes to `self`.
    pub open spec fn byte1(&self) -> int {
        self.4 as int
    }

    /// Decodes the instruction word made of `byte0` and `byte1`.
    pub fn new(byte0: u8, byte1: u8) -> (opcode: Self)
        ensures
            opcode == Self::decode(byte0, byte1),
            opcode.wf(),
            opcode.byte0() == byte0,
            opcode.byte1() == byte1,
    {
        proof {
            Self::lemma_decode_fields(byte0, byte1);
        }
        let x: u8 = byte0 & 0x0F;
        let wide: u16 = x as u16;
        assert(wide * 256 + byte1 as u16 == (wide << 8) | (byte1 as u16)) by (bit_vector)
            requires
                wide < 16,
        ;
        Self(
            (byte0 & 0xF0) >> 4,
            x,
            (byte1 & 0xF0) >> 4,
            byte1 & 0x0F,
            byte1,
            wide * 256 + byte1 as u16,
        )
    }

    /// Decoding splits each byte into its two nibbles: in arithmetic, `op` and `x` are the
    /// quotient and remainder of `byte0` by 16, `y` and `n` those of `byte1`, and `nnn` is
    /// `x * 256 + byte1`.
    pub proof fn lemma_decode_fields(byte0: u8, byte1: u8)
        ensures
            Self::decode(byte0, byte1).0 == byte0 / 16,
            Self::decode(byte0, byte1).1 == byte0 % 16,
            Self::decode(byte0, byte1).2 == byte1 / 16,
            Self::decode(byte0, byte1).3 == byte1 % 16,
            Self::decode(byte0, byte1).4 == byte1,
            Self::decode(byte0, byte1).5 == (byte0 % 16) * 256 + byte1,
            Self::decode(byte0, byte1).0 == (byte0 & 0xF0) >> 4,
            Self::decode(byte0, byte1).2 == (byte1 & 0xF0) >> 4,
            Self::decode(byte0, byte1).wf(),
            Self::decode(byte0, byte1).byte0() == byte0,
            Self::decode(byte0, byte1).byte1() == byte1,
    {
        assert(byte0 >> 4 == byte0 / 16 && byte0 & 0xF == byte0 % 16 && (byte0 & 0xF0) >> 4
            == byte0 >> 4) by (bit_vector);
        assert(byte1 >> 4 == byte1 / 16 && byte1 & 0xF == byte1 % 16 && (byte1 & 0xF0) >> 4
            == byte1 >> 4) by (bit_vector);
        assert((((byte0 & 0xF) as u16) << 8) | (byte1 as u16) == (byte0 % 16) * 256 + byte1)
            by (bit_vector);
    }

    /// Every well-formed instruction is the decoding of its own two bytes.
    pub proof fn lemma_wf_is_decoded(self)
        requires
            self.wf(),
        ensures
            self == Self::decode(self.byte0() as u8, self.byte1() as u8),
    {
        Self::lemma_decode_fields(self.byte0() as u8, self.byte1() as u8);
    }
}

} // verus!
