//! Instruction words, their operand fields, and the decoder.

use vstd::prelude::*;
use vstd::std_specs::convert::FromSpecImpl;
use vstd::string::StringExecFns;
use crate::text::{hex_text, write_hex};

verus! {

/// The operand fields of one 16-bit instruction word.
#[derive(Debug, Clone, Copy)]
pub struct RawOpcode {
    op: u16,
    x: u16,
    y: u16,
    n: u16,
    kk: u16,
}

/// The instructions of the machine, and two sentinels: `NoOp` for a word of
/// a known family that selects no instruction, `Error` for an unknown family.
#[derive(Debug, Clone, Copy, PartialEq, Eq, Structural)]
pub enum Opcode {
    Clear,
    Jump,
    ReturnSub,
    GotoSub,
    SkipEqual,
    SkipNotEqual,
    SkipVXEqualVY,
    SkipVXNotEqualVY,
    SkipIfKey,
    SkipIfNotKey,
    GetKey,
    SetVX,
    AddVX,
    SetI,
    AddI,
    JumpWithOffset,
    Random,
    Draw,
    FontCharacter,
    SetVXToVY,
    BinaryOr,
    BinaryAnd,
    BinaryXor,
    AddVYToVX,
    SubVYFromVX,
    SubVXFromVY,
    ShiftRight,
    ShiftLeft,
    BinaryCodedDecimalConversion,
    SetVXToDT,
    SetDTToVX,
    SetSTToVX,
    SaveRegisterToMemory,
    LoadRegisterFromMemory,
    NoOp,
    Error,
}

/// The instruction selected inside family `0`.
pub open spec fn decode_system(x: u16, y: u16, n: u16) -> Opcode {
    if x == 0 && y == 0xE && n == 0 {
        Opcode::Clear
    } else if x == 0 && y == 0xE && n == 0xE {
        Opcode::ReturnSub
    } else {
        Opcode::NoOp
    }
}

/// The instruction selected inside family `8` by the low nibble.
pub open spec fn decode_arith(n: u16) -> Opcode {
    if n == 0 {
        Opcode::SetVXToVY
    } else if n == 1 {
        Opcode::BinaryOr
    } else if n == 2 {
        Opcode::BinaryAnd
    } else if n == 3 {
        Opcode::BinaryXor
    } else if n == 4 {
        Opcode::AddVYToVX
    } else if n == 5 {
        Opcode::SubVYFromVX
    } else if n == 6 {
        Opcode::ShiftRight
    } else if n == 7 {
        Opcode::SubVXFromVY
    } else if n == 0xE {
        Opcode::ShiftLeft
    } else {
        Opcode::NoOp
    }
}

/// The instruction selected inside family `E` by the low byte.
pub open spec fn decode_keys(kk: u16) -> Opcode {
    if kk == 0x9E {
        Opcode::SkipIfKey
    } else if kk == 0xA1 {
        Opcode::SkipIfNotKey
    } else {
        Opcode::NoOp
    }
}

/// The instruction selected inside family `F` by the low byte.
pub open spec fn decode_misc(kk: u16) -> Opcode {
    if kk == 0x07 {
        Opcode::SetVXToDT
    } else if kk == 0x15 {
        Opcode::SetDTToVX
    } else if kk == 0x18 {
        Opcode::SetSTToVX
    } else if kk == 0x1E {
        Opcode::AddI
    } else if kk == 0x0A {
        Opcode::GetKey
    } else if kk == 0x29 {
        Opcode::FontCharacter
    } else if kk == 0x33 {
        Opcode::BinaryCodedDecimalConversion
    } else if kk == 0x55 {
        Opcode::SaveRegisterToMemory
    } else if kk == 0x65 {
        Opcode::LoadRegisterFromMemory
    } else {
        Opcode::NoOp
    }
}

/// The instruction that a set of operand fields stands for.
pub open spec fn decode_fields(op: u16, x: u16, y: u16, n: u16, kk: u16) -> Opcode {
    if op == 0 {
        decode_system(x, y, n)
    } else if op == 1 {
        Opcode::Jump
    } else if op == 2 {
        Opcode::GotoSub
    } else if op == 3 {
        Opcode::SkipEqual
    } else if op == 4 {
        Opcode::SkipNotEqual
    } else if op == 5 {
        Opcode::SkipVXEqualVY
    } else if op == 6 {
        Opcode::SetVX
    } else if op == 7 {
        Opcode::AddVX
    } else if op == 8 {
        decode_arith(n)
    } else if op == 9 {
        Opcode::SkipVXNotEqualVY
    } else if op == 0xA {
        Opcode::SetI
    } else if op == 0xB {
        Opcode::JumpWithOffset
    } else if op == 0xC {
        Opcode::Random
    } else if op == 0xD {
        Opcode::Draw
    } else if op == 0xE {
        decode_keys(kk)
    } else if op == 0xF {
        decode_misc(kk)
    } else {
        Opcode::Error
    }
}

impl RawOpcode {
    pub closed spec fn spec_op(&self) -> u16 {
        self.op
    }

    pub closed spec fn spec_x(&self) -> u16 {
        self.x
    }

    pub closed spec fn spec_y(&self) -> u16 {
        self.y
    }

    pub closed spec fn spec_n(&self) -> u16 {
        self.n
    }

    pub closed spec fn spec_kk(&self) -> u16 {
        self.kk
    }

    /// The fields are those of some instruction word: a family and three
    /// nibbles below 16, and the low byte made of the last two nibbles.
    pub open spec fn is_word(&self) -> bool {
        &&& self.op() < 16
        &&& self.x() < 16
        &&& self.y() < 16
        &&& self.n() < 16
        &&& self.kk() == self.y() * 16 + self.n()
    }

    /// The instruction word that the fields of `is_word` spell.
    pub open spec fn word(&self) -> int {
        self.op() * 4096 + self.x() * 256 + self.kk()
    }

    /// The low twelve bits of the word: an address.
    pub open spec fn spec_nnn(&self) -> int {
        self.x() * 256 + self.kk()
    }

    /// The instruction that these fields stand for.
    pub open spec fn opcode(&self) -> Opcode {
        decode_fields(self.op(), self.x(), self.y(), self.n(), self.kk())
    }

    pub fn new(op: u16, x: u16, y: u16, n: u16, kk: u16) -> (raw: Self)
        ensures
            raw.op() == op,
            raw.x() == x,
            raw.y() == y,
            raw.n() == n,
            raw.kk() == kk,
    {
        RawOpcode { op, x, y, n, kk }
    }

    /// Splits an instruction word into its fields.
    pub fn from_word(inst: u16) -> (raw: Self)
        ensures
            raw.op() == inst / 4096,
            raw.x() == (inst / 256) % 16,
            raw.y() == (inst / 16) % 16,
            raw.n() == inst % 16,
            raw.kk() == inst % 256,
            raw.spec_nnn() == inst % 4096,
            raw.is_word(),
            raw.word() == inst,
    {
        let op: u16 = inst >> 12;
        let x: u16 = (inst & 0x0F00) >> 8;
        let y: u16 = (inst & 0x00F0) >> 4;
        let n: u16 = inst & 0x000F;
        let kk: u16 = inst & 0x00FF;
        assert(inst >> 12 == inst / 4096) by (bit_vector);
        assert((inst & 0x0F00) >> 8 == (inst / 256) % 16) by (bit_vector);
        assert((inst & 0x00F0) >> 4 == (inst / 16) % 16) by (bit_vector);
        assert(inst & 0x000F == inst % 16) by (bit_vector);
        assert(inst & 0x00FF == inst % 256) by (bit_vector);
        RawOpcode { op, x, y, n, kk }
    }

    /// The fields as a line of text: the family and the three nibbles in
    /// hexadecimal, and a line feed.
    pub fn to_string(&self) -> (s: String)
        ensures
            s@ == hex_text(self.op() as nat) + hex_text(self.x() as nat) + hex_text(
                self.y() as nat,
            ) + hex_text(self.n() as nat) + "\n"@,
    {
        let mut line = write_hex(self.op);
        line.append(write_hex(self.x).as_str());
        line.append(write_hex(self.y).as_str());
        line.append(write_hex(self.n).as_str());
        line.append("\n");
        line
    }

    #[verifier::when_used_as_spec(spec_op)]
    pub fn op(&self) -> (r: u16)
        ensures
            r == self.op(),
    {
        self.op
    }

    #[verifier::when_used_as_spec(spec_x)]
    pub fn x(&self) -> (r: u16)
        ensures
            r == self.x(),
    {
        self.x
    }

    #[verifier::when_used_as_spec(spec_y)]
    pub fn y(&self) -> (r: u16)
        ensures
            r == self.y(),
    {
        self.y
    }

    #[verifier::when_used_as_spec(spec_n)]
    pub fn n(&self) -> (r: u16)
        ensures
            r == self.n(),
    {
        self.n
    }

    #[verifier::when_used_as_spec(spec_kk)]
    pub fn kk(&self) -> (r: u16)
        ensures
            r == self.kk(),
    {
        self.kk
    }
}

impl Opcode {
    /// Decodes one instruction word.
    pub fn decode(inst: u16) -> (opcode: Opcode)
        ensures
            opcode == decode_word(inst),
    {
        let raw = RawOpcode::from_word(inst);
        Opcode::from(&raw)
    }
}

/// The instruction that a 16-bit word stands for.
pub open spec fn decode_word(inst: u16) -> Opcode {
    decode_fields(inst / 4096, (inst / 256) % 16, (inst / 16) % 16, inst % 16, inst % 256)
}

impl From<&RawOpcode> for Opcode {
    fn from(raw_op: &RawOpcode) -> (opcode: Opcode) {
        match raw_op.op {
            0 => {
                if raw_op.x == 0 && raw_op.y == 0xE && raw_op.n == 0 {
                    Opcode::Clear
                } else if raw_op.x == 0 && raw_op.y == 0xE && raw_op.n == 0xE {
                    Opcode::ReturnSub
                } else {
                    Opcode::NoOp
                }
            },
            1 => Opcode::Jump,
            2 => Opcode::GotoSub,
            3 => Opcode::SkipEqual,
            4 => Opcode::SkipNotEqual,
            5 => Opcode::SkipVXEqualVY,
            6 => Opcode::SetVX,
            7 => Opcode::AddVX,
            8 => match raw_op.n {
                0 => Opcode::SetVXToVY,
                1 => Opcode::BinaryOr,
                2 => Opcode::BinaryAnd,
                3 => Opcode::BinaryXor,
                4 => Opcode::AddVYToVX,
                5 => Opcode::SubVYFromVX,
                6 => Opcode::ShiftRight,
                7 => Opcode::SubVXFromVY,
                0xE => Opcode::ShiftLeft,
                _ => Opcode::NoOp,
            },
            9 => Opcode::SkipVXNotEqualVY,
            0xA => Opcode::SetI,
            0xB => Opcode::JumpWithOffset,
            0xC => Opcode::Random,
            0xD => Opcode::Draw,
            0xE => match raw_op.kk {
                0x9E => Opcode::SkipIfKey,
                0xA1 => Opcode::SkipIfNotKey,
                _ => Opcode::NoOp,
            },
            0xF => match raw_op.kk {
                0x07 => Opcode::SetVXToDT,
                0x15 => Opcode::SetDTToVX,
                0x18 => Opcode::SetSTToVX,
                0x1E => Opcode::AddI,
                0x0A => Opcode::GetKey,
                0x29 => Opcode::FontCharacter,
                0x33 => Opcode::BinaryCodedDecimalConversion,
                0x55 => Opcode::SaveRegisterToMemory,
                0x65 => Opcode::LoadRegisterFromMemory,
                _ => Opcode::NoOp,
            },
            _ => Opcode::Error,
        }
    }
}

impl FromSpecImpl<&RawOpcode> for Opcode {
    open spec fn obeys_from_spec() -> bool {
        true
    }

    open spec fn from_spec(raw_op: &RawOpcode) -> Opcode {
        raw_op.opcode()
    }
}

} // verus!
