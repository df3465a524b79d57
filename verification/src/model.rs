//! The machine as a mathematical value, and the meaning of each instruction
//! as a function from one such value to the next.

use vstd::prelude::*;
use crate::chip::{Chip8Error, Signal};
use crate::opcode::{decode_word, Opcode, RawOpcode};

verus! {

/// The whole state of the machine.
pub struct CpuState {
    /// 4096 bytes of memory.
    pub mem: Seq<u8>,
    /// 64 columns of 32 pixels, each 0 or 1.
    pub disp: Seq<Seq<u8>>,
    /// The index register I.
    pub index: u16,
    /// The return addresses of the active calls, the oldest first.
    pub stack: Seq<u16>,
    pub dt: u8,
    pub st: u8,
    /// The registers V0 to VF.
    pub reg: Seq<u8>,
    pub pc: u16,
    /// The logical code of the pad key that is pressed, if one is.
    pub key: Option<u8>,
}

/// A state after an instruction, and what the instruction reports.
pub struct Outcome {
    pub state: CpuState,
    pub result: Result<Signal, Chip8Error>,
}

/// A 16-bit value of an integer, wrapped.
pub open spec fn wrap16(v: int) -> u16 {
    (v % 65536) as u16
}

/// An 8-bit value of an integer, wrapped.
pub open spec fn wrap8(v: int) -> u8 {
    (v % 256) as u8
}

/// Bit `i` of a byte, counted from the most significant bit.
pub open spec fn bit_msb(byte: u8, i: int) -> bool {
    (byte >> ((7 - i) as u8)) & 1u8 == 1u8
}

/// The grid with every pixel off.
pub open spec fn blank_grid() -> Seq<Seq<u8>> {
    Seq::new(64, |x: int| Seq::new(32, |y: int| 0u8))
}

/// The sixteen glyphs of the hexadecimal digits, five bytes each.
pub open spec fn font_table() -> Seq<u8> {
    seq![
        0xF0u8, 0x90u8, 0x90u8, 0x90u8, 0xF0u8,
        0x20u8, 0x60u8, 0x20u8, 0x20u8, 0x70u8,
        0xF0u8, 0x10u8, 0xF0u8, 0x80u8, 0xF0u8,
        0xF0u8, 0x10u8, 0xF0u8, 0x10u8, 0xF0u8,
        0x90u8, 0x90u8, 0xF0u8, 0x10u8, 0x10u8,
        0xF0u8, 0x80u8, 0xF0u8, 0x10u8, 0xF0u8,
        0xF0u8, 0x80u8, 0xF0u8, 0x90u8, 0xF0u8,
        0xF0u8, 0x10u8, 0x20u8, 0x40u8, 0x40u8,
        0xF0u8, 0x90u8, 0xF0u8, 0x90u8, 0xF0u8,
        0xF0u8, 0x90u8, 0xF0u8, 0x10u8, 0xF0u8,
        0xF0u8, 0x90u8, 0xF0u8, 0x90u8, 0x90u8,
        0xE0u8, 0x90u8, 0xE0u8, 0x90u8, 0xE0u8,
        0xF0u8, 0x80u8, 0x80u8, 0x80u8, 0xF0u8,
        0xE0u8, 0x90u8, 0x90u8, 0x90u8, 0xE0u8,
        0xF0u8, 0x80u8, 0xF0u8, 0x80u8, 0xF0u8,
        0xF0u8, 0x80u8, 0xF0u8, 0x80u8, 0x80u8,
    ]
}

/// The memory `mem` with `bytes` written from address `start` on.
pub open spec fn memory_with(mem: Seq<u8>, start: int, bytes: Seq<u8>) -> Seq<u8> {
    Seq::new(
        4096,
        |a: int|
            if start <= a < start + bytes.len() {
                bytes[a - start]
            } else {
                mem[a]
            },
    )
}

/// The registers `reg` with V0 to Vx, both included, filled from `mem` from
/// address `index` on.
pub open spec fn registers_from(reg: Seq<u8>, mem: Seq<u8>, index: int, x: int) -> Seq<u8> {
    Seq::new(
        16,
        |i: int|
            if i <= x {
                mem[index + i]
            } else {
                reg[i]
            },
    )
}

/// The sprite of `n` rows at address `index`, put with its top left corner
/// at column `x0` and row `y0`, has a set bit on pixel (`c`, `r`).
pub open spec fn sprite_bit_at(mem: Seq<u8>, index: int, x0: int, y0: int, n: int, c: int, r: int) -> bool {
    &&& x0 <= c < x0 + 8
    &&& y0 <= r < y0 + n
    &&& bit_msb(mem[index + (r - y0)], c - x0)
}

/// The sprite has a set bit on a pixel of `disp` that is on.
pub open spec fn sprite_meets(
    mem: Seq<u8>,
    index: int,
    disp: Seq<Seq<u8>>,
    x0: int,
    y0: int,
    n: int,
) -> bool {
    exists|c: int, r: int|
        0 <= c < 64 && 0 <= r < 32 && #[trigger] sprite_bit_at(mem, index, x0, y0, n, c, r)
            && disp[c][r] == 1
}

/// The grid `disp` after the sprite has flipped every pixel under a set
/// bit; what would fall beyond the last column or row is left out.
pub open spec fn grid_with_sprite(
    mem: Seq<u8>,
    index: int,
    disp: Seq<Seq<u8>>,
    x0: int,
    y0: int,
    n: int,
) -> Seq<Seq<u8>> {
    Seq::new(
        64,
        |c: int|
            Seq::new(
                32,
                |r: int|
                    if sprite_bit_at(mem, index, x0, y0, n, c, r) {
                        (1 - disp[c][r]) as u8
                    } else {
                        disp[c][r]
                    },
            ),
    )
}

impl CpuState {
    /// The state of a machine that was just switched on.
    pub open spec fn initial() -> CpuState {
        CpuState {
            mem: Seq::new(4096, |a: int| 0u8),
            disp: blank_grid(),
            index: 0,
            stack: Seq::empty(),
            dt: 0,
            st: 0,
            reg: Seq::new(16, |i: int| 0u8),
            pc: 0x200,
            key: None,
        }
    }

    pub open spec fn wf(self) -> bool {
        &&& self.mem.len() == 4096
        &&& self.disp.len() == 64
        &&& forall|x: int| 0 <= x < 64 ==> (#[trigger] self.disp[x]).len() == 32
        &&& forall|x: int, y: int| 0 <= x < 64 && 0 <= y < 32 ==> #[trigger] self.disp[x][y] <= 1
        &&& self.stack.len() <= 16
        &&& self.reg.len() == 16
        &&& (self.key matches Some(k) ==> k < 16)
    }

    /// The instruction left the state as it was and has nothing to report.
    pub open spec fn done(self) -> Outcome {
        Outcome { state: self, result: Ok(Signal::NoSignal) }
    }

    /// The instruction was refused, and the state is as it was.
    pub open spec fn fail(self, error: Chip8Error) -> Outcome {
        Outcome { state: self, result: Err(error) }
    }

    pub open spec fn with_reg(self, x: int, v: u8) -> CpuState {
        CpuState { reg: self.reg.update(x, v), ..self }
    }

    pub open spec fn with_key(self, key: Option<u8>) -> CpuState {
        CpuState { key, ..self }
    }

    pub open spec fn with_pc(self, pc: u16) -> CpuState {
        CpuState { pc, ..self }
    }

    /// The program counter moved past one more instruction.
    pub open spec fn skip(self) -> CpuState {
        self.with_pc(wrap16(self.pc + 2))
    }

    pub open spec fn skip_if(self, cond: bool) -> CpuState {
        if cond {
            self.skip()
        } else {
            self
        }
    }

    /// The state with `bytes` written to memory from address `start` on.
    pub open spec fn loaded(self, start: int, bytes: Seq<u8>) -> CpuState {
        CpuState { mem: memory_with(self.mem, start, bytes), ..self }
    }

    /// The instruction word at the program counter, high byte first.
    pub open spec fn next_word(self) -> u16 {
        (self.mem[self.pc as int] * 256 + self.mem[self.pc + 1]) as u16
    }

    /// The instruction at the program counter asks which key is pressed.
    pub open spec fn wants_key(self) -> bool {
        self.pc + 1 < 4096 && {
            let opcode = decode_word(self.next_word());
            opcode == Opcode::SkipIfKey || opcode == Opcode::SkipIfNotKey || opcode
                == Opcode::GetKey
        }
    }

    /// Both timers one step nearer to zero.
    pub open spec fn ticked(self) -> CpuState {
        CpuState {
            dt: if self.dt > 0 {
                (self.dt - 1) as u8
            } else {
                0
            },
            st: if self.st > 0 {
                (self.st - 1) as u8
            } else {
                0
            },
            ..self
        }
    }

    pub open spec fn clear(self) -> Outcome {
        Outcome { state: CpuState { disp: blank_grid(), ..self }, result: Ok(Signal::ClearScreen) }
    }

    pub open spec fn goto_sub(self, nnn: int) -> Outcome {
        if self.stack.len() >= 16 {
            self.fail(Chip8Error::StackOverflow)
        } else {
            CpuState { stack: self.stack.push(self.pc), pc: nnn as u16, ..self }.done()
        }
    }

    pub open spec fn return_sub(self) -> Outcome {
        if self.stack.len() == 0 {
            self.fail(Chip8Error::StackUnderflow)
        } else {
            CpuState { stack: self.stack.drop_last(), pc: self.stack.last(), ..self }.done()
        }
    }

    /// With a key pressed its code goes to Vx; with none the program counter
    /// steps back onto the instruction, which so runs again.
    pub open spec fn get_key(self, x: int) -> CpuState {
        match self.key {
            Some(k) => self.with_reg(x, k),
            None => self.with_pc(wrap16(self.pc - 2)),
        }
    }

    /// I grows by Vx; VF becomes 1 where I leaves the memory, and else stays.
    pub open spec fn add_i(self, x: int) -> CpuState {
        let index = wrap16(self.index + self.reg[x]);
        CpuState {
            index,
            reg: if index >= 0x1000 {
                self.reg.update(15, 1u8)
            } else {
                self.reg
            },
            ..self
        }
    }

    /// Vx receives the sum, then VF the carry: where Vx is VF itself, the
    /// carry is what stays.
    pub open spec fn add_reg(self, x: int, y: int) -> CpuState {
        let sum = self.reg[x] + self.reg[y];
        let flag = if sum > 255 {
            1u8
        } else {
            0u8
        };
        self.with_reg(x, wrap8(sum)).with_reg(15, flag)
    }

    /// Vx receives the difference `a - b`, then VF 1 where nothing is
    /// borrowed and 0 where it is: where Vx is VF itself, that flag is what
    /// stays.
    pub open spec fn sub_reg(self, x: int, a: u8, b: u8) -> CpuState {
        let flag = if a >= b {
            1u8
        } else {
            0u8
        };
        self.with_reg(x, wrap8(a - b)).with_reg(15, flag)
    }

    /// Vx is halved, then VF receives the bit that fell off.
    pub open spec fn shift_right(self, x: int) -> CpuState {
        let v = self.reg[x];
        self.with_reg(x, (v / 2) as u8).with_reg(15, (v % 2) as u8)
    }

    /// Vx is doubled, then VF receives the bit that fell off.
    pub open spec fn shift_left(self, x: int) -> CpuState {
        let v = self.reg[x];
        self.with_reg(x, wrap8(v * 2)).with_reg(15, (v / 128) as u8)
    }

    /// The three decimal digits of Vx at I, I+1 and I+2.
    pub open spec fn bcd(self, x: int) -> Outcome {
        let v = self.reg[x];
        let i = self.index as int;
        if i + 2 >= 4096 {
            self.fail(Chip8Error::LoadError)
        } else {
            CpuState {
                mem: self.mem.update(i, (v / 100) as u8).update(i + 1, ((v / 10) % 10) as u8).update(
                    i + 2,
                    (v % 10) as u8,
                ),
                ..self
            }.done()
        }
    }

    /// V0 to Vx, both included, copied to memory from I on.
    pub open spec fn store_regs(self, x: int) -> Outcome {
        if self.index + x >= 4096 {
            self.fail(Chip8Error::LoadError)
        } else {
            self.loaded(self.index as int, self.reg.take(x + 1)).done()
        }
    }

    /// V0 to Vx, both included, filled from memory from I on.
    pub open spec fn load_regs(self, x: int) -> Outcome {
        if self.index + x >= 4096 {
            self.fail(Chip8Error::LoadError)
        } else {
            CpuState {
                reg: registers_from(self.reg, self.mem, self.index as int, x),
                ..self
            }.done()
        }
    }

    /// The sprite of `n` rows at I, put with its top left corner at column
    /// `x0` and row `y0`, has a set bit on pixel (`c`, `r`).
    pub open spec fn sprite_hits(self, x0: int, y0: int, n: int, c: int, r: int) -> bool {
        sprite_bit_at(self.mem, self.index as int, x0, y0, n, c, r)
    }

    /// The sprite turns off a pixel that was on.
    pub open spec fn sprite_collides(self, x0: int, y0: int, n: int) -> bool {
        sprite_meets(self.mem, self.index as int, self.disp, x0, y0, n)
    }

    /// The grid after the sprite has flipped every pixel under a set bit.
    pub open spec fn sprite_grid(self, x0: int, y0: int, n: int) -> Seq<Seq<u8>> {
        grid_with_sprite(self.mem, self.index as int, self.disp, x0, y0, n)
    }

    /// The sprite of `n` bytes at I is drawn at column Vx mod 64 and row Vy
    /// mod 32; VF tells whether it turned a pixel off. A sprite whose bytes
    /// do not all lie within memory is refused.
    pub open spec fn draw(self, x: int, y: int, n: int) -> Outcome {
        let x0 = (self.reg[x] % 64) as int;
        let y0 = (self.reg[y] % 32) as int;
        if self.index + n > 4096 {
            self.fail(Chip8Error::LoadError)
        } else {
            let grid = self.sprite_grid(x0, y0, n);
            let flag = if self.sprite_collides(x0, y0, n) {
                1u8
            } else {
                0u8
            };
            Outcome {
                state: CpuState { disp: grid, reg: self.reg.update(15, flag), ..self },
                result: Ok(Signal::DrawScreen(grid)),
            }
        }
    }

    /// The effect of one instruction with operands `x`, `y`, `n`, `kk` and
    /// `nnn`, where `rnd` is the byte that chance gave.
    pub open spec fn apply(
        self,
        opcode: Opcode,
        x: int,
        y: int,
        n: int,
        kk: int,
        nnn: int,
        rnd: u8,
    ) -> Outcome {
        let vx = self.reg[x];
        let vy = self.reg[y];
        match opcode {
            Opcode::NoOp => self.done(),
            Opcode::Error => self.fail(Chip8Error::DecodeError),
            Opcode::Clear => self.clear(),
            Opcode::Jump => self.with_pc(nnn as u16).done(),
            Opcode::ReturnSub => self.return_sub(),
            Opcode::GotoSub => self.goto_sub(nnn),
            Opcode::SkipEqual => self.skip_if(vx == kk).done(),
            Opcode::SkipNotEqual => self.skip_if(vx != kk).done(),
            Opcode::SkipVXEqualVY => self.skip_if(vx == vy).done(),
            Opcode::SkipVXNotEqualVY => self.skip_if(vx != vy).done(),
            Opcode::SkipIfKey => self.skip_if(self.key == Some(vx)).done(),
            Opcode::SkipIfNotKey => self.skip_if(self.key != Some(vx)).done(),
            Opcode::GetKey => self.get_key(x).done(),
            Opcode::SetVX => self.with_reg(x, kk as u8).done(),
            Opcode::AddVX => self.with_reg(x, wrap8(vx + kk)).done(),
            Opcode::SetI => CpuState { index: nnn as u16, ..self }.done(),
            Opcode::AddI => self.add_i(x).done(),
            Opcode::JumpWithOffset => self.with_pc((nnn + self.reg[0]) as u16).done(),
            Opcode::Random => self.with_reg(x, rnd & (kk as u8)).done(),
            Opcode::Draw => self.draw(x, y, n),
            Opcode::FontCharacter => CpuState { index: (vx * 5 + 0x50) as u16, ..self }.done(),
            Opcode::SetVXToVY => self.with_reg(x, vy).done(),
            Opcode::BinaryOr => self.with_reg(x, vx | vy).done(),
            Opcode::BinaryAnd => self.with_reg(x, vx & vy).done(),
            Opcode::BinaryXor => self.with_reg(x, vx ^ vy).done(),
            Opcode::AddVYToVX => self.add_reg(x, y).done(),
            Opcode::SubVYFromVX => self.sub_reg(x, vx, vy).done(),
            Opcode::SubVXFromVY => self.sub_reg(x, vy, vx).done(),
            Opcode::ShiftRight => self.shift_right(x).done(),
            Opcode::ShiftLeft => self.shift_left(x).done(),
            Opcode::BinaryCodedDecimalConversion => self.bcd(x),
            Opcode::SetVXToDT => self.with_reg(x, self.dt).done(),
            Opcode::SetDTToVX => CpuState { dt: vx, ..self }.done(),
            Opcode::SetSTToVX => CpuState { st: vx, ..self }.done(),
            Opcode::SaveRegisterToMemory => self.store_regs(x),
            Opcode::LoadRegisterFromMemory => self.load_regs(x),
        }
    }

    /// The effect of the instruction that the fields `raw` stand for; fields
    /// that belong to no instruction word are refused.
    pub open spec fn step(self, raw: RawOpcode, rnd: u8) -> Outcome {
        if raw.is_word() {
            self.apply(
                raw.opcode(),
                raw.x() as int,
                raw.y() as int,
                raw.n() as int,
                raw.kk() as int,
                raw.spec_nnn(),
                rnd,
            )
        } else {
            self.fail(Chip8Error::DecodeError)
        }
    }

    /// The effect of the instruction word `inst`.
    pub open spec fn step_word(self, inst: u16, rnd: u8) -> Outcome {
        self.apply(
            decode_word(inst),
            ((inst / 256) % 16) as int,
            ((inst / 16) % 16) as int,
            (inst % 16) as int,
            (inst % 256) as int,
            (inst % 4096) as int,
            rnd,
        )
    }
}

} // verus!
