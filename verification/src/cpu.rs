//! The processor: its state and the execution engine.

use vstd::prelude::*;
use bitvec::order::Msb0;
use bitvec::view::BitView;
use crate::chip::{grid_view, Chip8Error, Chip8Message, KeyCode, Signal};
use crate::model::{
    bit_msb, blank_grid, font_table, sprite_bit_at, wrap8, CpuState, Outcome,
};
use crate::opcode::{decode_word, Opcode, RawOpcode};

verus! {

/// Every program starts with the program counter here.
pub const START: u16 = 0x200;

/// The address at which the glyphs of the hexadecimal digits are kept.
pub const FONT_START: u16 = 0x50;

/// The glyphs of the hexadecimal digits 0 to F, five bytes each.
pub const FONT_SET: [u8; 80] = [
    0xF0, 0x90, 0x90, 0x90, 0xF0,
    0x20, 0x60, 0x20, 0x20, 0x70,
    0xF0, 0x10, 0xF0, 0x80, 0xF0,
    0xF0, 0x10, 0xF0, 0x10, 0xF0,
    0x90, 0x90, 0xF0, 0x10, 0x10,
    0xF0, 0x80, 0xF0, 0x10, 0xF0,
    0xF0, 0x80, 0xF0, 0x90, 0xF0,
    0xF0, 0x10, 0x20, 0x40, 0x40,
    0xF0, 0x90, 0xF0, 0x90, 0xF0,
    0xF0, 0x90, 0xF0, 0x10, 0xF0,
    0xF0, 0x90, 0xF0, 0x90, 0x90,
    0xE0, 0x90, 0xE0, 0x90, 0xE0,
    0xF0, 0x80, 0x80, 0x80, 0xF0,
    0xE0, 0x90, 0x90, 0x90, 0xE0,
    0xF0, 0x80, 0xF0, 0x80, 0xF0,
    0xF0, 0x80, 0xF0, 0x80, 0x80,
];

/// The processor of the machine: memory, display, registers, call stack,
/// timers, program counter, and the key that the host last reported.
#[derive(Debug)]
pub struct Cpu {
    mem: [u8; 4096],
    disp: [[u8; 32]; 64],
    index: u16,
    stack: [u16; 16],
    depth: usize,
    dt: u8,
    st: u8,
    reg: [u8; 16],
    pc: u16,
    key: KeyCode,
}

/// An engine's report as a mathematical value.
pub open spec fn result_view(res: Result<Chip8Message, Chip8Error>) -> Result<Signal, Chip8Error> {
    match res {
        Ok(msg) => Ok(msg@),
        Err(e) => Err(e),
    }
}

/// `rand::random::<u8>()`: a byte from the thread's random number generator.
/// Nothing is claimed of the byte. The generator panics where the operating
/// system cannot seed it; a host that must not panic hands the byte in
/// itself, through `execute_with` or `cycle_with`.
#[verifier::external_body]
fn random_byte() -> u8 {
    rand::random::<u8>()
}

/// The bits of a byte in the order in which bitvec's
/// `view_bits::<Msb0>().iter().by_vals()` hands them out: eight of them, the
/// most significant first.
#[verifier::external_body]
fn sprite_bits(byte: u8) -> (bits: Vec<bool>)
    ensures
        bits@.len() == 8,
        forall|i: int| 0 <= i < 8 ==> bits@[i] == bit_msb(byte, i),
{
    byte.view_bits::<Msb0>().iter().by_vals().collect()
}

impl View for Cpu {
    type V = CpuState;

    closed spec fn view(&self) -> CpuState {
        CpuState {
            mem: self.mem@,
            disp: grid_view(self.disp),
            index: self.index,
            stack: self.stack@.take(self.depth as int),
            dt: self.dt,
            st: self.st,
            reg: self.reg@,
            pc: self.pc,
            key: self.key.spec_code(),
        }
    }
}

impl Cpu {
    /// The call stack holds at most sixteen frames and every pixel is 0 or 1.
    pub closed spec fn wf(&self) -> bool {
        &&& self.depth <= 16
        &&& forall|x: int, y: int| 0 <= x < 64 && 0 <= y < 32 ==> #[trigger] self.disp@[x]@[y] <= 1
    }

    /// The key that the host last reported.
    pub closed spec fn spec_key(&self) -> KeyCode {
        self.key
    }

    /// A well-formed processor has a well-formed state.
    pub proof fn lemma_view_wf(&self)
        requires
            self.wf(),
        ensures
            self@.wf(),
            self@.key == self.spec_key().spec_code(),
    {
        assert forall|x: int, y: int| 0 <= x < 64 && 0 <= y < 32 implies #[trigger] self@.disp[x][y]
            <= 1 by {
            assert(self.disp@[x]@[y] <= 1);
        }
    }

    /// This processor's state and `res` are the outcome `out`.
    pub open spec fn produces(&self, res: Result<Chip8Message, Chip8Error>, out: Outcome) -> bool {
        self@ == out.state && result_view(res) == out.result
    }

    pub fn new() -> (cpu: Self)
        ensures
            cpu.wf(),
            cpu@ == CpuState::initial(),
            cpu.spec_key() == KeyCode::Null,
    {
        let cpu = Cpu {
            mem: [0u8; 4096],
            disp: [[0u8; 32]; 64],
            index: 0,
            stack: [0u16; 16],
            depth: 0,
            dt: 0,
            st: 0,
            reg: [0u8; 16],
            pc: START,
            key: KeyCode::Null,
        };
        proof {
            let init = CpuState::initial();
            assert(cpu@.mem =~= init.mem);
            assert(cpu@.reg =~= init.reg);
            assert(cpu@.stack =~= init.stack);
            assert forall|x: int| 0 <= x < 64 implies #[trigger] cpu@.disp[x] =~= init.disp[x] by {
                assert(cpu.disp@[x]@ =~= init.disp[x]);
            }
            assert(cpu@.disp =~= init.disp);
        }
        cpu
    }

    /// Pushes a return address on the call stack.
    pub fn push_return(&mut self, addr: u16) -> (res: Result<(), Chip8Error>)
        requires
            old(self).wf(),
        ensures
            final(self).wf(),
            final(self).spec_key() == old(self).spec_key(),
            old(self)@.stack.len() >= 16 ==> res == Err::<(), Chip8Error>(Chip8Error::StackOverflow)
                && final(self)@ == old(self)@,
            old(self)@.stack.len() < 16 ==> res.is_ok() && final(self)@ == (CpuState {
                stack: old(self)@.stack.push(addr),
                ..old(self)@
            }),
    {
        if self.depth >= 16 {
            return Err(Chip8Error::StackOverflow);
        }
        self.stack[self.depth] = addr;
        self.depth = self.depth + 1;
        proof {
            assert(self@.stack =~= old(self)@.stack.push(addr));
        }
        Ok(())
    }

    /// Pops the newest return address off the call stack.
    pub fn pop_return(&mut self) -> (res: Result<u16, Chip8Error>)
        requires
            old(self).wf(),
        ensures
            final(self).wf(),
            final(self).spec_key() == old(self).spec_key(),
            old(self)@.stack.len() == 0 ==> res == Err::<u16, Chip8Error>(
                Chip8Error::StackUnderflow,
            ) && final(self)@ == old(self)@,
            old(self)@.stack.len() > 0 ==> res == Ok::<u16, Chip8Error>(old(self)@.stack.last())
                && final(self)@ == (CpuState {
                stack: old(self)@.stack.drop_last(),
                ..old(self)@
            }),
    {
        if self.depth == 0 {
            return Err(Chip8Error::StackUnderflow);
        }
        self.depth = self.depth - 1;
        let addr = self.stack[self.depth];
        proof {
            assert(self@.stack =~= old(self)@.stack.drop_last());
        }
        Ok(addr)
    }

    fn clear(&mut self)
        requires
            old(self).wf(),
        ensures
            final(self).wf(),
            final(self).spec_key() == old(self).spec_key(),
            final(self)@ == old(self)@.clear().state,
    {
        self.disp = [[0u8; 32]; 64];
        proof {
            let blank = blank_grid();
            assert forall|x: int| 0 <= x < 64 implies #[trigger] self@.disp[x] =~= blank[x] by {
                assert(self.disp@[x]@ =~= blank[x]);
            }
            assert(self@.disp =~= blank);
        }
    }

    fn jump(&mut self, nnn: u16)
        requires
            old(self).wf(),
        ensures
            final(self).wf(),
            final(self).spec_key() == old(self).spec_key(),
            final(self)@ == old(self)@.with_pc(nnn),
    {
        self.pc = nnn;
    }

    fn return_sub(&mut self) -> (res: Result<Chip8Message, Chip8Error>)
        requires
            old(self).wf(),
        ensures
            final(self).wf(),
            final(self).spec_key() == old(self).spec_key(),
            final(self).produces(res, old(self)@.return_sub()),
    {
        match self.pop_return() {
            Ok(addr) => {
                self.pc = addr;
                Ok(Chip8Message::NoSignal)
            },
            Err(e) => Err(e),
        }
    }

    fn goto_sub(&mut self, nnn: u16) -> (res: Result<Chip8Message, Chip8Error>)
        requires
            old(self).wf(),
        ensures
            final(self).wf(),
            final(self).spec_key() == old(self).spec_key(),
            final(self).produces(res, old(self)@.goto_sub(nnn as int)),
    {
        let pc = self.pc;
        match self.push_return(pc) {
            Ok(()) => {
                self.pc = nnn;
                Ok(Chip8Message::NoSignal)
            },
            Err(e) => Err(e),
        }
    }

    /// Moves the program counter past one more instruction where `cond` holds.
    fn skip_when(&mut self, cond: bool)
        requires
            old(self).wf(),
        ensures
            final(self).wf(),
            final(self).spec_key() == old(self).spec_key(),
            final(self)@ == old(self)@.skip_if(cond),
    {
        if cond {
            self.pc = ((self.pc as u32 + 2) % 65536) as u16;
        }
    }

    fn skip_equal(&mut self, x: u16, nn: u16)
        requires
            old(self).wf(),
            x < 16,
            nn < 256,
        ensures
            final(self).wf(),
            final(self).spec_key() == old(self).spec_key(),
            final(self)@ == old(self)@.skip_if(old(self)@.reg[x as int] == nn),
    {
        let equal = self.reg[x as usize] as u16 == nn;
        self.skip_when(equal);
    }

    fn skip_not_equal(&mut self, x: u16, nn: u16)
        requires
            old(self).wf(),
            x < 16,
            nn < 256,
        ensures
            final(self).wf(),
            final(self).spec_key() == old(self).spec_key(),
            final(self)@ == old(self)@.skip_if(old(self)@.reg[x as int] != nn),
    {
        let differ = self.reg[x as usize] as u16 != nn;
        self.skip_when(differ);
    }

    fn skip_vx_equal_vy(&mut self, x: u16, y: u16)
        requires
            old(self).wf(),
            x < 16,
            y < 16,
        ensures
            final(self).wf(),
            final(self).spec_key() == old(self).spec_key(),
            final(self)@ == old(self)@.skip_if(old(self)@.reg[x as int] == old(self)@.reg[y as int]),
    {
        let equal = self.reg[x as usize] == self.reg[y as usize];
        self.skip_when(equal);
    }

    fn skip_vx_not_equal_vy(&mut self, x: u16, y: u16)
        requires
            old(self).wf(),
            x < 16,
            y < 16,
        ensures
            final(self).wf(),
            final(self).spec_key() == old(self).spec_key(),
            final(self)@ == old(self)@.skip_if(old(self)@.reg[x as int] != old(self)@.reg[y as int]),
    {
        let differ = self.reg[x as usize] != self.reg[y as usize];
        self.skip_when(differ);
    }

    fn skip_if_key(&mut self, x: u16)
        requires
            old(self).wf(),
            x < 16,
        ensures
            final(self).wf(),
            final(self).spec_key() == old(self).spec_key(),
            final(self)@ == old(self)@.skip_if(old(self)@.key == Some(old(self)@.reg[x as int])),
    {
        let key = self.reg[x as usize];
        let pressed = match self.key.code() {
            Some(k) => k == key,
            None => false,
        };
        self.skip_when(pressed);
    }

    fn skip_if_not_key(&mut self, x: u16)
        requires
            old(self).wf(),
            x < 16,
        ensures
            final(self).wf(),
            final(self).spec_key() == old(self).spec_key(),
            final(self)@ == old(self)@.skip_if(old(self)@.key != Some(old(self)@.reg[x as int])),
    {
        let key = self.reg[x as usize];
        let other = match self.key.code() {
            Some(k) => k != key,
            None => true,
        };
        self.skip_when(other);
    }

    fn get_key(&mut self, x: u16)
        requires
            old(self).wf(),
            x < 16,
        ensures
            final(self).wf(),
            final(self).spec_key() == old(self).spec_key(),
            final(self)@ == old(self)@.get_key(x as int),
    {
        match self.key.code() {
            Some(k) => {
                self.reg[x as usize] = k;
            },
            None => {
                self.pc = ((self.pc as u32 + 65534) % 65536) as u16;
            },
        }
    }

    fn set_vx(&mut self, x: u16, nn: u16)
        requires
            old(self).wf(),
            x < 16,
            nn < 256,
        ensures
            final(self).wf(),
            final(self).spec_key() == old(self).spec_key(),
            final(self)@ == old(self)@.with_reg(x as int, nn as u8),
    {
        self.reg[x as usize] = nn as u8;
    }

    fn add_vx(&mut self, x: u16, nn: u16)
        requires
            old(self).wf(),
            x < 16,
            nn < 256,
        ensures
            final(self).wf(),
            final(self).spec_key() == old(self).spec_key(),
            final(self)@ == old(self)@.with_reg(x as int, wrap8(old(self)@.reg[x as int] + nn)),
    {
        let res = self.reg[x as usize] as u16 + nn;
        let res = res % 256;
        self.reg[x as usize] = res as u8;
    }

    fn set_i(&mut self, nnn: u16)
        requires
            old(self).wf(),
        ensures
            final(self).wf(),
            final(self).spec_key() == old(self).spec_key(),
            final(self)@ == (CpuState { index: nnn, ..old(self)@ }),
    {
        self.index = nnn;
    }

    fn add_i(&mut self, x: u16)
        requires
            old(self).wf(),
            x < 16,
        ensures
            final(self).wf(),
            final(self).spec_key() == old(self).spec_key(),
            final(self)@ == old(self)@.add_i(x as int),
    {
        let sum = (self.index as u32 + self.reg[x as usize] as u32) % 65536;
        self.index = sum as u16;
        if self.index >= 0x1000 {
            self.reg[0xF] = 1;
        }
    }

    fn jump_with_offset(&mut self, nnn: u16)
        requires
            old(self).wf(),
            nnn < 4096,
        ensures
            final(self).wf(),
            final(self).spec_key() == old(self).spec_key(),
            final(self)@ == old(self)@.with_pc((nnn + old(self)@.reg[0]) as u16),
    {
        self.pc = nnn + self.reg[0] as u16;
    }

    /// Stores in Vx the byte `r`, which chance gave, masked by `nn`.
    fn random(&mut self, x: u16, nn: u16, r: u8)
        requires
            old(self).wf(),
            x < 16,
            nn < 256,
        ensures
            final(self).wf(),
            final(self).spec_key() == old(self).spec_key(),
            final(self)@ == old(self)@.with_reg(x as int, r & (nn as u8)),
    {
        self.reg[x as usize] = r & (nn as u8);
    }

    fn font_character(&mut self, x: u16)
        requires
            old(self).wf(),
            x < 16,
        ensures
            final(self).wf(),
            final(self).spec_key() == old(self).spec_key(),
            final(self)@ == (CpuState {
                index: (old(self)@.reg[x as int] * 5 + 0x50) as u16,
                ..old(self)@
            }),
    {
        let c = self.reg[x as usize];
        self.index = c as u16 * 5 + FONT_START;
    }

    fn set_vx_to_vy(&mut self, x: u16, y: u16)
        requires
            old(self).wf(),
            x < 16,
            y < 16,
        ensures
            final(self).wf(),
            final(self).spec_key() == old(self).spec_key(),
            final(self)@ == old(self)@.with_reg(x as int, old(self)@.reg[y as int]),
    {
        self.reg[x as usize] = self.reg[y as usize];
    }

    fn binary_or(&mut self, x: u16, y: u16)
        requires
            old(self).wf(),
            x < 16,
            y < 16,
        ensures
            final(self).wf(),
            final(self).spec_key() == old(self).spec_key(),
            final(self)@ == old(self)@.with_reg(
                x as int,
                old(self)@.reg[x as int] | old(self)@.reg[y as int],
            ),
    {
        self.reg[x as usize] = self.reg[x as usize] | self.reg[y as usize];
    }

    fn binary_and(&mut self, x: u16, y: u16)
        requires
            old(self).wf(),
            x < 16,
            y < 16,
        ensures
            final(self).wf(),
            final(self).spec_key() == old(self).spec_key(),
            final(self)@ == old(self)@.with_reg(
                x as int,
                old(self)@.reg[x as int] & old(self)@.reg[y as int],
            ),
    {
        self.reg[x as usize] = self.reg[x as usize] & self.reg[y as usize];
    }

    fn binary_xor(&mut self, x: u16, y: u16)
        requires
            old(self).wf(),
            x < 16,
            y < 16,
        ensures
            final(self).wf(),
            final(self).spec_key() == old(self).spec_key(),
            final(self)@ == old(self)@.with_reg(
                x as int,
                old(self)@.reg[x as int] ^ old(self)@.reg[y as int],
            ),
    {
        self.reg[x as usize] = self.reg[x as usize] ^ self.reg[y as usize];
    }

    fn add_vy_to_vx(&mut self, x: u16, y: u16)
        requires
            old(self).wf(),
            x < 16,
            y < 16,
        ensures
            final(self).wf(),
            final(self).spec_key() == old(self).spec_key(),
            final(self)@ == old(self)@.add_reg(x as int, y as int),
    {
        let sum = self.reg[x as usize] as u16 + self.reg[y as usize] as u16;
        let flag: u8 = if sum > 255 {
            1
        } else {
            0
        };
        self.reg[x as usize] = (sum % 256) as u8;
        self.reg[0xF] = flag;
    }

    /// Stores `minuend - subtrahend` in Vx, wrapped, and then in VF 1 where
    /// nothing is borrowed and 0 where it is.
    fn subtract_into(&mut self, x: u16, minuend: u8, subtrahend: u8)
        requires
            old(self).wf(),
            x < 16,
        ensures
            final(self).wf(),
            final(self).spec_key() == old(self).spec_key(),
            final(self)@ == old(self)@.sub_reg(x as int, minuend, subtrahend),
    {
        if minuend < subtrahend {
            self.reg[x as usize] = (256 - (subtrahend - minuend) as u16) as u8;
            self.reg[0xF] = 0;
        } else {
            self.reg[x as usize] = minuend - subtrahend;
            self.reg[0xF] = 1;
        }
    }

    fn sub_vy_from_vx(&mut self, x: u16, y: u16)
        requires
            old(self).wf(),
            x < 16,
            y < 16,
        ensures
            final(self).wf(),
            final(self).spec_key() == old(self).spec_key(),
            final(self)@ == old(self)@.sub_reg(
                x as int,
                old(self)@.reg[x as int],
                old(self)@.reg[y as int],
            ),
    {
        let minuend = self.reg[x as usize];
        let subtrahend = self.reg[y as usize];
        self.subtract_into(x, minuend, subtrahend);
    }

    fn sub_vx_from_vy(&mut self, x: u16, y: u16)
        requires
            old(self).wf(),
            x < 16,
            y < 16,
        ensures
            final(self).wf(),
            final(self).spec_key() == old(self).spec_key(),
            final(self)@ == old(self)@.sub_reg(
                x as int,
                old(self)@.reg[y as int],
                old(self)@.reg[x as int],
            ),
    {
        let minuend = self.reg[y as usize];
        let subtrahend = self.reg[x as usize];
        self.subtract_into(x, minuend, subtrahend);
    }

    fn shift_right(&mut self, x: u16, _y: u16)
        requires
            old(self).wf(),
            x < 16,
        ensures
            final(self).wf(),
            final(self).spec_key() == old(self).spec_key(),
            final(self)@ == old(self)@.shift_right(x as int),
    {
        let v = self.reg[x as usize];
        let flag = v & 0b0000_0001;
        assert(v & 0b0000_0001 == v % 2) by (bit_vector);
        assert(v >> 1 == v / 2) by (bit_vector);
        self.reg[x as usize] = v >> 1;
        self.reg[0xF] = flag;
    }

    fn shift_left(&mut self, x: u16, _y: u16)
        requires
            old(self).wf(),
            x < 16,
        ensures
            final(self).wf(),
            final(self).spec_key() == old(self).spec_key(),
            final(self)@ == old(self)@.shift_left(x as int),
    {
        let v = self.reg[x as usize];
        let flag = v & 0b1000_0000;
        let flag = flag >> 7;
        assert((v & 0b1000_0000) >> 7 == v / 128) by (bit_vector);
        assert(v << 1 == (v * 2) % 256) by (bit_vector);
        self.reg[x as usize] = v << 1;
        self.reg[0xF] = flag;
    }

    fn binary_coded_decimal_conversion(&mut self, x: u16) -> (res: Result<
        Chip8Message,
        Chip8Error,
    >)
        requires
            old(self).wf(),
            x < 16,
        ensures
            final(self).wf(),
            final(self).spec_key() == old(self).spec_key(),
            final(self).produces(res, old(self)@.bcd(x as int)),
    {
        let n = self.reg[x as usize];
        let at = self.index as usize;
        if at + 2 >= 4096 {
            return Err(Chip8Error::LoadError);
        }
        let hundreds = n / 100;
        let tens = (n / 10) % 10;
        let ones = n % 10;
        self.mem[at] = hundreds;
        self.mem[at + 1] = tens;
        self.mem[at + 2] = ones;
        Ok(Chip8Message::NoSignal)
    }

    fn set_vx_to_dt(&mut self, x: u16)
        requires
            old(self).wf(),
            x < 16,
        ensures
            final(self).wf(),
            final(self).spec_key() == old(self).spec_key(),
            final(self)@ == old(self)@.with_reg(x as int, old(self)@.dt),
    {
        self.reg[x as usize] = self.dt;
    }

    fn set_dt_to_vx(&mut self, x: u16)
        requires
            old(self).wf(),
            x < 16,
        ensures
            final(self).wf(),
            final(self).spec_key() == old(self).spec_key(),
            final(self)@ == (CpuState { dt: old(self)@.reg[x as int], ..old(self)@ }),
    {
        self.dt = self.reg[x as usize];
    }

    fn set_st_to_vx(&mut self, x: u16)
        requires
            old(self).wf(),
            x < 16,
        ensures
            final(self).wf(),
            final(self).spec_key() == old(self).spec_key(),
            final(self)@ == (CpuState { st: old(self)@.reg[x as int], ..old(self)@ }),
    {
        self.st = self.reg[x as usize];
    }

    fn save_register_to_memory(&mut self, x: u16) -> (res: Result<Chip8Message, Chip8Error>)
        requires
            old(self).wf(),
            x < 16,
        ensures
            final(self).wf(),
            final(self).spec_key() == old(self).spec_key(),
            final(self).produces(res, old(self)@.store_regs(x as int)),
    {
        let at = self.index as usize;
        let last = x as usize;
        if at + last >= 4096 {
            return Err(Chip8Error::LoadError);
        }
        let mut i: usize = 0;
        while i <= last
            invariant
                i <= last + 1,
                last < 16,
                at + last < 4096,
                at == old(self).index,
                self.wf(),
                self.key == old(self).key,
                self@ == (CpuState { mem: self.mem@, ..old(self)@ }),
                forall|a: int|
                    0 <= a < 4096 ==> #[trigger] self.mem@[a] == (if at <= a < at + i {
                        old(self).reg@[a - at]
                    } else {
                        old(self).mem@[a]
                    }),
            decreases last + 1 - i,
        {
            self.mem[at + i] = self.reg[i];
            i += 1;
        }
        proof {
            let after = old(self)@.store_regs(x as int).state;
            assert(self@.mem =~= after.mem);
        }
        Ok(Chip8Message::NoSignal)
    }

    fn load_register_from_memory(&mut self, x: u16) -> (res: Result<Chip8Message, Chip8Error>)
        requires
            old(self).wf(),
            x < 16,
        ensures
            final(self).wf(),
            final(self).spec_key() == old(self).spec_key(),
            final(self).produces(res, old(self)@.load_regs(x as int)),
    {
        let at = self.index as usize;
        let last = x as usize;
        if at + last >= 4096 {
            return Err(Chip8Error::LoadError);
        }
        let mut i: usize = 0;
        while i <= last
            invariant
                i <= last + 1,
                last < 16,
                at + last < 4096,
                at == old(self).index,
                self.wf(),
                self.key == old(self).key,
                self@ == (CpuState { reg: self.reg@, ..old(self)@ }),
                forall|k: int|
                    0 <= k < 16 ==> #[trigger] self.reg@[k] == (if k < i {
                        old(self).mem@[at + k]
                    } else {
                        old(self).reg@[k]
                    }),
            decreases last + 1 - i,
        {
            self.reg[i] = self.mem[at + i];
            i += 1;
        }
        proof {
            let after = old(self)@.load_regs(x as int).state;
            assert(self@.reg =~= after.reg);
        }
        Ok(Chip8Message::NoSignal)
    }

    fn draw(&mut self, x: u16, y: u16, n: u16) -> (res: Result<Chip8Message, Chip8Error>)
        requires
            old(self).wf(),
            x < 16,
            y < 16,
            n < 16,
        ensures
            final(self).wf(),
            final(self).spec_key() == old(self).spec_key(),
            final(self).produces(res, old(self)@.draw(x as int, y as int, n as int)),
    {
        let ghost before = self@;
        let index = self.index as usize;
        if index + n as usize > 4096 {
            return Err(Chip8Error::LoadError);
        }
        let x0 = (self.reg[x as usize] % 64) as usize;
        let y0 = (self.reg[y as usize] % 32) as usize;
        let rows = n as usize;
        let ghost hit = (0int, 0int);
        self.reg[0xF] = 0;
        let mut i: usize = 0;
        while i < rows && y0 + i <= 31
            invariant
                i <= rows,
                rows < 16,
                x0 < 64,
                y0 < 32,
                index == before.index,
                index + rows <= 4096,
                self.depth <= 16,
                self.mem@ == before.mem,
                self.index == before.index,
                self.stack@.take(self.depth as int) == before.stack,
                self.dt == before.dt,
                self.st == before.st,
                self.pc == before.pc,
                self.key == old(self).key,
                self.key.spec_code() == before.key,
                before.disp.len() == 64,
                forall|c: int| 0 <= c < 64 ==> (#[trigger] before.disp[c]).len() == 32,
                forall|c: int, r: int| 0 <= c < 64 && 0 <= r < 32 ==> #[trigger] before.disp[c][r] <= 1,
                self.reg@ == before.reg.update(15, self.reg@[15]),
                before.reg.len() == 16,
                self.reg@[15] <= 1,
                forall|c: int, r: int|
                    0 <= c < 64 && 0 <= r < 32 ==> #[trigger] self.disp@[c]@[r] == (if r < y0 + i
                        && before.sprite_hits(x0 as int, y0 as int, rows as int, c, r) {
                        (1 - before.disp[c][r]) as u8
                    } else {
                        before.disp[c][r]
                    }),
                self.reg@[15] == 1 ==> 0 <= hit.0 < 64 && 0 <= hit.1 < 32 && before.sprite_hits(
                    x0 as int,
                    y0 as int,
                    rows as int,
                    hit.0,
                    hit.1,
                ) && before.disp[hit.0][hit.1] == 1,
                self.reg@[15] == 0 ==> forall|c: int, r: int|
                    0 <= c < 64 && 0 <= r < y0 + i && r < 32 && #[trigger] before.sprite_hits(
                        x0 as int,
                        y0 as int,
                        rows as int,
                        c,
                        r,
                    ) ==> before.disp[c][r] != 1,
            decreases rows - i,
        {
            let row = y0 + i;
            let bits = sprite_bits(self.mem[index + i]);
            let mut j: usize = 0;
            while j < 8 && x0 + j <= 63
                invariant
                    j <= 8,
                    i < rows,
                    rows < 16,
                    x0 < 64,
                    y0 < 32,
                    row == y0 + i,
                    row <= 31,
                    index == before.index,
                    index + rows <= 4096,
                    bits@.len() == 8,
                    forall|k: int| 0 <= k < 8 ==> bits@[k] == bit_msb(before.mem[index + i], k),
                    before.mem.len() == 4096,
                    self.depth <= 16,
                    self.mem@ == before.mem,
                    self.index == before.index,
                    self.stack@.take(self.depth as int) == before.stack,
                    self.dt == before.dt,
                    self.st == before.st,
                    self.pc == before.pc,
                    self.key == old(self).key,
                    self.key.spec_code() == before.key,
                    before.disp.len() == 64,
                    forall|c: int| 0 <= c < 64 ==> (#[trigger] before.disp[c]).len() == 32,
                    forall|c: int, r: int|
                        0 <= c < 64 && 0 <= r < 32 ==> #[trigger] before.disp[c][r] <= 1,
                    self.reg@ == before.reg.update(15, self.reg@[15]),
                    before.reg.len() == 16,
                    self.reg@[15] <= 1,
                    forall|c: int, r: int|
                        0 <= c < 64 && 0 <= r < 32 ==> #[trigger] self.disp@[c]@[r] == (if (r < row
                            || (r == row && c < x0 + j)) && before.sprite_hits(
                            x0 as int,
                            y0 as int,
                            rows as int,
                            c,
                            r,
                        ) {
                            (1 - before.disp[c][r]) as u8
                        } else {
                            before.disp[c][r]
                        }),
                    self.reg@[15] == 1 ==> 0 <= hit.0 < 64 && 0 <= hit.1 < 32
                        && before.sprite_hits(x0 as int, y0 as int, rows as int, hit.0, hit.1)
                        && before.disp[hit.0][hit.1] == 1,
                    self.reg@[15] == 0 ==> forall|c: int, r: int|
                        0 <= c < 64 && 0 <= r < 32 && (r < row || (r == row && c < x0 + j))
                            && #[trigger] before.sprite_hits(
                            x0 as int,
                            y0 as int,
                            rows as int,
                            c,
                            r,
                        ) ==> before.disp[c][r] != 1,
                decreases 8 - j,
            {
                let col = x0 + j;
                proof {
                    assert(before.sprite_hits(
                        x0 as int,
                        y0 as int,
                        rows as int,
                        col as int,
                        row as int,
                    ) == bits@[j as int]);
                    assert(self.disp@[col as int]@[row as int] == before.disp[col as int][row as int]);
                }
                if bits[j] {
                    if self.disp[col][row] == 1 {
                        self.disp[col][row] = 0;
                        self.reg[0xF] = 1;
                        proof {
                            hit = (col as int, row as int);
                        }
                    } else {
                        self.disp[col][row] = 1;
                    }
                }
                j += 1;
            }
            i += 1;
        }
        let frame = self.disp;
        proof {
            let after = before.draw(x as int, y as int, n as int).state;
            let grid = before.sprite_grid(x0 as int, y0 as int, rows as int);
            assert(grid_view(self.disp) =~~= grid);
            if self.reg@[15] == 1 {
                assert(before.sprite_collides(x0 as int, y0 as int, rows as int));
            } else {
                assert forall|c: int, r: int|
                    0 <= c < 64 && 0 <= r < 32 && #[trigger] sprite_bit_at(
                        before.mem,
                        before.index as int,
                        x0 as int,
                        y0 as int,
                        rows as int,
                        c,
                        r,
                    ) implies before.disp[c][r] != 1 by {
                    assert(before.sprite_hits(x0 as int, y0 as int, rows as int, c, r));
                }
                assert(!before.sprite_collides(x0 as int, y0 as int, rows as int));
            }
            assert(self@.reg =~= after.reg);
            assert(self@ =~~= after);
        }
        Ok(Chip8Message::DrawScreen(frame))
    }

    /// Executes the instruction that the fields `raw` stand for, with `rnd`
    /// as the byte that chance gave. Fields that belong to no instruction
    /// word are refused with `DecodeError`. Where the instruction is refused
    /// the processor is left as it was.
    pub fn execute_opcode(&mut self, raw: &RawOpcode, rnd: u8) -> (res: Result<
        Chip8Message,
        Chip8Error,
    >)
        requires
            old(self).wf(),
        ensures
            final(self).wf(),
            final(self).spec_key() == old(self).spec_key(),
            final(self).produces(res, old(self)@.step(*raw, rnd)),
    {
        let x = raw.x();
        let y = raw.y();
        let n = raw.n();
        let kk = raw.kk();
        if raw.op() >= 16 || x >= 16 || y >= 16 || n >= 16 || kk != y * 16 + n {
            return Err(Chip8Error::DecodeError);
        }
        let nnn = x * 256 + kk;
        let opcode = Opcode::from(raw);
        match opcode {
            Opcode::NoOp => Ok(Chip8Message::NoSignal),
            Opcode::Error => Err(Chip8Error::DecodeError),
            Opcode::Clear => {
                self.clear();
                Ok(Chip8Message::ClearScreen)
            },
            Opcode::Jump => {
                self.jump(nnn);
                Ok(Chip8Message::NoSignal)
            },
            Opcode::ReturnSub => self.return_sub(),
            Opcode::GotoSub => self.goto_sub(nnn),
            Opcode::SkipEqual => {
                self.skip_equal(x, kk);
                Ok(Chip8Message::NoSignal)
            },
            Opcode::SkipNotEqual => {
                self.skip_not_equal(x, kk);
                Ok(Chip8Message::NoSignal)
            },
            Opcode::SkipVXEqualVY => {
                self.skip_vx_equal_vy(x, y);
                Ok(Chip8Message::NoSignal)
            },
            Opcode::SkipVXNotEqualVY => {
                self.skip_vx_not_equal_vy(x, y);
                Ok(Chip8Message::NoSignal)
            },
            Opcode::SkipIfKey => {
                self.skip_if_key(x);
                Ok(Chip8Message::NoSignal)
            },
            Opcode::SkipIfNotKey => {
                self.skip_if_not_key(x);
                Ok(Chip8Message::NoSignal)
            },
            Opcode::GetKey => {
                self.get_key(x);
                Ok(Chip8Message::NoSignal)
            },
            Opcode::SetVX => {
                self.set_vx(x, kk);
                Ok(Chip8Message::NoSignal)
            },
            Opcode::AddVX => {
                self.add_vx(x, kk);
                Ok(Chip8Message::NoSignal)
            },
            Opcode::SetI => {
                self.set_i(nnn);
                Ok(Chip8Message::NoSignal)
            },
            Opcode::AddI => {
                self.add_i(x);
                Ok(Chip8Message::NoSignal)
            },
            Opcode::JumpWithOffset => {
                self.jump_with_offset(nnn);
                Ok(Chip8Message::NoSignal)
            },
            Opcode::Random => {
                self.random(x, kk, rnd);
                Ok(Chip8Message::NoSignal)
            },
            Opcode::FontCharacter => {
                self.font_character(x);
                Ok(Chip8Message::NoSignal)
            },
            Opcode::Draw => self.draw(x, y, n),
            Opcode::SetVXToVY => {
                self.set_vx_to_vy(x, y);
                Ok(Chip8Message::NoSignal)
            },
            Opcode::BinaryOr => {
                self.binary_or(x, y);
                Ok(Chip8Message::NoSignal)
            },
            Opcode::BinaryAnd => {
                self.binary_and(x, y);
                Ok(Chip8Message::NoSignal)
            },
            Opcode::BinaryXor => {
                self.binary_xor(x, y);
                Ok(Chip8Message::NoSignal)
            },
            Opcode::AddVYToVX => {
                self.add_vy_to_vx(x, y);
                Ok(Chip8Message::NoSignal)
            },
            Opcode::SubVYFromVX => {
                self.sub_vy_from_vx(x, y);
                Ok(Chip8Message::NoSignal)
            },
            Opcode::SubVXFromVY => {
                self.sub_vx_from_vy(x, y);
                Ok(Chip8Message::NoSignal)
            },
            Opcode::ShiftRight => {
                self.shift_right(x, y);
                Ok(Chip8Message::NoSignal)
            },
            Opcode::ShiftLeft => {
                self.shift_left(x, y);
                Ok(Chip8Message::NoSignal)
            },
            Opcode::BinaryCodedDecimalConversion => self.binary_coded_decimal_conversion(x),
            Opcode::SetVXToDT => {
                self.set_vx_to_dt(x);
                Ok(Chip8Message::NoSignal)
            },
            Opcode::SetDTToVX => {
                self.set_dt_to_vx(x);
                Ok(Chip8Message::NoSignal)
            },
            Opcode::SetSTToVX => {
                self.set_st_to_vx(x);
                Ok(Chip8Message::NoSignal)
            },
            Opcode::SaveRegisterToMemory => self.save_register_to_memory(x),
            Opcode::LoadRegisterFromMemory => self.load_register_from_memory(x),
        }
    }

    /// Executes the instruction word `inst`, with `rnd` as the byte that
    /// chance gave.
    pub fn execute_with(&mut self, inst: u16, rnd: u8) -> (res: Result<Chip8Message, Chip8Error>)
        requires
            old(self).wf(),
        ensures
            final(self).wf(),
            final(self).spec_key() == old(self).spec_key(),
            final(self).produces(res, old(self)@.step_word(inst, rnd)),
    {
        let raw = RawOpcode::from_word(inst);
        self.execute_opcode(&raw, rnd)
    }

    /// Executes the instruction word `inst`. The instruction that asks for
    /// a random byte gets one from the random number generator; the outcome
    /// of every other instruction is the same whatever the byte.
    pub fn execute_instruction(&mut self, inst: u16) -> (res: Result<Chip8Message, Chip8Error>)
        requires
            old(self).wf(),
        ensures
            final(self).wf(),
            final(self).spec_key() == old(self).spec_key(),
            exists|rnd: u8| #[trigger] final(self).produces(res, old(self)@.step_word(inst, rnd)),
            decode_word(inst) != Opcode::Random ==> final(self).produces(
                res,
                old(self)@.step_word(inst, 0),
            ),
    {
        let rnd = if Opcode::decode(inst) == Opcode::Random {
            random_byte()
        } else {
            0
        };
        let res = self.execute_with(inst, rnd);
        assert(self.produces(res, old(self)@.step_word(inst, rnd)));
        res
    }

    /// Reads the instruction word at the program counter, high byte first,
    /// and moves the program counter past it. A word that does not lie
    /// within memory is refused with `LoadError`.
    pub fn fetch_next(&mut self) -> (res: Result<u16, Chip8Error>)
        requires
            old(self).wf(),
        ensures
            final(self).wf(),
            final(self).spec_key() == old(self).spec_key(),
            old(self)@.pc + 1 < 4096 ==> res == Ok::<u16, Chip8Error>(old(self)@.next_word())
                && final(self)@ == old(self)@.skip(),
            old(self)@.pc + 1 >= 4096 ==> res == Err::<u16, Chip8Error>(Chip8Error::LoadError)
                && final(self)@ == old(self)@,
    {
        let at = self.pc as usize;
        if at + 1 >= 4096 {
            return Err(Chip8Error::LoadError);
        }
        let next_inst = (self.mem[at] as u16) * 256 + (self.mem[at + 1] as u16);
        self.pc = self.pc + 2;
        Ok(next_inst)
    }

    /// Tells whether the instruction at the program counter asks which key
    /// is pressed; of every other instruction the outcome is the same
    /// whatever the key.
    pub fn wants_key(&self) -> (wanted: bool)
        requires
            self.wf(),
        ensures
            wanted == self@.wants_key(),
    {
        let at = self.pc as usize;
        if at + 1 >= 4096 {
            return false;
        }
        let inst = (self.mem[at] as u16) * 256 + (self.mem[at + 1] as u16);
        match Opcode::decode(inst) {
            Opcode::SkipIfKey | Opcode::SkipIfNotKey | Opcode::GetKey => true,
            _ => false,
        }
    }

    /// Copies `bytes` into memory from address `start` on. Bytes that do not
    /// all lie within memory are refused with `LoadError`, and none is written.
    pub fn load(&mut self, start: u16, bytes: &[u8]) -> (res: Result<(), Chip8Error>)
        requires
            old(self).wf(),
        ensures
            final(self).wf(),
            final(self).spec_key() == old(self).spec_key(),
            start + bytes@.len() <= 4096 ==> res.is_ok() && final(self)@ == old(self)@.loaded(
                start as int,
                bytes@,
            ),
            start + bytes@.len() > 4096 ==> res == Err::<(), Chip8Error>(Chip8Error::LoadError)
                && final(self)@ == old(self)@,
    {
        let at = start as usize;
        let len = bytes.len();
        if len > 4096 || at + len > 4096 {
            return Err(Chip8Error::LoadError);
        }
        let mut i: usize = 0;
        while i < len
            invariant
                i <= len,
                len == bytes@.len(),
                at + len <= 4096,
                self.wf(),
                self.key == old(self).key,
                self@ == (CpuState { mem: self.mem@, ..old(self)@ }),
                forall|a: int|
                    0 <= a < 4096 ==> #[trigger] self.mem@[a] == (if at <= a < at + i {
                        bytes@[a - at]
                    } else {
                        old(self).mem@[a]
                    }),
            decreases len - i,
        {
            self.mem[at + i] = bytes[i];
            i += 1;
        }
        proof {
            assert(self@.mem =~= old(self)@.loaded(start as int, bytes@).mem);
        }
        Ok(())
    }

    /// Copies the glyphs of the hexadecimal digits to their place in memory.
    pub fn load_font_set(&mut self)
        requires
            old(self).wf(),
        ensures
            final(self).wf(),
            final(self).spec_key() == old(self).spec_key(),
            final(self)@ == old(self)@.loaded(0x50, font_table()),
            final(self)@.mem.subrange(0x50, 0xA0) == font_table(),
    {
        let font = FONT_SET;
        proof {
            assert(font@ =~= font_table());
        }
        let res = self.load(FONT_START, font.as_slice());
        proof {
            assert(self@.mem.subrange(0x50, 0xA0) =~= font_table());
        }
    }

    /// Moves each timer that is not yet zero one step nearer to it.
    pub fn tick_timers(&mut self)
        requires
            old(self).wf(),
        ensures
            final(self).wf(),
            final(self).spec_key() == old(self).spec_key(),
            final(self)@ == old(self)@.ticked(),
    {
        if self.dt > 0 {
            self.dt -= 1;
        }
        if self.st > 0 {
            self.st -= 1;
        }
    }

    /// Records the key that the host reports as pressed.
    pub fn set_key(&mut self, key: KeyCode)
        requires
            old(self).wf(),
        ensures
            final(self).wf(),
            final(self).spec_key() == key,
            final(self)@ == old(self)@.with_key(key.spec_code()),
    {
        self.key = key;
    }

    pub fn key(&self) -> (key: KeyCode)
        ensures
            key == self.spec_key(),
    {
        self.key
    }

    pub fn pc(&self) -> (pc: u16)
        ensures
            pc == self@.pc,
    {
        self.pc
    }

    pub fn set_pc(&mut self, pc: u16)
        requires
            old(self).wf(),
        ensures
            final(self).wf(),
            final(self).spec_key() == old(self).spec_key(),
            final(self)@ == old(self)@.with_pc(pc),
    {
        self.pc = pc;
    }

    pub fn index(&self) -> (index: u16)
        ensures
            index == self@.index,
    {
        self.index
    }

    pub fn set_index(&mut self, index: u16)
        requires
            old(self).wf(),
        ensures
            final(self).wf(),
            final(self).spec_key() == old(self).spec_key(),
            final(self)@ == (CpuState { index, ..old(self)@ }),
    {
        self.index = index;
    }

    /// The register Vi.
    pub fn reg(&self, i: usize) -> (v: u8)
        requires
            i < 16,
        ensures
            v == self@.reg[i as int],
    {
        self.reg[i]
    }

    pub fn set_reg(&mut self, i: usize, v: u8)
        requires
            old(self).wf(),
            i < 16,
        ensures
            final(self).wf(),
            final(self).spec_key() == old(self).spec_key(),
            final(self)@ == old(self)@.with_reg(i as int, v),
    {
        self.reg[i] = v;
    }

    /// The byte of memory at `addr`.
    pub fn mem(&self, addr: usize) -> (v: u8)
        requires
            addr < 4096,
        ensures
            v == self@.mem[addr as int],
    {
        self.mem[addr]
    }

    /// The pixel in column `x` and row `y`.
    pub fn pixel(&self, x: usize, y: usize) -> (v: u8)
        requires
            x < 64,
            y < 32,
        ensures
            v == self@.disp[x as int][y as int],
    {
        self.disp[x][y]
    }

    /// A copy of the whole display.
    pub fn display(&self) -> (grid: [[u8; 32]; 64])
        ensures
            grid_view(grid) == self@.disp,
    {
        self.disp
    }

    pub fn dt(&self) -> (dt: u8)
        ensures
            dt == self@.dt,
    {
        self.dt
    }

    pub fn set_dt(&mut self, dt: u8)
        requires
            old(self).wf(),
        ensures
            final(self).wf(),
            final(self).spec_key() == old(self).spec_key(),
            final(self)@ == (CpuState { dt, ..old(self)@ }),
    {
        self.dt = dt;
    }

    pub fn st(&self) -> (st: u8)
        ensures
            st == self@.st,
    {
        self.st
    }

    pub fn set_st(&mut self, st: u8)
        requires
            old(self).wf(),
        ensures
            final(self).wf(),
            final(self).spec_key() == old(self).spec_key(),
            final(self)@ == (CpuState { st, ..old(self)@ }),
    {
        self.st = st;
    }

    /// The number of frames on the call stack.
    pub fn depth(&self) -> (depth: usize)
        requires
            self.wf(),
        ensures
            depth == self@.stack.len(),
    {
        self.depth
    }

    /// The return address in frame `i` of the call stack, the oldest being frame 0.
    pub fn stack(&self, i: usize) -> (addr: u16)
        requires
            self.wf(),
            i < self@.stack.len(),
        ensures
            addr == self@.stack[i as int],
    {
        self.stack[i]
    }
}

} // verus!
