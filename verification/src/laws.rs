//! What holds of the machine whatever the program: statements over the
//! mathematical model, each proved.

use vstd::prelude::*;
use crate::chip::{cycle_outcome, run_trace, trace_step, Chip8Error, HostInput, Signal};
use crate::model::{blank_grid, sprite_bit_at, wrap16, CpuState};
use crate::opcode::{decode_word, Opcode};

verus! {

/// Every 16-bit word belongs to a known family: decoding a word never
/// gives `Error`.
pub proof fn lemma_word_never_error(inst: u16)
    ensures
        decode_word(inst) != Opcode::Error,
{
}

/// An instruction word is never refused with `DecodeError`.
pub proof fn lemma_word_never_decode_error(s: CpuState, inst: u16, rnd: u8)
    requires
        s.wf(),
    ensures
        s.step_word(inst, rnd).result != Err::<Signal, Chip8Error>(Chip8Error::DecodeError),
{
}

/// The operand fields of a word are in range: two register numbers and a
/// nibble below 16, a byte, and an address within memory.
pub proof fn lemma_word_fields_in_range(inst: u16)
    ensures
        inst / 4096 < 16,
        (inst / 256) % 16 < 16,
        (inst / 16) % 16 < 16,
        inst % 16 < 16,
        inst % 256 < 256,
        inst % 4096 < 4096,
{
}

/// Every instruction keeps the state well formed: the call stack never
/// holds more than sixteen frames, every pixel stays 0 or 1, and memory and
/// registers keep their sizes.
pub proof fn lemma_step_preserves_wf(s: CpuState, inst: u16, rnd: u8)
    requires
        s.wf(),
    ensures
        s.step_word(inst, rnd).state.wf(),
{
    let x = ((inst / 256) % 16) as int;
    let y = ((inst / 16) % 16) as int;
    let n = (inst % 16) as int;
    let after = s.step_word(inst, rnd).state;
    if decode_word(inst) == Opcode::Draw && s.index + n <= 4096 {
        let x0 = (s.reg[x] % 64) as int;
        let y0 = (s.reg[y] % 32) as int;
        assert forall|c: int, r: int| 0 <= c < 64 && 0 <= r < 32 implies #[trigger] after.disp[c][r]
            <= 1 by {
            assert(s.disp[c][r] <= 1);
            assert(after.disp[c] == s.sprite_grid(x0, y0, n)[c]);
        }
    }
}

/// An instruction that is refused leaves the state as it was.
pub proof fn lemma_error_leaves_state(s: CpuState, inst: u16, rnd: u8)
    requires
        s.wf(),
        s.step_word(inst, rnd).result.is_err(),
    ensures
        s.step_word(inst, rnd).state == s,
{
}

/// Only the instruction `Random` depends on the byte that chance gave.
pub proof fn lemma_only_random_uses_chance(s: CpuState, inst: u16, r1: u8, r2: u8)
    requires
        decode_word(inst) != Opcode::Random,
    ensures
        s.step_word(inst, r1) == s.step_word(inst, r2),
{
}

/// Where the instruction at the program counter does not ask for the key,
/// a cycle does the same whichever key is pressed: but for the record of the
/// key itself the state after it is the same, and so is what it reports.
pub proof fn lemma_key_matters_only_when_wanted(
    s: CpuState,
    k1: Option<u8>,
    k2: Option<u8>,
    due: bool,
    rnd: u8,
)
    requires
        s.wf(),
        !s.wants_key(),
    ensures
        cycle_outcome(s.with_key(k1), due, rnd).result == cycle_outcome(
            s.with_key(k2),
            due,
            rnd,
        ).result,
        cycle_outcome(s.with_key(k1), due, rnd).state.with_key(None) == cycle_outcome(
            s.with_key(k2),
            due,
            rnd,
        ).state.with_key(None),
        s.with_key(k1).wants_key() == s.wants_key(),
{
}

/// The instructions that report in VF leave their flag there whatever the
/// register Vx is, VF itself included: the sum's carry, 1 for a subtraction
/// that borrows nothing, and the bit that a shift pushes out.
pub proof fn lemma_flag_is_written_last(s: CpuState, inst: u16, rnd: u8)
    requires
        s.wf(),
    ensures
        ({
            let vx = s.reg[((inst / 256) % 16) as int];
            let vy = s.reg[((inst / 16) % 16) as int];
            let flag = s.step_word(inst, rnd).state.reg[15];
            &&& decode_word(inst) == Opcode::AddVYToVX ==> flag == (if vx + vy > 255 {
                1u8
            } else {
                0u8
            })
            &&& decode_word(inst) == Opcode::SubVYFromVX ==> flag == (if vx >= vy {
                1u8
            } else {
                0u8
            })
            &&& decode_word(inst) == Opcode::SubVXFromVY ==> flag == (if vy >= vx {
                1u8
            } else {
                0u8
            })
            &&& decode_word(inst) == Opcode::ShiftRight ==> flag == vx % 2
            &&& decode_word(inst) == Opcode::ShiftLeft ==> flag == vx / 128
        }),
{
}

/// Where Vx is not VF, the same instructions leave in Vx the sum, the
/// difference or the shifted value, wrapped to eight bits.
pub proof fn lemma_arithmetic_result(s: CpuState, inst: u16, rnd: u8)
    requires
        s.wf(),
        (inst / 256) % 16 != 15,
    ensures
        ({
            let x = ((inst / 256) % 16) as int;
            let vx = s.reg[x];
            let vy = s.reg[((inst / 16) % 16) as int];
            let res = s.step_word(inst, rnd).state.reg[x];
            &&& decode_word(inst) == Opcode::AddVYToVX ==> res == (vx + vy) % 256
            &&& decode_word(inst) == Opcode::SubVYFromVX ==> res == (vx - vy) % 256
            &&& decode_word(inst) == Opcode::SubVXFromVY ==> res == (vy - vx) % 256
            &&& decode_word(inst) == Opcode::ShiftRight ==> res == vx / 2
            &&& decode_word(inst) == Opcode::ShiftLeft ==> res == (vx * 2) % 256
        }),
{
}

/// The two words of family `0` that are instructions.
pub proof fn lemma_system_words()
    ensures
        decode_word(0x00E0) == Opcode::Clear,
        decode_word(0x00EE) == Opcode::ReturnSub,
{
}

/// Clearing the display turns every pixel off and reports `ClearScreen`,
/// and clearing again changes nothing more.
pub proof fn lemma_clear(s: CpuState, inst: u16, rnd: u8)
    requires
        s.wf(),
        decode_word(inst) == Opcode::Clear,
    ensures
        s.step_word(inst, rnd).result == Ok::<Signal, Chip8Error>(Signal::ClearScreen),
        s.step_word(inst, rnd).state.disp == blank_grid(),
        forall|x: int, y: int|
            0 <= x < 64 && 0 <= y < 32 ==> #[trigger] s.step_word(inst, rnd).state.disp[x][y] == 0,
        s.step_word(inst, rnd).state.step_word(inst, rnd) == s.step_word(inst, rnd),
{
}

/// A call on a stack that is not full succeeds, and the return that follows
/// it gives back the state before the call: the program counter is again at
/// the instruction after the call, and the stack is as deep as it was.
pub proof fn lemma_call_then_return(s: CpuState, call: u16, ret: u16, rnd: u8)
    requires
        s.wf(),
        s.stack.len() < 16,
        decode_word(call) == Opcode::GotoSub,
        decode_word(ret) == Opcode::ReturnSub,
    ensures
        s.step_word(call, rnd).result.is_ok(),
        s.step_word(call, rnd).state.pc == call % 4096,
        s.step_word(call, rnd).state.stack == s.stack.push(s.pc),
        s.step_word(call, rnd).state.step_word(ret, rnd) == s.done(),
{
    let called = s.step_word(call, rnd).state;
    assert(called == s.goto_sub((call % 4096) as int).state);
    assert(called.stack.drop_last() =~= s.stack);
    assert(called.stack.last() == s.pc);
    assert(called.step_word(ret, rnd) == called.return_sub());
}

/// A call succeeds exactly where fewer than sixteen frames are on the
/// stack; on a full stack it fails with `StackOverflow`.
pub proof fn lemma_call_overflows_when_full(s: CpuState, call: u16, rnd: u8)
    requires
        s.wf(),
        decode_word(call) == Opcode::GotoSub,
    ensures
        s.stack.len() < 16 ==> s.step_word(call, rnd).result.is_ok() && s.step_word(
            call,
            rnd,
        ).state.stack.len() == s.stack.len() + 1,
        s.stack.len() == 16 ==> s.step_word(call, rnd) == s.fail(Chip8Error::StackOverflow),
{
    assert(s.step_word(call, rnd) == s.goto_sub((call % 4096) as int));
}

/// A return succeeds exactly where a frame is on the stack; on an empty
/// stack it fails with `StackUnderflow`.
pub proof fn lemma_return_underflows_when_empty(s: CpuState, ret: u16, rnd: u8)
    requires
        s.wf(),
        decode_word(ret) == Opcode::ReturnSub,
    ensures
        s.stack.len() > 0 ==> s.step_word(ret, rnd).result.is_ok() && s.step_word(
            ret,
            rnd,
        ).state.stack.len() == s.stack.len() - 1,
        s.stack.len() == 0 ==> s.step_word(ret, rnd) == s.fail(Chip8Error::StackUnderflow),
{
    assert(s.step_word(ret, rnd) == s.return_sub());
}

/// While no key is pressed, fetching and executing `GetKey` leaves the
/// whole state as it was, the program counter included: the instruction
/// runs again in the next cycle.
pub proof fn lemma_get_key_waits(s: CpuState, inst: u16, rnd: u8)
    requires
        s.wf(),
        decode_word(inst) == Opcode::GetKey,
        s.key.is_none(),
    ensures
        s.skip().step_word(inst, rnd) == s.done(),
{
    let x = ((inst / 256) % 16) as int;
    let fetched = s.skip();
    assert(fetched.step_word(inst, rnd) == fetched.get_key(x).done());
    assert(wrap16(fetched.pc - 2) == s.pc) by {
        if s.pc + 2 < 65536 {
            assert(fetched.pc == s.pc + 2);
        } else {
            assert(fetched.pc == s.pc + 2 - 65536);
        }
    }
    assert(fetched.get_key(x) == s);
}

/// With a key pressed, `GetKey` stores its code in Vx and the program goes on.
pub proof fn lemma_get_key_takes_key(s: CpuState, inst: u16, k: u8, rnd: u8)
    requires
        s.wf(),
        decode_word(inst) == Opcode::GetKey,
        s.key == Some(k),
    ensures
        s.step_word(inst, rnd) == s.with_reg(((inst / 256) % 16) as int, k).done(),
{
    let x = ((inst / 256) % 16) as int;
    assert(s.step_word(inst, rnd) == s.get_key(x).done());
}

/// Storing V0 to Vx writes exactly the `x + 1` bytes from I on, each
/// register to its own byte, and no other byte of memory.
pub proof fn lemma_store_regs_range(s: CpuState, x: int)
    requires
        s.wf(),
        0 <= x < 16,
        s.index + x < 4096,
    ensures
        s.store_regs(x).result.is_ok(),
        s.store_regs(x).state.mem.len() == 4096,
        forall|i: int| 0 <= i <= x ==> #[trigger] s.store_regs(x).state.mem[s.index + i] == s.reg[i],
        forall|a: int|
            0 <= a < 4096 && !(s.index <= a <= s.index + x) ==> #[trigger] s.store_regs(
                x,
            ).state.mem[a] == s.mem[a],
        s.store_regs(x).state == (CpuState { mem: s.store_regs(x).state.mem, ..s }),
{
}

/// Loading V0 to Vx reads exactly the `x + 1` bytes from I on, each into
/// its own register, and changes no other register.
pub proof fn lemma_load_regs_range(s: CpuState, x: int)
    requires
        s.wf(),
        0 <= x < 16,
        s.index + x < 4096,
    ensures
        s.load_regs(x).result.is_ok(),
        s.load_regs(x).state.reg.len() == 16,
        forall|i: int| 0 <= i <= x ==> #[trigger] s.load_regs(x).state.reg[i] == s.mem[s.index + i],
        forall|i: int| x < i < 16 ==> #[trigger] s.load_regs(x).state.reg[i] == s.reg[i],
        s.load_regs(x).state == (CpuState { reg: s.load_regs(x).state.reg, ..s }),
{
}

/// Registers that were stored and are loaded again are as they were.
pub proof fn lemma_store_then_load(s: CpuState, x: int)
    requires
        s.wf(),
        0 <= x < 16,
        s.index + x < 4096,
    ensures
        s.store_regs(x).state.load_regs(x).state.reg == s.reg,
{
    assert(s.store_regs(x).state.load_regs(x).state.reg =~= s.reg);
}

/// Drawing the same sprite twice at the same place gives back the display
/// as it was, and the second drawing reports a collision exactly where the
/// first one turned a pixel on. The place must be the same for both: where
/// VF itself gives the column or the row, the first drawing, which
/// overwrites VF, must not have moved it.
pub proof fn lemma_draw_twice_restores(s: CpuState, x: int, y: int, n: int)
    requires
        s.wf(),
        0 <= x < 16,
        0 <= y < 16,
        0 <= n < 16,
        s.index + n <= 4096,
        s.draw(x, y, n).state.reg[x] % 64 == s.reg[x] % 64,
        s.draw(x, y, n).state.reg[y] % 32 == s.reg[y] % 32,
    ensures
        s.draw(x, y, n).result.is_ok(),
        s.draw(x, y, n).state.draw(x, y, n).state.disp == s.disp,
        s.draw(x, y, n).state.draw(x, y, n).state.reg[15] == 1 <==> exists|c: int, r: int|
            0 <= c < 64 && 0 <= r < 32 && #[trigger] s.sprite_hits(
                (s.reg[x] % 64) as int,
                (s.reg[y] % 32) as int,
                n,
                c,
                r,
            ) && s.disp[c][r] == 0,
{
    let x0 = (s.reg[x] % 64) as int;
    let y0 = (s.reg[y] % 32) as int;
    let once = s.draw(x, y, n).state;
    let twice = once.draw(x, y, n).state;
    assert forall|c: int, r: int| 0 <= c < 64 && 0 <= r < 32 implies once.sprite_hits(
        x0,
        y0,
        n,
        c,
        r,
    ) == s.sprite_hits(x0, y0, n, c, r) by {}
    assert forall|c: int| 0 <= c < 64 implies #[trigger] twice.disp[c] =~= s.disp[c] by {
        assert forall|r: int| 0 <= r < 32 implies twice.disp[c][r] == s.disp[c][r] by {
            assert(s.disp[c][r] <= 1);
            assert(once.sprite_hits(x0, y0, n, c, r) == s.sprite_hits(x0, y0, n, c, r));
            assert(once.disp[c][r] == s.sprite_grid(x0, y0, n)[c][r]);
        }
    }
    assert(twice.disp =~= s.disp);
    let mem = s.mem;
    let at = s.index as int;
    if once.sprite_collides(x0, y0, n) {
        let (c, r) = choose|c: int, r: int|
            0 <= c < 64 && 0 <= r < 32 && #[trigger] sprite_bit_at(mem, at, x0, y0, n, c, r)
                && once.disp[c][r] == 1;
        assert(s.disp[c][r] <= 1);
        assert(once.disp[c][r] == s.sprite_grid(x0, y0, n)[c][r]);
        assert(s.sprite_hits(x0, y0, n, c, r) && s.disp[c][r] == 0);
    }
    if exists|c: int, r: int|
        0 <= c < 64 && 0 <= r < 32 && #[trigger] s.sprite_hits(x0, y0, n, c, r) && s.disp[c][r]
            == 0 {
        let (c, r) = choose|c: int, r: int|
            0 <= c < 64 && 0 <= r < 32 && #[trigger] s.sprite_hits(x0, y0, n, c, r)
                && s.disp[c][r] == 0;
        assert(once.disp[c][r] == s.sprite_grid(x0, y0, n)[c][r]);
        assert(sprite_bit_at(mem, at, x0, y0, n, c, r) && once.disp[c][r] == 1);
        assert(once.sprite_collides(x0, y0, n));
    }
}

/// Drawing changes no pixel outside the eight columns and `n` rows that
/// start at the sprite's place: what would fall beyond the last column or
/// row is cut off and does not come back on the other side.
pub proof fn lemma_draw_clips(s: CpuState, x: int, y: int, n: int, c: int, r: int)
    requires
        s.wf(),
        0 <= x < 16,
        0 <= y < 16,
        0 <= n < 16,
        s.index + n <= 4096,
        0 <= c < 64,
        0 <= r < 32,
        c < s.reg[x] % 64 || c >= s.reg[x] % 64 + 8 || r < s.reg[y] % 32 || r >= s.reg[y] % 32 + n,
    ensures
        s.draw(x, y, n).state.disp[c][r] == s.disp[c][r],
{
}

/// A signal that a display can act on: not `NoSignal`, and where it is a
/// frame, one of 64 columns of 32 pixels.
pub open spec fn is_display_signal(signal: Signal) -> bool {
    match signal {
        Signal::NoSignal => false,
        Signal::ClearScreen => true,
        Signal::DrawScreen(grid) => grid.len() == 64 && forall|c: int|
            0 <= c < 64 ==> (#[trigger] grid[c]).len() == 32,
    }
}

/// Whatever the program and the host's inputs, a run tells the display
/// first to clear the screen, and after that only what a display can act
/// on, at most one signal for each cycle; every frame is a whole one. The
/// state stays well formed throughout.
pub proof fn lemma_run_signals(
    s: CpuState,
    last: u64,
    inputs: Seq<HostInput>,
    rnds: Seq<u8>,
    k: nat,
)
    requires
        s.wf(),
        k <= inputs.len(),
        k <= rnds.len(),
    ensures
        run_trace(s, last, inputs, rnds, k).state.wf(),
        1 <= run_trace(s, last, inputs, rnds, k).signals.len() <= k + 1,
        run_trace(s, last, inputs, rnds, k).signals[0] == Signal::ClearScreen,
        forall|j: int|
            0 <= j < run_trace(s, last, inputs, rnds, k).signals.len() ==> is_display_signal(
                #[trigger] run_trace(s, last, inputs, rnds, k).signals[j],
            ),
    decreases k,
{
    if k > 0 {
        lemma_run_signals(s, last, inputs, rnds, (k - 1) as nat);
        let prev = run_trace(s, last, inputs, rnds, (k - 1) as nat);
        if prev.error.is_none() {
            let input = inputs[k - 1];
            let fetched = prev.state.with_key(input.key.spec_code());
            assert(fetched.wf());
            if fetched.pc + 1 < 4096 {
                lemma_step_preserves_wf(fetched.skip(), fetched.next_word(), rnds[k - 1]);
            }
            let next = trace_step(prev, input, rnds[k - 1]);
            assert(next == run_trace(s, last, inputs, rnds, k));
            assert forall|j: int| 0 <= j < next.signals.len() implies is_display_signal(
                #[trigger] next.signals[j],
            ) by {
                if j < prev.signals.len() {
                    assert(next.signals[j] == prev.signals[j]);
                }
            }
        }
    }
}

} // verus!
