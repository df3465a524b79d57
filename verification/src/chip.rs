//! The values that pass between the machine and its host: keys in, display
//! signals and errors out.

use vstd::prelude::*;
use crate::cpu::Cpu;
use crate::model::{font_table, CpuState, Outcome};

verus! {

/// A key of the sixteen-key pad, or one of two host states: no key is
/// pressed (`Null`), or the host asks to stop (`Quit`).
#[derive(Clone, Copy, Debug, PartialEq, Eq, Structural)]
pub enum KeyCode {
    Key0,
    Key1,
    Key2,
    Key3,
    Key4,
    Key5,
    Key6,
    Key7,
    Key8,
    Key9,
    KeyA,
    KeyB,
    KeyC,
    KeyD,
    KeyE,
    KeyF,
    Null,
    Quit,
}

/// What the execution engine asks of the display after one instruction.
#[derive(Clone, Copy, Debug)]
pub enum Chip8Message {
    NoSignal,
    ClearScreen,
    DrawScreen([[u8; 32]; 64]),
}

/// Why an instruction, a fetch or a load was refused.
#[derive(Clone, Copy, Debug, PartialEq, Eq, Structural)]
pub enum Chip8Error {
    /// The operand fields are those of no instruction word.
    DecodeError,
    /// A call with sixteen frames already on the call stack.
    StackOverflow,
    /// A return with no frame on the call stack.
    StackUnderflow,
    /// An address outside the 4096 bytes of memory, or a program too large for them.
    LoadError,
}

/// A display signal as a mathematical value: the frame is a sequence of 64
/// columns of 32 pixels each.
pub enum Signal {
    NoSignal,
    ClearScreen,
    DrawScreen(Seq<Seq<u8>>),
}

/// A pixel grid as 64 columns of 32 pixels.
pub open spec fn grid_view(grid: [[u8; 32]; 64]) -> Seq<Seq<u8>> {
    Seq::new(64, |x: int| grid@[x]@)
}

impl View for Chip8Message {
    type V = Signal;

    open spec fn view(&self) -> Signal {
        match *self {
            Chip8Message::NoSignal => Signal::NoSignal,
            Chip8Message::ClearScreen => Signal::ClearScreen,
            Chip8Message::DrawScreen(grid) => Signal::DrawScreen(grid_view(grid)),
        }
    }
}

/// The key that a character of the host's keyboard stands for, `Null` for
/// a character that stands for none. The block `1234` / `qwer` / `asdf` /
/// `zxcv` is laid over the pad, with one exception: `f` gives key F, as `v`
/// does, so that no character gives key E.
pub open spec fn key_for_char(c: char) -> KeyCode {
    if c == '1' {
        KeyCode::Key1
    } else if c == '2' {
        KeyCode::Key2
    } else if c == '3' {
        KeyCode::Key3
    } else if c == '4' {
        KeyCode::KeyC
    } else if c == 'q' {
        KeyCode::Key4
    } else if c == 'w' {
        KeyCode::Key5
    } else if c == 'e' {
        KeyCode::Key6
    } else if c == 'r' {
        KeyCode::KeyD
    } else if c == 'a' {
        KeyCode::Key7
    } else if c == 's' {
        KeyCode::Key8
    } else if c == 'd' {
        KeyCode::Key9
    } else if c == 'f' {
        KeyCode::KeyF
    } else if c == 'z' {
        KeyCode::KeyA
    } else if c == 'x' {
        KeyCode::Key0
    } else if c == 'c' {
        KeyCode::KeyB
    } else if c == 'v' {
        KeyCode::KeyF
    } else {
        KeyCode::Null
    }
}

impl KeyCode {
    /// The logical code of a pad key, 0 to 15; `None` where no pad key is pressed.
    pub open spec fn spec_code(self) -> Option<u8> {
        match self {
            KeyCode::Key0 => Some(0u8),
            KeyCode::Key1 => Some(1u8),
            KeyCode::Key2 => Some(2u8),
            KeyCode::Key3 => Some(3u8),
            KeyCode::Key4 => Some(4u8),
            KeyCode::Key5 => Some(5u8),
            KeyCode::Key6 => Some(6u8),
            KeyCode::Key7 => Some(7u8),
            KeyCode::Key8 => Some(8u8),
            KeyCode::Key9 => Some(9u8),
            KeyCode::KeyA => Some(10u8),
            KeyCode::KeyB => Some(11u8),
            KeyCode::KeyC => Some(12u8),
            KeyCode::KeyD => Some(13u8),
            KeyCode::KeyE => Some(14u8),
            KeyCode::KeyF => Some(15u8),
            KeyCode::Null => None,
            KeyCode::Quit => None,
        }
    }

    #[verifier::when_used_as_spec(spec_code)]
    pub fn code(self) -> (code: Option<u8>)
        ensures
            code == self.spec_code(),
            code matches Some(k) ==> k < 16,
    {
        match self {
            KeyCode::Key0 => Some(0u8),
            KeyCode::Key1 => Some(1u8),
            KeyCode::Key2 => Some(2u8),
            KeyCode::Key3 => Some(3u8),
            KeyCode::Key4 => Some(4u8),
            KeyCode::Key5 => Some(5u8),
            KeyCode::Key6 => Some(6u8),
            KeyCode::Key7 => Some(7u8),
            KeyCode::Key8 => Some(8u8),
            KeyCode::Key9 => Some(9u8),
            KeyCode::KeyA => Some(10u8),
            KeyCode::KeyB => Some(11u8),
            KeyCode::KeyC => Some(12u8),
            KeyCode::KeyD => Some(13u8),
            KeyCode::KeyE => Some(14u8),
            KeyCode::KeyF => Some(15u8),
            KeyCode::Null => None,
            KeyCode::Quit => None,
        }
    }

    /// The pad key for a character typed at the host's keyboard. Both `f`
    /// and `v` give key F, and no character gives key E.
    pub fn from_char(c: char) -> (key: KeyCode)
        ensures
            key == key_for_char(c),
    {
        if c == '1' {
            KeyCode::Key1
        } else if c == '2' {
            KeyCode::Key2
        } else if c == '3' {
            KeyCode::Key3
        } else if c == '4' {
            KeyCode::KeyC
        } else if c == 'q' {
            KeyCode::Key4
        } else if c == 'w' {
            KeyCode::Key5
        } else if c == 'e' {
            KeyCode::Key6
        } else if c == 'r' {
            KeyCode::KeyD
        } else if c == 'a' {
            KeyCode::Key7
        } else if c == 's' {
            KeyCode::Key8
        } else if c == 'd' {
            KeyCode::Key9
        } else if c == 'f' || c == 'v' {
            KeyCode::KeyF
        } else if c == 'z' {
            KeyCode::KeyA
        } else if c == 'x' {
            KeyCode::Key0
        } else if c == 'c' {
            KeyCode::KeyB
        } else {
            KeyCode::Null
        }
    }
}

/// The largest program that fits between the start address and the end of memory.
pub const MAX_ROM_SIZE: usize = 3584;

/// The address at which a program is loaded and started.
pub const ROM_START: u16 = 0x200;

/// The number of nanoseconds in a second.
pub const NANOS_PER_SECOND: u64 = 1_000_000_000;

/// The driver of the two timers: it remembers the time of their last step,
/// in nanoseconds on a clock of the host's choice.
#[derive(Clone, Copy, Debug)]
pub struct Clock {
    last: u64,
}

/// More than a sixtieth of a second lies between `last` and `now`.
pub open spec fn timers_due(last: u64, now: u64) -> bool {
    (now - last) * 60 > 1_000_000_000
}

impl Clock {
    /// The time of the timers' last step.
    pub closed spec fn spec_last(&self) -> u64 {
        self.last
    }

    /// A clock whose last step was at time `now`.
    pub fn new(now: u64) -> (clock: Clock)
        ensures
            clock.last() == now,
    {
        Clock { last: now }
    }

    #[verifier::when_used_as_spec(spec_last)]
    pub fn last(&self) -> (last: u64)
        ensures
            last == self.last(),
    {
        self.last
    }

    /// Tells whether the timers are due for a step at time `now`, that is
    /// whether more than a sixtieth of a second has passed since the last
    /// one; if so, `now` becomes the time of the last step.
    pub fn tick(&mut self, now: u64) -> (due: bool)
        ensures
            due == timers_due(old(self).last(), now),
            final(self).last() == if due {
                now
            } else {
                old(self).last()
            },
    {
        if now <= self.last {
            return false;
        }
        let elapsed = now - self.last;
        let due = elapsed > NANOS_PER_SECOND / 60;
        if due {
            self.last = now;
        }
        due
    }
}

/// The machine: a processor and the driver of its timers.
#[derive(Debug)]
pub struct Chip8 {
    pub cpu: Cpu,
    pub clock: Clock,
}

/// One cycle of the machine, in a state `s` in which the host's key is
/// already recorded: the instruction at the program counter is fetched and
/// executed with `rnd` as the byte that chance gave, and then, where `due`
/// holds, the timers make a step. A program counter whose word does not lie
/// within memory gives `LoadError`, and nothing is executed.
pub open spec fn cycle_outcome(s: CpuState, due: bool, rnd: u8) -> Outcome {
    let run = if s.pc + 1 < 4096 {
        s.skip().step_word(s.next_word(), rnd)
    } else {
        s.fail(Chip8Error::LoadError)
    };
    Outcome {
        state: if due {
            run.state.ticked()
        } else {
            run.state
        },
        result: run.result,
    }
}

/// What the host reports for one cycle: the key that is pressed, and the
/// time in nanoseconds on its clock.
#[derive(Clone, Copy, Debug)]
pub struct HostInput {
    pub key: KeyCode,
    pub now: u64,
}

/// What a run hands to the display: the signals in the order in which they
/// came, and the error that ended the run, if one did.
#[derive(Debug)]
pub struct Recording {
    pub signals: Vec<Chip8Message>,
    pub error: Option<Chip8Error>,
}

/// A run as a mathematical value: the state it has reached, the time of the
/// timers' last step, the signals so far, and the error that ended it.
pub struct Trace {
    pub state: CpuState,
    pub last: u64,
    pub signals: Seq<Signal>,
    pub error: Option<Chip8Error>,
}

/// The signals of a recording as mathematical values.
pub open spec fn signals_view(signals: Seq<Chip8Message>) -> Seq<Signal> {
    Seq::new(signals.len(), |i: int| signals[i]@)
}

/// A run that has not ended goes through one more cycle: what the cycle
/// reports is added to the signals unless it is `NoSignal`, and an error
/// ends the run.
pub open spec fn trace_step(prev: Trace, input: HostInput, rnd: u8) -> Trace {
    let due = timers_due(prev.last, input.now);
    let out = cycle_outcome(prev.state.with_key(input.key.spec_code()), due, rnd);
    Trace {
        state: out.state,
        last: if due {
            input.now
        } else {
            prev.last
        },
        signals: match out.result {
            Ok(Signal::NoSignal) => prev.signals,
            Ok(signal) => prev.signals.push(signal),
            Err(_) => prev.signals,
        },
        error: match out.result {
            Ok(_) => None,
            Err(e) => Some(e),
        },
    }
}

/// The run from state `s`, with the timers' last step at `last`, after the
/// first `k` of `inputs`, where `rnds` holds the byte that chance gave in
/// each cycle. It starts with the signal `ClearScreen`; once an error has
/// ended it, the inputs that follow change nothing.
pub open spec fn run_trace(
    s: CpuState,
    last: u64,
    inputs: Seq<HostInput>,
    rnds: Seq<u8>,
    k: nat,
) -> Trace
    decreases k,
{
    if k == 0 {
        Trace { state: s, last, signals: seq![Signal::ClearScreen], error: None }
    } else {
        let prev = run_trace(s, last, inputs, rnds, (k - 1) as nat);
        if prev.error.is_some() {
            prev
        } else {
            trace_step(prev, inputs[k - 1], rnds[k - 1])
        }
    }
}

/// A run depends on the bytes of chance only as far as it has come.
pub proof fn lemma_trace_prefix(
    s: CpuState,
    last: u64,
    inputs: Seq<HostInput>,
    r1: Seq<u8>,
    r2: Seq<u8>,
    k: nat,
)
    requires
        forall|j: int| 0 <= j < k ==> r1[j] == r2[j],
    ensures
        run_trace(s, last, inputs, r1, k) == run_trace(s, last, inputs, r2, k),
    decreases k,
{
    if k > 0 {
        lemma_trace_prefix(s, last, inputs, r1, r2, (k - 1) as nat);
    }
}

impl Chip8 {
    pub open spec fn wf(&self) -> bool {
        self.cpu.wf()
    }

    /// A machine that was just switched on, at time 0 of the host's clock.
    pub fn new() -> (chip: Chip8)
        ensures
            chip.wf(),
            chip.cpu@ == CpuState::initial(),
            chip.cpu.spec_key() == KeyCode::Null,
            chip.clock.last() == 0,
    {
        Chip8 { cpu: Cpu::new(), clock: Clock::new(0) }
    }

    /// Copies the glyphs of the hexadecimal digits to their place in memory.
    pub fn load_font_set(&mut self)
        requires
            old(self).wf(),
        ensures
            final(self).wf(),
            final(self).clock == old(self).clock,
            final(self).cpu.spec_key() == old(self).cpu.spec_key(),
            final(self).cpu@ == old(self).cpu@.loaded(0x50, font_table()),
            final(self).cpu@.mem.subrange(0x50, 0xA0) == font_table(),
    {
        self.cpu.load_font_set();
    }

    /// Copies a program to the start address. One of more than 3584 bytes
    /// is refused with `LoadError`, and nothing is written.
    pub fn load_rom(&mut self, rom: &[u8]) -> (res: Result<(), Chip8Error>)
        requires
            old(self).wf(),
        ensures
            final(self).wf(),
            final(self).clock == old(self).clock,
            final(self).cpu.spec_key() == old(self).cpu.spec_key(),
            rom@.len() <= 3584 ==> res.is_ok() && final(self).cpu@ == old(self).cpu@.loaded(
                0x200,
                rom@,
            ),
            rom@.len() > 3584 ==> res == Err::<(), Chip8Error>(Chip8Error::LoadError)
                && final(self).cpu@ == old(self).cpu@,
    {
        if rom.len() > MAX_ROM_SIZE {
            return Err(Chip8Error::LoadError);
        }
        self.cpu.load(ROM_START, rom)
    }

    /// Runs one cycle at time `now` with `key` as the key that is pressed
    /// and `rnd` as the byte that chance gave.
    pub fn cycle_with(&mut self, key: KeyCode, now: u64, rnd: u8) -> (res: Result<
        Chip8Message,
        Chip8Error,
    >)
        requires
            old(self).wf(),
        ensures
            final(self).wf(),
            final(self).cpu.spec_key() == key,
            final(self).clock.last() == if timers_due(old(self).clock.last(), now) {
                now
            } else {
                old(self).clock.last()
            },
            final(self).cpu.produces(
                res,
                cycle_outcome(
                    old(self).cpu@.with_key(key.spec_code()),
                    timers_due(old(self).clock.last(), now),
                    rnd,
                ),
            ),
    {
        self.cpu.set_key(key);
        let res = match self.cpu.fetch_next() {
            Ok(inst) => self.cpu.execute_with(inst, rnd),
            Err(e) => Err(e),
        };
        if self.clock.tick(now) {
            self.cpu.tick_timers();
        }
        res
    }

    /// Runs one cycle at time `now` with `key` as the key that is pressed.
    /// An instruction that asks for a random byte gets one from the random
    /// number generator.
    pub fn cycle(&mut self, key: KeyCode, now: u64) -> (res: Result<Chip8Message, Chip8Error>)
        requires
            old(self).wf(),
        ensures
            final(self).wf(),
            final(self).cpu.spec_key() == key,
            final(self).clock.last() == if timers_due(old(self).clock.last(), now) {
                now
            } else {
                old(self).clock.last()
            },
            exists|rnd: u8| #[trigger]
                final(self).cpu.produces(
                    res,
                    cycle_outcome(
                        old(self).cpu@.with_key(key.spec_code()),
                        timers_due(old(self).clock.last(), now),
                        rnd,
                    ),
                ),
    {
        self.cpu.set_key(key);
        let ghost start = self.cpu@;
        let ghost due = timers_due(self.clock.last(), now);
        let ghost rnd = 0u8;
        let res = match self.cpu.fetch_next() {
            Ok(inst) => {
                let ghost fetched = self.cpu@;
                let res = self.cpu.execute_instruction(inst);
                proof {
                    rnd = choose|r: u8| #[trigger]
                        self.cpu.produces(res, fetched.step_word(inst, r));
                }
                res
            },
            Err(e) => Err(e),
        };
        if self.clock.tick(now) {
            self.cpu.tick_timers();
        }
        assert(self.cpu.produces(res, cycle_outcome(start, due, rnd)));
        res
    }

    /// This machine and `rec` are what the run `trace` has come to.
    pub open spec fn recorded(&self, rec: Recording, trace: Trace) -> bool {
        &&& self.cpu@ == trace.state
        &&& self.clock.last() == trace.last
        &&& signals_view(rec.signals@) == trace.signals
        &&& rec.error == trace.error
    }

    /// Runs one cycle for each of `inputs`, in their order, and records
    /// what the display is to be told: first `ClearScreen`, then whatever a
    /// cycle reports other than `NoSignal`. The first cycle that is refused
    /// ends the run, and its error is recorded. An instruction that asks
    /// for a random byte gets one from the random number generator.
    pub fn run(&mut self, inputs: &[HostInput]) -> (rec: Recording)
        requires
            old(self).wf(),
        ensures
            final(self).wf(),
            exists|rnds: Seq<u8>|
                rnds.len() == inputs@.len() && #[trigger] final(self).recorded(
                    rec,
                    run_trace(
                        old(self).cpu@,
                        old(self).clock.last(),
                        inputs@,
                        rnds,
                        inputs@.len(),
                    ),
                ),
    {
        let ghost start = self.cpu@;
        let ghost last = self.clock.last();
        let ghost mut rnds: Seq<u8> = Seq::empty();
        let mut signals: Vec<Chip8Message> = Vec::new();
        signals.push(Chip8Message::ClearScreen);
        let mut error: Option<Chip8Error> = None;
        proof {
            assert(signals_view(signals@) =~= seq![Signal::ClearScreen]);
        }
        let mut i: usize = 0;
        while i < inputs.len()
            invariant
                i <= inputs@.len(),
                self.wf(),
                rnds.len() == i,
                self.cpu@ == run_trace(start, last, inputs@, rnds, i as nat).state,
                self.clock.last() == run_trace(start, last, inputs@, rnds, i as nat).last,
                signals_view(signals@) == run_trace(start, last, inputs@, rnds, i as nat).signals,
                error == run_trace(start, last, inputs@, rnds, i as nat).error,
            decreases inputs@.len() - i,
        {
            let input = inputs[i];
            let ghost prev = run_trace(start, last, inputs@, rnds, i as nat);
            let ghost shown = signals@;
            let ghost mut rnd = 0u8;
            if error.is_none() {
                let res = self.cycle(input.key, input.now);
                proof {
                    rnd = choose|r: u8| #[trigger]
                        self.cpu.produces(
                            res,
                            cycle_outcome(
                                prev.state.with_key(input.key.spec_code()),
                                timers_due(prev.last, input.now),
                                r,
                            ),
                        );
                }
                match res {
                    Ok(Chip8Message::NoSignal) => {},
                    Ok(msg) => {
                        signals.push(msg);
                        proof {
                            assert(signals_view(signals@) =~= signals_view(shown).push(msg@));
                        }
                    },
                    Err(e) => {
                        error = Some(e);
                    },
                }
            }
            proof {
                lemma_trace_prefix(start, last, inputs@, rnds, rnds.push(rnd), i as nat);
                rnds = rnds.push(rnd);
                assert(inputs@[i as int] == input);
                assert(rnds[i as int] == rnd);
            }
            i += 1;
        }
        let rec = Recording { signals, error };
        proof {
            assert(self.recorded(rec, run_trace(start, last, inputs@, rnds, inputs@.len())));
        }
        rec
    }
}

} // verus!
