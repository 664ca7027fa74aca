//! The mathematical meaning of the machine: a ghost state, one spec function
//! per instruction, a small-step function over whole instructions, and the
//! iterated run relation, together with the laws that hold of them.

use vstd::prelude::*;
use crate::format::{as_signed, dec_int, utf8_of_byte};
use crate::machine::MachineError;
use crate::words::{sign_extend_16, store_word, word_at};

verus! {

/// Number of bytes of memory a machine owns.
pub const MEMORY_SIZE: usize = 4096;

/// Number of registers; register 0 is the instruction pointer.
pub const NREGS: usize = 16;

/// The state of a machine: its memory bytes and its sixteen registers.
#[verifier::ext_equal]
pub ghost struct MachineState {
    pub mem: Seq<u8>,
    pub regs: Seq<u32>,
}

impl MachineState {
    /// A well-formed state has exactly the fixed memory and register counts.
    pub open spec fn wf(self) -> bool {
        &&& self.mem.len() == MEMORY_SIZE as int
        &&& self.regs.len() == NREGS as int
    }

    /// The instruction pointer, register 0.
    pub open spec fn ip(self) -> int {
        self.regs[0] as int
    }
}

/// The reset state for a program image: the image sits at the front of
/// memory, the rest of memory and every register is zero.
pub open spec fn init_state(img: Seq<u8>) -> MachineState
    recommends
        img.len() <= MEMORY_SIZE as int,
{
    MachineState {
        mem: Seq::new(MEMORY_SIZE as nat, |i: int| if i < img.len() { img[i] } else { 0u8 }),
        regs: Seq::new(NREGS as nat, |i: int| 0u32),
    }
}

/// `m` with the instruction pointer set to `ip2`.
pub open spec fn with_ip(m: MachineState, ip2: int) -> MachineState {
    MachineState { regs: m.regs.update(0, ip2 as u32), ..m }
}

/// What one instruction does: either the step fails with an error, leaving
/// the machine as `m` (the instruction pointer may already have advanced
/// when a data address turns out to be out of range), or it goes through,
/// yielding the next state, the bytes written to the sink, and whether the
/// program has terminated.
#[verifier::ext_equal]
pub ghost enum StepSpec {
    Fail { err: MachineError, m: MachineState },
    Go { m: MachineState, out: Seq<u8>, halt: bool },
}

/// `x - y` in two's-complement modular arithmetic.
pub open spec fn wrap_sub(x: u32, y: u32) -> u32 {
    if x - y < 0 {
        (x - y + 0x1_0000_0000) as u32
    } else {
        (x - y) as u32
    }
}

/// `move_if`: if the condition register is non-zero, copy one register into
/// another. The instruction pointer advances by 4 first, so operands that
/// name register 0 see and may overwrite the advanced pointer.
pub open spec fn spec_move_if(m: MachineState) -> StepSpec
    recommends
        m.wf(),
        0 <= m.ip() < MEMORY_SIZE as int,
{
    let ip: int = m.ip();
    if ip + 3 >= MEMORY_SIZE as int {
        StepSpec::Fail { err: MachineError::InvalidMemoryAccess, m }
    } else {
        let a: int = m.mem[ip + 1] as int;
        let b: int = m.mem[ip + 2] as int;
        let c: int = m.mem[ip + 3] as int;
        if a >= NREGS as int || b >= NREGS as int || c >= NREGS as int {
            StepSpec::Fail { err: MachineError::InvalidRegisterAccess, m }
        } else {
            let m1 = with_ip(m, ip + 4);
            let m2 = if m1.regs[c] != 0 {
                MachineState { regs: m1.regs.update(a, m1.regs[b]), ..m1 }
            } else {
                m1
            };
            StepSpec::Go { m: m2, out: Seq::empty(), halt: false }
        }
    }
}

/// `store`: write a register as 4 little-endian bytes to the memory address
/// held in another register. The address check happens after the
/// instruction pointer has advanced by 3.
pub open spec fn spec_store(m: MachineState) -> StepSpec
    recommends
        m.wf(),
        0 <= m.ip() < MEMORY_SIZE as int,
{
    let ip: int = m.ip();
    if ip + 2 >= MEMORY_SIZE as int {
        StepSpec::Fail { err: MachineError::InvalidMemoryAccess, m }
    } else {
        let a: int = m.mem[ip + 1] as int;
        let b: int = m.mem[ip + 2] as int;
        if a >= NREGS as int || b >= NREGS as int {
            StepSpec::Fail { err: MachineError::InvalidRegisterAccess, m }
        } else {
            let m1 = with_ip(m, ip + 3);
            let addr: int = m1.regs[a] as int;
            if addr + 3 >= MEMORY_SIZE as int {
                StepSpec::Fail { err: MachineError::InvalidMemoryAccess, m: m1 }
            } else {
                let m2 = MachineState { mem: store_word(m1.mem, addr, m1.regs[b]), ..m1 };
                StepSpec::Go { m: m2, out: Seq::empty(), halt: false }
            }
        }
    }
}

/// `load`: read 4 little-endian bytes from the memory address held in one
/// register into another register. The address check happens after the
/// instruction pointer has advanced by 3.
pub open spec fn spec_load(m: MachineState) -> StepSpec
    recommends
        m.wf(),
        0 <= m.ip() < MEMORY_SIZE as int,
{
    let ip: int = m.ip();
    if ip + 2 >= MEMORY_SIZE as int {
        StepSpec::Fail { err: MachineError::InvalidMemoryAccess, m }
    } else {
        let a: int = m.mem[ip + 1] as int;
        let b: int = m.mem[ip + 2] as int;
        if a >= NREGS as int || b >= NREGS as int {
            StepSpec::Fail { err: MachineError::InvalidRegisterAccess, m }
        } else {
            let m1 = with_ip(m, ip + 3);
            let addr: int = m1.regs[b] as int;
            if addr + 3 >= MEMORY_SIZE as int {
                StepSpec::Fail { err: MachineError::InvalidMemoryAccess, m: m1 }
            } else {
                let m2 = MachineState { regs: m1.regs.update(a, word_at(m1.mem, addr)), ..m1 };
                StepSpec::Go { m: m2, out: Seq::empty(), halt: false }
            }
        }
    }
}

/// `loadimm`: sign-extend a 16-bit little-endian immediate to 32 bits and
/// store it in a register.
pub open spec fn spec_loadimm(m: MachineState) -> StepSpec
    recommends
        m.wf(),
        0 <= m.ip() < MEMORY_SIZE as int,
{
    let ip: int = m.ip();
    if ip + 3 >= MEMORY_SIZE as int {
        StepSpec::Fail { err: MachineError::InvalidMemoryAccess, m }
    } else {
        let a: int = m.mem[ip + 1] as int;
        let lo: u8 = m.mem[ip + 2];
        let hi: u8 = m.mem[ip + 3];
        if a >= NREGS as int {
            StepSpec::Fail { err: MachineError::InvalidRegisterAccess, m }
        } else {
            let m1 = with_ip(m, ip + 4);
            let m2 = MachineState { regs: m1.regs.update(a, sign_extend_16(lo, hi)), ..m1 };
            StepSpec::Go { m: m2, out: Seq::empty(), halt: false }
        }
    }
}

/// `sub`: subtract one register from another with wraparound, storing the
/// result in a third.
pub open spec fn spec_sub(m: MachineState) -> StepSpec
    recommends
        m.wf(),
        0 <= m.ip() < MEMORY_SIZE as int,
{
    let ip: int = m.ip();
    if ip + 3 >= MEMORY_SIZE as int {
        StepSpec::Fail { err: MachineError::InvalidMemoryAccess, m }
    } else {
        let a: int = m.mem[ip + 1] as int;
        let b: int = m.mem[ip + 2] as int;
        let c: int = m.mem[ip + 3] as int;
        if a >= NREGS as int || b >= NREGS as int || c >= NREGS as int {
            StepSpec::Fail { err: MachineError::InvalidRegisterAccess, m }
        } else {
            let m1 = with_ip(m, ip + 4);
            let m2 = MachineState {
                regs: m1.regs.update(a, wrap_sub(m1.regs[b], m1.regs[c])),
                ..m1
            };
            StepSpec::Go { m: m2, out: Seq::empty(), halt: false }
        }
    }
}

/// `out`: write the character whose code point sits in the low 8 bits of a
/// register, UTF-8 encoded, to the sink.
pub open spec fn spec_out(m: MachineState) -> StepSpec
    recommends
        m.wf(),
        0 <= m.ip() < MEMORY_SIZE as int,
{
    let ip: int = m.ip();
    if ip + 1 >= MEMORY_SIZE as int {
        StepSpec::Fail { err: MachineError::InvalidMemoryAccess, m }
    } else {
        let a: int = m.mem[ip + 1] as int;
        if a >= NREGS as int {
            StepSpec::Fail { err: MachineError::InvalidRegisterAccess, m }
        } else {
            let m1 = with_ip(m, ip + 2);
            StepSpec::Go {
                m: m1,
                out: utf8_of_byte((m1.regs[a] % 0x100) as u8),
                halt: false,
            }
        }
    }
}

/// `exit`: advance past the opcode and terminate the program.
pub open spec fn spec_exit(m: MachineState) -> StepSpec
    recommends
        m.wf(),
        0 <= m.ip() < MEMORY_SIZE as int,
{
    StepSpec::Go { m: with_ip(m, m.ip() + 1), out: Seq::empty(), halt: true }
}

/// `out_number`: write the decimal representation of a register
/// reinterpreted as a signed 32-bit number to the sink.
pub open spec fn spec_out_number(m: MachineState) -> StepSpec
    recommends
        m.wf(),
        0 <= m.ip() < MEMORY_SIZE as int,
{
    let ip: int = m.ip();
    if ip + 1 >= MEMORY_SIZE as int {
        StepSpec::Fail { err: MachineError::InvalidMemoryAccess, m }
    } else {
        let a: int = m.mem[ip + 1] as int;
        if a >= NREGS as int {
            StepSpec::Fail { err: MachineError::InvalidRegisterAccess, m }
        } else {
            let m1 = with_ip(m, ip + 2);
            StepSpec::Go { m: m1, out: dec_int(as_signed(m1.regs[a])), halt: false }
        }
    }
}

/// One whole fetch-decode-execute step: fetch the opcode at the instruction
/// pointer and dispatch. An opcode outside 1..=8 fails with an invalid
/// instruction and leaves the state unchanged.
pub open spec fn spec_step(m: MachineState) -> StepSpec
    recommends
        m.wf(),
{
    let ip: int = m.ip();
    if ip >= MEMORY_SIZE as int {
        StepSpec::Fail { err: MachineError::InvalidMemoryAccess, m }
    } else {
        let op: u8 = m.mem[ip];
        if op == 1 {
            spec_move_if(m)
        } else if op == 2 {
            spec_store(m)
        } else if op == 3 {
            spec_load(m)
        } else if op == 4 {
            spec_loadimm(m)
        } else if op == 5 {
            spec_sub(m)
        } else if op == 6 {
            spec_out(m)
        } else if op == 7 {
            spec_exit(m)
        } else if op == 8 {
            spec_out_number(m)
        } else {
            StepSpec::Fail { err: MachineError::InvalidInstruction, m }
        }
    }
}

/// Where a run stands after some number of steps: still running, halted by
/// `exit`, or stopped by an error. `out` collects every byte written so far.
#[verifier::ext_equal]
pub ghost enum RunState {
    Running { m: MachineState, out: Seq<u8> },
    Halted { m: MachineState, out: Seq<u8> },
    Failed { err: MachineError, m: MachineState, out: Seq<u8> },
}

/// The state of a run after `n` steps from `m0`. Halted and failed states
/// are final: further steps leave them as they are.
pub open spec fn spec_run(m0: MachineState, n: nat) -> RunState
    decreases n,
{
    if n == 0 {
        RunState::Running { m: m0, out: Seq::empty() }
    } else {
        let prev = spec_run(m0, (n - 1) as nat);
        match prev {
            RunState::Running { m, out } => match spec_step(m) {
                StepSpec::Fail { err, m: m2 } => RunState::Failed { err, m: m2, out },
                StepSpec::Go { m: m2, out: o, halt } => if halt {
                    RunState::Halted { m: m2, out: out + o }
                } else {
                    RunState::Running { m: m2, out: out + o }
                },
            },
            _ => prev,
        }
    }
}

/// What executing one instruction that writes nothing must achieve: the
/// machine lands in the state the spec names, and the step's result carries
/// the spec's error or halt flag.
pub open spec fn silent_post(s: StepSpec, m2: MachineState, r: Result<bool, MachineError>) -> bool {
    match s {
        StepSpec::Fail { err, m } => r == Err::<bool, MachineError>(err) && m2 == m,
        StepSpec::Go { m, out, halt } => r == Ok::<bool, MachineError>(halt) && m2 == m
            && out == Seq::<u8>::empty(),
    }
}

/// What executing one instruction that may write to the sink must achieve:
/// on success the spec's output is appended to the sink, and a sink failure
/// surfaces as an I/O error with the sink contents unchanged. `c0` and `c2`
/// are the sink contents before and after.
pub open spec fn io_post(
    s: StepSpec,
    m2: MachineState,
    c0: Seq<u8>,
    c2: Seq<u8>,
    r: Result<bool, MachineError>,
) -> bool {
    match s {
        StepSpec::Fail { err, m } => r == Err::<bool, MachineError>(err) && m2 == m && c2 == c0,
        StepSpec::Go { m, out, halt } => m2 == m && match r {
            Ok(h) => h == halt && c2 == c0 + out,
            Err(e) => e == MachineError::IOError && out.len() > 0 && c2 == c0,
        },
    }
}

/// A step never fails with an I/O error: that error belongs to the sink
/// alone.
pub proof fn lemma_step_fail_kind(m: MachineState)
    ensures
        spec_step(m) matches StepSpec::Fail { err, .. } ==> err != MachineError::IOError,
{
}

/// `move_if` with a zero condition register leaves every register but the
/// instruction pointer unchanged; with a non-zero condition register it
/// copies the source register's value into the destination. The condition
/// and source are read after the instruction pointer has advanced by 4.
pub proof fn lemma_move_if(m: MachineState)
    requires
        m.wf(),
        0 <= m.ip(),
        m.ip() + 3 < MEMORY_SIZE as int,
        m.mem[m.ip()] == 1u8,
        m.mem[m.ip() + 1] < NREGS as u8,
        m.mem[m.ip() + 2] < NREGS as u8,
        m.mem[m.ip() + 3] < NREGS as u8,
    ensures
        spec_step(m) matches StepSpec::Go { m: m2, out, halt }
            && !halt
            && out == Seq::<u8>::empty()
            && m2.mem == m.mem
            && ({
                let ip = m.ip();
                let a = m.mem[ip + 1] as int;
                let b = m.mem[ip + 2] as int;
                let c = m.mem[ip + 3] as int;
                let moved = m.regs.update(0, (ip + 4) as u32);
                &&& (moved[c] == 0 ==> m2.regs == moved)
                &&& (moved[c] != 0 ==> m2.regs == moved.update(a, moved[b]))
            }),
{
}

/// An opcode byte outside 1 through 8 fails with an invalid instruction
/// and leaves the whole machine state, the instruction pointer included,
/// unchanged.
pub proof fn lemma_invalid_opcode(m: MachineState)
    requires
        m.wf(),
        0 <= m.ip() < MEMORY_SIZE as int,
        m.mem[m.ip()] == 0u8 || m.mem[m.ip()] > 8u8,
    ensures
        spec_step(m) == (StepSpec::Fail { err: MachineError::InvalidInstruction, m }),
{
}

/// A valid opcode placed at the last memory cell, where its operand span
/// would exceed capacity, fails with an invalid memory access and leaves
/// the machine unchanged. Only `exit` fits in a single byte.
pub proof fn lemma_truncated_instruction(m: MachineState)
    requires
        m.wf(),
        m.ip() == MEMORY_SIZE as int - 1,
        1u8 <= m.mem[m.ip()] <= 8u8,
        m.mem[m.ip()] != 7u8,
    ensures
        spec_step(m) == (StepSpec::Fail { err: MachineError::InvalidMemoryAccess, m }),
{
}

/// A register-index operand of 16 or greater fails with an invalid
/// register access and leaves the machine unchanged, whichever instruction
/// carries the operand.
pub proof fn lemma_invalid_register_operand(m: MachineState)
    requires
        m.wf(),
        0 <= m.ip(),
        ({
            let ip = m.ip();
            let op = m.mem[ip];
            ||| ((op == 1u8 || op == 5u8) && ip + 3 < MEMORY_SIZE as int
                && (m.mem[ip + 1] >= NREGS as u8 || m.mem[ip + 2] >= NREGS as u8
                    || m.mem[ip + 3] >= NREGS as u8))
            ||| ((op == 2u8 || op == 3u8) && ip + 2 < MEMORY_SIZE as int
                && (m.mem[ip + 1] >= NREGS as u8 || m.mem[ip + 2] >= NREGS as u8))
            ||| (op == 4u8 && ip + 3 < MEMORY_SIZE as int && m.mem[ip + 1] >= NREGS as u8)
            ||| ((op == 6u8 || op == 8u8) && ip + 1 < MEMORY_SIZE as int
                && m.mem[ip + 1] >= NREGS as u8)
        }),
    ensures
        spec_step(m) == (StepSpec::Fail { err: MachineError::InvalidRegisterAccess, m }),
{
}

/// Once a run has halted or failed it stays exactly where it is.
pub proof fn lemma_run_stable(m0: MachineState, n: nat, k: nat)
    requires
        !(spec_run(m0, n) is Running),
    ensures
        spec_run(m0, n + k) == spec_run(m0, n),
    decreases k,
{
    if k > 0 {
        lemma_run_stable(m0, n, (k - 1) as nat);
        assert(spec_run(m0, n + k) == spec_run(m0, (n + k - 1) as nat));
    }
}

/// The bytes a run has written after some number of steps, whatever state
/// it is in.
pub open spec fn run_out(s: RunState) -> Seq<u8> {
    match s {
        RunState::Running { m, out } => out,
        RunState::Halted { m, out } => out,
        RunState::Failed { err, m, out } => out,
    }
}

/// A run only ever appends to its output: the written bytes never shrink.
pub proof fn lemma_run_out_monotonic(m0: MachineState, n1: nat, n2: nat)
    requires
        n1 <= n2,
    ensures
        run_out(spec_run(m0, n1)).len() <= run_out(spec_run(m0, n2)).len(),
    decreases n2 - n1,
{
    if n1 < n2 {
        lemma_run_out_monotonic(m0, n1, (n2 - 1) as nat);
        assert(spec_run(m0, n2) == spec_run(m0, ((n2 - 1) + 1) as nat));
    }
}

/// Against a halting run, the output at any step is no longer than the
/// output at the halt.
pub proof fn lemma_halted_output_bounds(m0: MachineState, n: nat, n_h: nat)
    requires
        spec_run(m0, n_h) is Halted,
    ensures
        run_out(spec_run(m0, n)).len() <= run_out(spec_run(m0, n_h)).len(),
{
    if n <= n_h {
        lemma_run_out_monotonic(m0, n, n_h);
    } else {
        lemma_run_stable(m0, n_h, (n - n_h) as nat);
    }
}

/// A run that halts never fails: no step of it reaches an error state.
pub proof fn lemma_halted_excludes_failed(m0: MachineState, n_h: nat, n: nat)
    requires
        spec_run(m0, n_h) is Halted,
    ensures
        !(spec_run(m0, n) is Failed),
{
    if n <= n_h {
        if spec_run(m0, n) is Failed {
            lemma_run_stable(m0, n, (n_h - n) as nat);
        }
    } else {
        lemma_run_stable(m0, n_h, (n - n_h) as nat);
    }
}

/// A run is deterministic: the halting state and output are a function of
/// the initial state alone, whatever number of steps witnesses the halt.
pub proof fn lemma_run_deterministic(m0: MachineState, n1: nat, n2: nat)
    requires
        spec_run(m0, n1) is Halted,
        spec_run(m0, n2) is Halted,
    ensures
        spec_run(m0, n1) == spec_run(m0, n2),
{
    if n1 <= n2 {
        lemma_run_stable(m0, n1, (n2 - n1) as nat);
    } else {
        lemma_run_stable(m0, n2, (n1 - n2) as nat);
    }
}

} // verus!

