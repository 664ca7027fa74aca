//! The machine itself: a fixed-size memory image, sixteen 32-bit registers
//! (register 0 doubling as the instruction pointer), and a
//! fetch-decode-execute loop over the eight-opcode instruction set. The
//! meaning of every step is pinned down by the spec functions in
//! [`crate::semantics`].

use vstd::prelude::*;
use crate::format::{dec_bytes_signed, utf8_bytes};
use crate::semantics::{
    MachineState, RunState, StepSpec, MEMORY_SIZE, NREGS, init_state, io_post,
    lemma_halted_excludes_failed, lemma_halted_output_bounds, lemma_run_stable,
    lemma_step_fail_kind, silent_post, spec_exit, spec_load, spec_loadimm, spec_move_if,
    spec_out, spec_out_number, spec_run, spec_step, spec_store, spec_sub, wrap_sub,
};
use crate::sink::Sink;

verus! {

/// Everything that can go wrong while executing a program.
#[derive(Debug, PartialEq, Eq, Structural, Clone, Copy)]
pub enum MachineError {
    /// The program tried to access an invalid memory address.
    InvalidMemoryAccess,
    /// The program tried to access an invalid register.
    InvalidRegisterAccess,
    /// The program tried to execute an invalid instruction.
    InvalidInstruction,
    /// The output sink failed to accept the bytes written to it.
    IOError,
}

/// A machine: memory holding both code and data, and sixteen registers.
/// Each machine owns its memory and registers exclusively.
pub struct Machine {
    mem: Vec<u8>,
    reg: Vec<u32>,
}

impl View for Machine {
    type V = MachineState;

    closed spec fn view(&self) -> MachineState {
        MachineState { mem: self.mem@, regs: self.reg@ }
    }
}

impl Machine {
    /// Create a new machine in its reset state: `memory` is copied to the
    /// beginning of the machine memory, the rest is zero-filled, and all
    /// registers start at zero.
    pub fn new(memory: &[u8]) -> (r: Machine)
        requires
            memory@.len() <= MEMORY_SIZE as int,
        ensures
            r@ == init_state(memory@),
            r@.wf(),
    {
        let mut mem: Vec<u8> = vec![0u8; MEMORY_SIZE];
        let mut i: usize = 0;
        while i < memory.len()
            invariant
                memory@.len() <= MEMORY_SIZE as int,
                i <= memory@.len(),
                mem@.len() == MEMORY_SIZE as int,
                forall|j: int| 0 <= j < i ==> mem@[j] == memory@[j],
                forall|j: int| i <= j < MEMORY_SIZE as int ==> mem@[j] == 0u8,
            decreases memory@.len() - i,
        {
            mem[i] = memory[i];
            i = i + 1;
        }
        let reg: Vec<u32> = vec![0u32; NREGS];
        let r = Machine { mem, reg };
        proof {
            assert(r@ =~= init_state(memory@));
        }
        r
    }

    /// Run until the program terminates or until an error happens. Output
    /// instructions write to `fd`.
    ///
    /// The ghost run relation must reach a halted or failed state after
    /// some number of steps: a program that runs forever has no
    /// terminating `run_on`.
    #[verifier::loop_isolation(false)]
    pub fn run_on<S: Sink>(&mut self, fd: &mut S) -> (r: Result<(), MachineError>)
        requires
            old(self)@.wf(),
            exists|k: nat| !((#[trigger] spec_run(old(self)@, k)) is Running),
        ensures
            final(self)@.wf(),
            (exists|k: nat| (#[trigger] spec_run(old(self)@, k))
                matches RunState::Halted { m, out } && out.len() == 0) ==> r is Ok,
            (match r {
                Ok(_) => exists|n: nat| (#[trigger] spec_run(old(self)@, n))
                    matches RunState::Halted { m, out }
                    && m == final(self)@
                    && final(fd).contents() == old(fd).contents() + out,
                Err(e) => if e == MachineError::IOError {
                    exists|n: nat| (#[trigger] spec_run(old(self)@, n))
                        matches RunState::Running { m, out }
                        && spec_step(m) matches StepSpec::Go { m: m2, out: o2, halt }
                        && m2 == final(self)@
                        && o2.len() > 0
                        && final(fd).contents() == old(fd).contents() + out
                } else {
                    exists|n: nat| (#[trigger] spec_run(old(self)@, n))
                        matches RunState::Failed { err, m, out }
                        && err == e
                        && m == final(self)@
                        && final(fd).contents() == old(fd).contents() + out
                },
            }),
    {
        let ghost m0 = self@;
        let ghost c0 = fd.contents();
        let ghost fuel: nat = choose|k: nat| !(spec_run(m0, k) is Running);
        let ghost mut n: nat = 0;
        let ghost mut acc: Seq<u8> = Seq::empty();
        proof {
            assert(c0 + acc =~= c0);
            assert(spec_run(m0, 0) == (RunState::Running { m: m0, out: acc }));
            assert(!(spec_run(m0, fuel) is Running));
        }
        loop
            invariant
                self@.wf(),
                spec_run(m0, n) == (RunState::Running { m: self@, out: acc }),
                fd.contents() == c0 + acc,
                !(spec_run(m0, fuel) is Running),
                n < fuel,
            decreases fuel - n,
        {
            let ghost before = self@;
            let res = self.step_on(fd);
            proof {
                lemma_step_fail_kind(before);
            }
            match res {
                Ok(true) => {
                    proof {
                        let s = spec_step(before);
                        match s {
                            StepSpec::Go { m: m2, out: o, halt } => {
                                assert(spec_run(m0, (n + 1) as nat) == RunState::Halted {
                                    m: m2,
                                    out: acc + o,
                                });
                                assert(fd.contents() =~= c0 + (acc + o));
                            },
                            _ => { assert(false); },
                        }
                    }
                    return Ok(());
                },
                Ok(false) => {
                    proof {
                        let s = spec_step(before);
                        match s {
                            StepSpec::Go { m: m2, out: o, halt } => {
                                assert(spec_run(m0, (n + 1) as nat) == RunState::Running {
                                    m: m2,
                                    out: acc + o,
                                });
                                assert(fd.contents() =~= c0 + (acc + o));
                                if n + 1 >= fuel {
                                    lemma_run_stable(m0, fuel, ((n + 1) - fuel) as nat);
                                    assert(false);
                                }
                                n = n + 1;
                                acc = acc + o;
                            },
                            _ => { assert(false); },
                        }
                    }
                },
                Err(e) => {
                    proof {
                        let s = spec_step(before);
                        match s {
                            StepSpec::Fail { err, m: m2 } => {
                                assert(spec_run(m0, (n + 1) as nat) == RunState::Failed {
                                    err,
                                    m: m2,
                                    out: acc,
                                });
                            },
                            StepSpec::Go { m: m2, out: o, halt } => {
                                assert(e == MachineError::IOError);
                                if halt {
                                    assert(spec_run(m0, (n + 1) as nat) == RunState::Halted {
                                        m: m2,
                                        out: acc + o,
                                    });
                                } else {
                                    assert(spec_run(m0, (n + 1) as nat) == RunState::Running {
                                        m: m2,
                                        out: acc + o,
                                    });
                                }
                            },
                        }
                        if exists|k: nat| (#[trigger] spec_run(m0, k))
                            matches RunState::Halted { m, out } && out.len() == 0 {
                            let k_h = choose|k: nat| (#[trigger] spec_run(m0, k))
                                matches RunState::Halted { m, out } && out.len() == 0;
                            match s {
                                StepSpec::Fail { err, m: m2 } => {
                                    lemma_halted_excludes_failed(m0, k_h, (n + 1) as nat);
                                    assert(false);
                                },
                                StepSpec::Go { m: m2, out: o, halt } => {
                                    lemma_halted_output_bounds(m0, (n + 1) as nat, k_h);
                                    assert(false);
                                },
                            }
                        }
                    }
                    return Err(e);
                },
            }
        }
    }

    /// Execute the next instruction: decode the opcode at the instruction
    /// pointer (register 0), advance the pointer by the instruction's
    /// width, and carry out the instruction's effect. Output instructions
    /// write to `fd`.
    ///
    /// In case of success, `true` is returned if the program has terminated
    /// (upon encountering an exit instruction), `false` if execution must
    /// continue.
    pub fn step_on<S: Sink>(&mut self, fd: &mut S) -> (r: Result<bool, MachineError>)
        requires
            old(self)@.wf(),
        ensures
            final(self)@.wf(),
            io_post(
                spec_step(old(self)@),
                final(self)@,
                old(fd).contents(),
                final(fd).contents(),
                r,
            ),
    {
        let ip = self.reg[0];
        if ip as usize >= MEMORY_SIZE {
            return Err(MachineError::InvalidMemoryAccess);
        }
        let inst = self.mem[ip as usize];
        let r = match inst {
            1 => self.move_if(),
            2 => self.store(),
            3 => self.load(),
            4 => self.loadimm(),
            5 => self.sub(),
            6 => self.out(fd),
            7 => self.exit(),
            8 => self.out_number(fd),
            _ => Err(MachineError::InvalidInstruction),
        };
        proof {
            assert(old(fd).contents() + Seq::<u8>::empty() =~= old(fd).contents());
        }
        r
    }

    /// Reference onto the machine's current set of registers.
    pub fn regs(&self) -> (r: &[u32])
        ensures
            r@ == self@.regs,
    {
        self.reg.as_slice()
    }

    /// Sets a register to the given value; fails when the index is out of
    /// range.
    pub fn set_reg(&mut self, reg: usize, value: u32) -> (r: Result<(), MachineError>)
        requires
            old(self)@.wf(),
        ensures
            final(self)@.wf(),
            reg < NREGS ==> r == Ok::<(), MachineError>(())
                && final(self)@ == (MachineState {
                    regs: old(self)@.regs.update(reg as int, value),
                    ..old(self)@
                }),
            reg >= NREGS ==> r == Err::<(), MachineError>(MachineError::InvalidRegisterAccess)
                && final(self)@ == (old(self)@),
    {
        if reg >= NREGS {
            return Err(MachineError::InvalidRegisterAccess);
        }
        self.reg[reg] = value;
        proof {
            assert(self@ =~= MachineState {
                regs: old(self)@.regs.update(reg as int, value),
                ..old(self)@
            });
        }
        Ok(())
    }

    /// Reference onto the machine's current memory.
    pub fn memory(&self) -> (r: &[u8])
        ensures
            r@ == self@.mem,
    {
        self.mem.as_slice()
    }

    /// `move_if`: if the condition register is non-zero, copy one register
    /// into another; otherwise only the instruction pointer moves.
    fn move_if(&mut self) -> (r: Result<bool, MachineError>)
        requires
            old(self)@.wf(),
            0 <= old(self)@.ip() < MEMORY_SIZE as int,
        ensures
            final(self)@.wf(),
            silent_post(spec_move_if(old(self)@), final(self)@, r),
    {
        let ip = self.reg[0];
        if ip as usize >= MEMORY_SIZE - 3 {
            return Err(MachineError::InvalidMemoryAccess);
        }
        let a: usize = self.mem[ip as usize + 1] as usize;
        let b: usize = self.mem[ip as usize + 2] as usize;
        let c: usize = self.mem[ip as usize + 3] as usize;
        if a >= NREGS || b >= NREGS || c >= NREGS {
            return Err(MachineError::InvalidRegisterAccess);
        }
        self.reg[0] = ip + 4;
        if self.reg[c] != 0 {
            let v = self.reg[b];
            self.reg[a] = v;
        }
        proof {
            match spec_move_if(old(self)@) {
                StepSpec::Go { m, .. } => { assert(self@ =~= m); },
                _ => { assert(false); },
            }
        }
        Ok(false)
    }

    /// `store`: write a register as 4 little-endian bytes to the memory
    /// address held in another register.
    fn store(&mut self) -> (r: Result<bool, MachineError>)
        requires
            old(self)@.wf(),
            0 <= old(self)@.ip() < MEMORY_SIZE as int,
        ensures
            final(self)@.wf(),
            silent_post(spec_store(old(self)@), final(self)@, r),
    {
        let ip = self.reg[0];
        if ip as usize >= MEMORY_SIZE - 2 {
            return Err(MachineError::InvalidMemoryAccess);
        }
        let a: usize = self.mem[ip as usize + 1] as usize;
        let b: usize = self.mem[ip as usize + 2] as usize;
        if a >= NREGS || b >= NREGS {
            return Err(MachineError::InvalidRegisterAccess);
        }
        self.reg[0] = ip + 3;
        let addr32 = self.reg[a];
        if addr32 as usize >= MEMORY_SIZE - 3 {
            return Err(MachineError::InvalidMemoryAccess);
        }
        let addr: usize = addr32 as usize;
        let v = self.reg[b];
        self.mem[addr] = (v % 0x100) as u8;
        self.mem[addr + 1] = ((v / 0x100) % 0x100) as u8;
        self.mem[addr + 2] = ((v / 0x1_0000) % 0x100) as u8;
        self.mem[addr + 3] = ((v / 0x100_0000) % 0x100) as u8;
        proof {
            match spec_store(old(self)@) {
                StepSpec::Go { m, .. } => { assert(self@ =~= m); },
                _ => { assert(false); },
            }
        }
        Ok(false)
    }

    /// `load`: read 4 little-endian bytes from the memory address held in
    /// one register into another register.
    fn load(&mut self) -> (r: Result<bool, MachineError>)
        requires
            old(self)@.wf(),
            0 <= old(self)@.ip() < MEMORY_SIZE as int,
        ensures
            final(self)@.wf(),
            silent_post(spec_load(old(self)@), final(self)@, r),
    {
        let ip = self.reg[0];
        if ip as usize >= MEMORY_SIZE - 2 {
            return Err(MachineError::InvalidMemoryAccess);
        }
        let a: usize = self.mem[ip as usize + 1] as usize;
        let b: usize = self.mem[ip as usize + 2] as usize;
        if b >= NREGS || a >= NREGS {
            return Err(MachineError::InvalidRegisterAccess);
        }
        self.reg[0] = ip + 3;
        let addr32 = self.reg[b];
        if addr32 as usize >= MEMORY_SIZE - 3 {
            return Err(MachineError::InvalidMemoryAccess);
        }
        let addr: usize = addr32 as usize;
        let b0 = self.mem[addr] as u32;
        let b1 = self.mem[addr + 1] as u32;
        let b2 = self.mem[addr + 2] as u32;
        let b3 = self.mem[addr + 3] as u32;
        let v: u32 = b0 + b1 * 0x100 + b2 * 0x1_0000 + b3 * 0x100_0000;
        self.reg[a] = v;
        proof {
            match spec_load(old(self)@) {
                StepSpec::Go { m, .. } => { assert(self@ =~= m); },
                _ => { assert(false); },
            }
        }
        Ok(false)
    }

    /// `loadimm`: sign-extend a 16-bit little-endian immediate to 32 bits
    /// and store it in a register.
    fn loadimm(&mut self) -> (r: Result<bool, MachineError>)
        requires
            old(self)@.wf(),
            0 <= old(self)@.ip() < MEMORY_SIZE as int,
        ensures
            final(self)@.wf(),
            silent_post(spec_loadimm(old(self)@), final(self)@, r),
    {
        let ip = self.reg[0];
        if ip as usize >= MEMORY_SIZE - 3 {
            return Err(MachineError::InvalidMemoryAccess);
        }
        let a: usize = self.mem[ip as usize + 1] as usize;
        let lo = self.mem[ip as usize + 2];
        let hi = self.mem[ip as usize + 3];
        if a >= NREGS {
            return Err(MachineError::InvalidRegisterAccess);
        }
        self.reg[0] = ip + 4;
        let value: u32 = if hi >= 0x80 {
            0xFFFF_0000u32 + (hi as u32) * 0x100 + lo as u32
        } else {
            (hi as u32) * 0x100 + lo as u32
        };
        self.reg[a] = value;
        proof {
            match spec_loadimm(old(self)@) {
                StepSpec::Go { m, .. } => { assert(self@ =~= m); },
                _ => { assert(false); },
            }
        }
        Ok(false)
    }

    /// `sub`: subtract one register from another with wraparound, storing
    /// the result in a third.
    fn sub(&mut self) -> (r: Result<bool, MachineError>)
        requires
            old(self)@.wf(),
            0 <= old(self)@.ip() < MEMORY_SIZE as int,
        ensures
            final(self)@.wf(),
            silent_post(spec_sub(old(self)@), final(self)@, r),
    {
        let ip = self.reg[0];
        if ip as usize >= MEMORY_SIZE - 3 {
            return Err(MachineError::InvalidMemoryAccess);
        }
        let a: usize = self.mem[ip as usize + 1] as usize;
        let b: usize = self.mem[ip as usize + 2] as usize;
        let c: usize = self.mem[ip as usize + 3] as usize;
        if a >= NREGS || b >= NREGS || c >= NREGS {
            return Err(MachineError::InvalidRegisterAccess);
        }
        self.reg[0] = ip + 4;
        let x = self.reg[b];
        let y = self.reg[c];
        let d = x.wrapping_sub(y);
        proof {
            assert(d == wrap_sub(x, y));
        }
        self.reg[a] = d;
        proof {
            match spec_sub(old(self)@) {
                StepSpec::Go { m, .. } => { assert(self@ =~= m); },
                _ => { assert(false); },
            }
        }
        Ok(false)
    }

    /// `out`: write the character held in the low 8 bits of a register to
    /// `fd`.
    fn out<S: Sink>(&mut self, fd: &mut S) -> (r: Result<bool, MachineError>)
        requires
            old(self)@.wf(),
            0 <= old(self)@.ip() < MEMORY_SIZE as int,
        ensures
            final(self)@.wf(),
            io_post(
                spec_out(old(self)@),
                final(self)@,
                old(fd).contents(),
                final(fd).contents(),
                r,
            ),
    {
        let ip = self.reg[0];
        if ip as usize >= MEMORY_SIZE - 1 {
            return Err(MachineError::InvalidMemoryAccess);
        }
        let a: usize = self.mem[ip as usize + 1] as usize;
        if a >= NREGS {
            return Err(MachineError::InvalidRegisterAccess);
        }
        self.reg[0] = ip + 2;
        let byte = (self.reg[a] % 0x100) as u8;
        let buf = utf8_bytes(byte);
        proof {
            match spec_out(old(self)@) {
                StepSpec::Go { m, out, .. } => {
                    assert(self@ =~= m);
                    assert(buf@ == out);
                    assert(out.len() > 0);
                },
                _ => { assert(false); },
            }
        }
        if fd.write_bytes(buf.as_slice()) {
            Ok(false)
        } else {
            Err(MachineError::IOError)
        }
    }

    /// `exit`: advance past the opcode and report that the program has
    /// terminated.
    fn exit(&mut self) -> (r: Result<bool, MachineError>)
        requires
            old(self)@.wf(),
            0 <= old(self)@.ip() < MEMORY_SIZE as int,
        ensures
            final(self)@.wf(),
            silent_post(spec_exit(old(self)@), final(self)@, r),
    {
        let ip = self.reg[0];
        self.reg[0] = ip + 1;
        proof {
            match spec_exit(old(self)@) {
                StepSpec::Go { m, .. } => { assert(self@ =~= m); },
                _ => { assert(false); },
            }
        }
        Ok(true)
    }

    /// `out_number`: write the decimal representation of a register
    /// reinterpreted as a signed 32-bit number to `fd`.
    fn out_number<S: Sink>(&mut self, fd: &mut S) -> (r: Result<bool, MachineError>)
        requires
            old(self)@.wf(),
            0 <= old(self)@.ip() < MEMORY_SIZE as int,
        ensures
            final(self)@.wf(),
            io_post(
                spec_out_number(old(self)@),
                final(self)@,
                old(fd).contents(),
                final(fd).contents(),
                r,
            ),
    {
        let ip = self.reg[0];
        if ip as usize >= MEMORY_SIZE - 1 {
            return Err(MachineError::InvalidMemoryAccess);
        }
        let a: usize = self.mem[ip as usize + 1] as usize;
        if a >= NREGS {
            return Err(MachineError::InvalidRegisterAccess);
        }
        self.reg[0] = ip + 2;
        let buf = dec_bytes_signed(self.reg[a]);
        proof {
            match spec_out_number(old(self)@) {
                StepSpec::Go { m, out, .. } => {
                    assert(self@ =~= m);
                    assert(buf@ == out);
                    assert(out.len() > 0);
                },
                _ => { assert(false); },
            }
        }
        if fd.write_bytes(buf.as_slice()) {
            Ok(false)
        } else {
            Err(MachineError::IOError)
        }
    }
}

} // verus!
