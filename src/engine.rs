//! The execution engine: one fetch-decode-execute cycle as a function of the
//! machine state and the console's answer, and a run over scripted input.
use vstd::prelude::*;
use crate::instr::{decode, decoded, registers_in_range, Instr, Operand};
use crate::machine::{Machine, MachineView, KBSR, MEMORY_WORDS};

verus! {

/// How a cycle ended.
#[derive(Clone, Copy, Debug, PartialEq, Eq, Structural)]
pub enum Status {
    /// The machine goes on to the next instruction.
    Running,
    /// The halt service ran.
    Halted,
    /// A reserved opcode was fetched: a fatal error.
    IllegalOpcode,
    /// A service that waits for a console byte found the input closed.
    InputClosed,
}

/// What the next cycle asks of the console before it can run.
#[derive(Clone, Copy, Debug, PartialEq, Eq, Structural)]
pub enum InputNeed {
    /// Nothing: the cycle does not look at the console.
    Nothing,
    /// A poll of the keyboard: `None` stands for no pending byte.
    Poll,
    /// A blocking read of one byte; `None` stands for closed input.
    Char,
    /// As `Char`, after the prompt of `input_prompt` has been shown; the
    /// byte is echoed.
    EchoedChar,
}

/// Trap vector: read one console byte into R0, without echo.
pub const TRAP_GETC: u16 = 0x20;

/// Trap vector: write the low byte of R0.
pub const TRAP_OUT: u16 = 0x21;

/// Trap vector: write the string at the address in R0, one byte per word.
pub const TRAP_PUTS: u16 = 0x22;

/// Trap vector: prompt, read one console byte into R0 and echo it.
pub const TRAP_IN: u16 = 0x23;

/// Trap vector: write the packed string at the address in R0, two bytes per word.
pub const TRAP_PUTSP: u16 = 0x24;

/// Trap vector: halt the machine.
pub const TRAP_HALT: u16 = 0x25;

/// The low byte of a word.
pub open spec fn low_byte(w: u16) -> u8 {
    (w & 0xFF) as u8
}

/// The high byte of a word.
pub open spec fn high_byte(w: u16) -> u8 {
    (w >> 8) as u8
}

/// The characters of the string that starts at address `a`: the low bytes of
/// the words up to the first whose low byte is zero, or up to the end of
/// memory.
pub open spec fn string_from(mem: Seq<u16>, a: int) -> Seq<u8>
    decreases mem.len() - a,
{
    if a < 0 || a >= mem.len() || low_byte(mem[a]) == 0 {
        seq![]
    } else {
        seq![low_byte(mem[a])] + string_from(mem, a + 1)
    }
}

/// The characters of the packed string that starts at address `a`: two per
/// word, high byte first, up to the first zero byte or the end of memory.
pub open spec fn packed_from(mem: Seq<u16>, a: int) -> Seq<u8>
    decreases mem.len() - a,
{
    if a < 0 || a >= mem.len() || high_byte(mem[a]) == 0 {
        seq![]
    } else if low_byte(mem[a]) == 0 {
        seq![high_byte(mem[a])]
    } else {
        seq![high_byte(mem[a]), low_byte(mem[a])] + packed_from(mem, a + 1)
    }
}

proof fn lemma_byte_zero(w: u16)
    ensures
        low_byte(w) == 0 <==> w & 0xFF == 0,
        high_byte(w) == 0 <==> w >> 8 == 0,
{
    assert(((w & 0xFF) as u8 == 0 <==> w & 0xFF == 0) && ((w >> 8) as u8 == 0 <==> w >> 8 == 0))
        by (bit_vector);
}

/// The value of the second operand of `Add` or `And`.
pub open spec fn operand_value(s: MachineView, src: Operand) -> u16 {
    match src {
        Operand::Reg(r) => s.r(r),
        Operand::Imm(v) => v,
    }
}

/// The effect of a console service: next state, output, status.
pub open spec fn trapped(s: MachineView, vector: u16, key: Option<u8>) -> (MachineView, Seq<u8>, Status) {
    if vector == TRAP_GETC || vector == TRAP_IN {
        match key {
            Some(c) => (
                s.with_reg(0, c as u16),
                if vector == TRAP_IN { seq![c] } else { seq![] },
                Status::Running,
            ),
            None => (s, seq![], Status::InputClosed),
        }
    } else if vector == TRAP_OUT {
        (s, seq![low_byte(s.r(0))], Status::Running)
    } else if vector == TRAP_PUTS {
        (s, string_from(s.mem, s.r(0) as int), Status::Running)
    } else if vector == TRAP_PUTSP {
        (s, packed_from(s.mem, s.r(0) as int), Status::Running)
    } else if vector == TRAP_HALT {
        (s, seq![], Status::Halted)
    } else {
        (s, seq![], Status::Running)
    }
}

/// The effect of instruction `i` on `s`, whose program counter already
/// addresses the following word: next state, output, status.
pub open spec fn executed(s: MachineView, i: Instr, key: Option<u8>) -> (MachineView, Seq<u8>, Status) {
    let pc = s.pc;
    match i {
        Instr::Br { mask, offset } => {
            let t = if mask & s.cc != 0 { s.with_pc(pc.wrapping_add(offset)) } else { s };
            (t, seq![], Status::Running)
        },
        Instr::Add { dr, sr1, src } => (
            s.with_result(dr, s.r(sr1).wrapping_add(operand_value(s, src))),
            seq![],
            Status::Running,
        ),
        Instr::And { dr, sr1, src } => (
            s.with_result(dr, s.r(sr1) & operand_value(s, src)),
            seq![],
            Status::Running,
        ),
        Instr::Not { dr, sr } => (s.with_result(dr, !s.r(sr)), seq![], Status::Running),
        Instr::Ld { dr, offset } => {
            let a = pc.wrapping_add(offset);
            let t = s.polled(a, key);
            (t.with_result(dr, t.word(a)), seq![], Status::Running)
        },
        Instr::Ldr { dr, base, offset } => {
            let a = s.r(base).wrapping_add(offset);
            let t = s.polled(a, key);
            (t.with_result(dr, t.word(a)), seq![], Status::Running)
        },
        Instr::Ldi { dr, offset } => {
            let a = pc.wrapping_add(offset);
            let t = s.polled(a, key);
            let p = t.word(a);
            let u = t.polled(p, key);
            (u.with_result(dr, u.word(p)), seq![], Status::Running)
        },
        Instr::Lea { dr, offset } => (
            s.with_result(dr, pc.wrapping_add(offset)),
            seq![],
            Status::Running,
        ),
        Instr::St { sr, offset } => (
            s.with_mem(pc.wrapping_add(offset), s.r(sr)),
            seq![],
            Status::Running,
        ),
        Instr::Str { sr, base, offset } => (
            s.with_mem(s.r(base).wrapping_add(offset), s.r(sr)),
            seq![],
            Status::Running,
        ),
        Instr::Sti { sr, offset } => {
            let a = pc.wrapping_add(offset);
            let t = s.polled(a, key);
            (t.with_mem(t.word(a), s.r(sr)), seq![], Status::Running)
        },
        Instr::Jsr { offset } => (
            s.with_reg(7, pc).with_pc(pc.wrapping_add(offset)),
            seq![],
            Status::Running,
        ),
        Instr::Jsrr { base } => {
            let t = s.with_reg(7, pc);
            (t.with_pc(t.r(base)), seq![], Status::Running)
        },
        Instr::Jmp { base } => (s.with_pc(s.r(base)), seq![], Status::Running),
        Instr::Trap { vector } => trapped(s, vector, key),
        Instr::Reserved => (s, seq![], Status::IllegalOpcode),
    }
}

/// The word that the next cycle fetches.
pub open spec fn fetched(s: MachineView, key: Option<u8>) -> u16 {
    s.read_value(s.pc, key)
}

/// One cycle: fetch the word at the program counter, advance the program
/// counter by one, then execute what the word encodes. `key` is the
/// console's answer to the one request of `input_need`, if any.
pub open spec fn next(s: MachineView, key: Option<u8>) -> (MachineView, Seq<u8>, Status) {
    let t = s.polled(s.pc, key);
    let w = t.word(s.pc);
    executed(t.with_pc(s.pc.wrapping_add(1)), decoded(w), key)
}

/// What the next cycle of `s` asks of the console.
pub open spec fn input_need(s: MachineView) -> InputNeed {
    if s.pc == KBSR {
        InputNeed::Poll
    } else {
        let pc = s.pc.wrapping_add(1);
        match decoded(s.word(s.pc)) {
            Instr::Ld { offset, .. } | Instr::Sti { offset, .. } => {
                if pc.wrapping_add(offset) == KBSR { InputNeed::Poll } else { InputNeed::Nothing }
            },
            Instr::Ldr { base, offset, .. } => {
                if s.r(base).wrapping_add(offset) == KBSR { InputNeed::Poll } else { InputNeed::Nothing }
            },
            Instr::Ldi { offset, .. } => {
                let a = pc.wrapping_add(offset);
                if a == KBSR || s.word(a) == KBSR { InputNeed::Poll } else { InputNeed::Nothing }
            },
            Instr::Trap { vector } => {
                if vector == TRAP_GETC {
                    InputNeed::Char
                } else if vector == TRAP_IN {
                    InputNeed::EchoedChar
                } else {
                    InputNeed::Nothing
                }
            },
            _ => InputNeed::Nothing,
        }
    }
}

impl Machine {
    /// Writes `v` into register `dr` and sets the condition code from it.
    fn set_result(&mut self, dr: u16, v: u16)
        requires
            old(self).wf(),
            dr < 8,
        ensures
            final(self)@ == old(self)@.with_result(dr, v),
            final(self).wf(),
    {
        self.reg.set(dr as usize, v);
        self.setcc(dr);
        proof {
            assert(self@ =~= old(self)@.with_result(dr, v));
        }
    }

    /// Appends the string at `start` (trap `0x22`) to `out`.
    fn put_string(&self, start: u16, out: &mut Vec<u8>)
        requires
            self.wf(),
        ensures
            final(out)@ == old(out)@ + string_from(self@.mem, start as int),
    {
        let ghost out0 = out@;
        let mut a: usize = start as usize;
        proof {
            if a < MEMORY_WORDS {
                lemma_byte_zero(self@.mem[a as int]);
            }
        }
        while a < MEMORY_WORDS && (self.mem[a] & 0xFF) != 0
            invariant
                self.wf(),
                start <= a <= MEMORY_WORDS,
                out@ + string_from(self@.mem, a as int) == out0 + string_from(self@.mem, start as int),
            decreases MEMORY_WORDS - a,
        {
            proof {
                lemma_byte_zero(self@.mem[a as int]);
            }
            let c = (self.mem[a] & 0xFF) as u8;
            out.push(c);
            proof {
                assert(out@ + string_from(self@.mem, a + 1) =~= (out@.drop_last() + string_from(self@.mem, a as int)));
            }
            a = a + 1;
        }
    }

    /// Appends the packed string at `start` (trap `0x24`) to `out`.
    fn put_packed_string(&self, start: u16, out: &mut Vec<u8>)
        requires
            self.wf(),
        ensures
            final(out)@ == old(out)@ + packed_from(self@.mem, start as int),
    {
        let ghost out0 = out@;
        let mut a: usize = start as usize;
        proof {
            if a < MEMORY_WORDS {
                lemma_byte_zero(self@.mem[a as int]);
            }
        }
        while a < MEMORY_WORDS && (self.mem[a] >> 8) != 0
            invariant
                self.wf(),
                start <= a <= MEMORY_WORDS,
                out@ + packed_from(self@.mem, a as int) == out0 + packed_from(self@.mem, start as int),
                out0 == old(out)@,
            decreases MEMORY_WORDS - a,
        {
            let w = self.mem[a];
            proof {
                lemma_byte_zero(w);
            }
            let hi = (w >> 8) as u8;
            let lo = (w & 0xFF) as u8;
            let ghost before = out@;
            out.push(hi);
            if lo == 0 {
                proof {
                    assert(out@ =~= before + packed_from(self@.mem, a as int));
                }
                return;
            }
            out.push(lo);
            proof {
                assert(out@ + packed_from(self@.mem, a + 1) =~= before + packed_from(self@.mem, a as int));
            }
            a = a + 1;
        }
    }
}


impl Machine {
    /// Carries out the console service `vector` (trap `0x20` to `0x25`;
    /// any other vector does nothing).
    fn trap(&mut self, vector: u16, key: Option<u8>, out: &mut Vec<u8>) -> (st: Status)
        requires
            old(self).wf(),
        ensures
            final(self).wf(),
            (final(self)@, final(out)@, st) == ({
                let (t, o, st) = trapped(old(self)@, vector, key);
                (t, old(out)@ + o, st)
            }),
    {
        if vector == TRAP_GETC || vector == TRAP_IN {
            match key {
                Some(c) => {
                    self.reg.set(0, c as u16);
                    if vector == TRAP_IN {
                        out.push(c);
                    }
                    proof {
                        assert(self@ =~= old(self)@.with_reg(0, c as u16));
                        assert(out@ =~= old(out)@ + trapped(old(self)@, vector, key).1);
                    }
                    Status::Running
                },
                None => {
                    assert(out@ =~= old(out)@ + seq![]);
                    Status::InputClosed
                },
            }
        } else if vector == TRAP_OUT {
            out.push((self.reg[0] & 0xFF) as u8);
            assert(out@ =~= old(out)@ + seq![low_byte(self@.r(0))]);
            Status::Running
        } else if vector == TRAP_PUTS {
            self.put_string(self.reg[0], out);
            Status::Running
        } else if vector == TRAP_PUTSP {
            self.put_packed_string(self.reg[0], out);
            Status::Running
        } else if vector == TRAP_HALT {
            assert(out@ =~= old(out)@ + seq![]);
            Status::Halted
        } else {
            assert(out@ =~= old(out)@ + seq![]);
            Status::Running
        }
    }

    /// Executes `i` on a machine whose program counter already addresses
    /// the following word.
    pub fn execute(&mut self, i: Instr, key: Option<u8>, out: &mut Vec<u8>) -> (st: Status)
        requires
            old(self).wf(),
            registers_in_range(i),
        ensures
            final(self).wf(),
            (final(self)@, final(out)@, st) == ({
                let (t, o, st) = executed(old(self)@, i, key);
                (t, old(out)@ + o, st)
            }),
    {
        let pc = self.pc;
        match i {
            Instr::Br { mask, offset } => {
                if mask & self.cc != 0 {
                    self.pc = pc.wrapping_add(offset);
                }
            },
            Instr::Add { dr, sr1, src } => {
                let v = match src {
                    Operand::Reg(r) => self.reg[r as usize],
                    Operand::Imm(v) => v,
                };
                let sum = self.reg[sr1 as usize].wrapping_add(v);
                self.set_result(dr, sum);
            },
            Instr::And { dr, sr1, src } => {
                let v = match src {
                    Operand::Reg(r) => self.reg[r as usize],
                    Operand::Imm(v) => v,
                };
                let conj = self.reg[sr1 as usize] & v;
                self.set_result(dr, conj);
            },
            Instr::Not { dr, sr } => {
                let v = !self.reg[sr as usize];
                self.set_result(dr, v);
            },
            Instr::Ld { dr, offset } => {
                let v = self.mread(pc.wrapping_add(offset), key);
                self.set_result(dr, v);
            },
            Instr::Ldr { dr, base, offset } => {
                let a = self.reg[base as usize].wrapping_add(offset);
                let v = self.mread(a, key);
                self.set_result(dr, v);
            },
            Instr::Ldi { dr, offset } => {
                let p = self.mread(pc.wrapping_add(offset), key);
                let v = self.mread(p, key);
                self.set_result(dr, v);
            },
            Instr::Lea { dr, offset } => {
                self.set_result(dr, pc.wrapping_add(offset));
            },
            Instr::St { sr, offset } => {
                let v = self.reg[sr as usize];
                self.mwrite(pc.wrapping_add(offset), v);
            },
            Instr::Str { sr, base, offset } => {
                let a = self.reg[base as usize].wrapping_add(offset);
                let v = self.reg[sr as usize];
                self.mwrite(a, v);
            },
            Instr::Sti { sr, offset } => {
                let v = self.reg[sr as usize];
                let p = self.mread(pc.wrapping_add(offset), key);
                self.mwrite(p, v);
            },
            Instr::Jsr { offset } => {
                self.reg.set(7, pc);
                self.pc = pc.wrapping_add(offset);
            },
            Instr::Jsrr { base } => {
                self.reg.set(7, pc);
                self.pc = self.reg[base as usize];
            },
            Instr::Jmp { base } => {
                self.pc = self.reg[base as usize];
            },
            Instr::Trap { vector } => {
                return self.trap(vector, key, out);
            },
            Instr::Reserved => {
                assert(out@ =~= old(out)@ + seq![]);
                return Status::IllegalOpcode;
            },
        }
        proof {
            assert(self@ =~= executed(old(self)@, i, key).0);
            assert(out@ =~= old(out)@ + seq![]);
        }
        Status::Running
    }

    /// Runs one cycle: fetches the word at the program counter, advances the
    /// program counter, decodes the word and executes it, appending what the
    /// cycle writes to the console to `out`. `key` answers the console
    /// request that `input_need` announces; it is not looked at otherwise.
    pub fn step(&mut self, key: Option<u8>, out: &mut Vec<u8>) -> (st: Status)
        requires
            old(self).wf(),
        ensures
            final(self).wf(),
            (final(self)@, final(out)@, st) == ({
                let (t, o, st) = next(old(self)@, key);
                (t, old(out)@ + o, st)
            }),
    {
        let pc = self.pc;
        let w = self.mread(pc, key);
        self.pc = pc.wrapping_add(1);
        let i = decode(w);
        self.execute(i, key, out)
    }
}

/// Prompt shown before the echoed read of trap `0x23`.
pub fn input_prompt() -> (r: &'static str)
    ensures
        r@ == "Enter a character: "@,
{
    "Enter a character: "
}

/// A cycle that asks nothing of the console does not depend on the answer
/// handed to it.
pub proof fn lemma_no_need_no_effect(s: MachineView, k1: Option<u8>, k2: Option<u8>)
    requires
        s.wf(),
        input_need(s) == InputNeed::Nothing,
    ensures
        next(s, k1) == next(s, k2),
{
}

impl Machine {
    /// What the next cycle asks of the console.
    pub fn input_need(&self) -> (r: InputNeed)
        requires
            self.wf(),
        ensures
            r == input_need(self@),
    {
        if self.pc == KBSR {
            return InputNeed::Poll;
        }
        let pc = self.pc.wrapping_add(1);
        match decode(self.mem[self.pc as usize]) {
            Instr::Ld { offset, .. } | Instr::Sti { offset, .. } => {
                if pc.wrapping_add(offset) == KBSR { InputNeed::Poll } else { InputNeed::Nothing }
            },
            Instr::Ldr { base, offset, .. } => {
                if self.reg[base as usize].wrapping_add(offset) == KBSR {
                    InputNeed::Poll
                } else {
                    InputNeed::Nothing
                }
            },
            Instr::Ldi { offset, .. } => {
                let a = pc.wrapping_add(offset);
                if a == KBSR || self.mem[a as usize] == KBSR {
                    InputNeed::Poll
                } else {
                    InputNeed::Nothing
                }
            },
            Instr::Trap { vector } => {
                if vector == TRAP_GETC {
                    InputNeed::Char
                } else if vector == TRAP_IN {
                    InputNeed::EchoedChar
                } else {
                    InputNeed::Nothing
                }
            },
            _ => InputNeed::Nothing,
        }
    }
}

/// The console's answer to the next cycle of `s` when its input is the
/// scripted byte sequence `input`: the first byte if the cycle asks for one
/// and there is one, else `None` (no pending byte, or closed input).
pub open spec fn answer(s: MachineView, input: Seq<u8>) -> Option<u8> {
    if input_need(s) != InputNeed::Nothing && input.len() > 0 {
        Some(input[0])
    } else {
        None
    }
}

/// At most `n` cycles from `s` on the scripted input `input`, stopping at the
/// first cycle whose status is not `Running`: final state, output, status of
/// the last cycle (`Running` if all `n` ran), and input bytes consumed.
pub open spec fn ran(s: MachineView, input: Seq<u8>, n: nat) -> (MachineView, Seq<u8>, Status, nat)
    decreases n,
{
    if n == 0 {
        (s, seq![], Status::Running, 0)
    } else {
        let key = answer(s, input);
        let used: nat = if key is Some { 1 } else { 0 };
        let (t, o, st) = next(s, key);
        if st != Status::Running {
            (t, o, st, used)
        } else {
            let (u, o2, st2, used2) = ran(t, input.skip(used as int), (n - 1) as nat);
            (u, o + o2, st2, used + used2)
        }
    }
}

impl Machine {
    /// Runs at most `max_steps` cycles on the scripted console input
    /// `input`, appending the console output to `out`. Returns the status of
    /// the last cycle (`Running` when the budget ran out first) and the
    /// number of input bytes consumed.
    pub fn run(&mut self, input: &Vec<u8>, max_steps: usize, out: &mut Vec<u8>) -> (r: (Status, usize))
        requires
            old(self).wf(),
        ensures
            final(self).wf(),
            ({
                let (t, o, st, used) = ran(old(self)@, input@, max_steps as nat);
                final(self)@ == t && final(out)@ == old(out)@ + o && r.0 == st && r.1 == used
            }),
    {
        let ghost s0 = self@;
        let ghost emitted: Seq<u8> = seq![];
        let mut used: usize = 0;
        let mut k: usize = 0;
        assert(input@.skip(0) =~= input@);
        while k < max_steps
            invariant
                self.wf(),
                s0 == old(self)@,
                used <= input@.len(),
                k <= max_steps,
                out@ == old(out)@ + emitted,
                ({
                    let (t, o, st, u) = ran(self@, input@.skip(used as int), (max_steps - k) as nat);
                    ran(s0, input@, max_steps as nat) == (t, emitted + o, st, (used + u) as nat)
                }),
            decreases max_steps - k,
        {
            let ghost before = self@;
            let ghost rest = input@.skip(used as int);
            let ghost out_before = out@;
            let need = self.input_need();
            let key = if need != InputNeed::Nothing && used < input.len() {
                Some(input[used])
            } else {
                None
            };
            assert(key == answer(before, rest));
            let st = self.step(key, out);
            let ghost o = out@.skip(out_before.len() as int);
            assert(out@ =~= out_before + o);
            assert(o == next(before, key).1);
            if key.is_some() {
                used = used + 1;
            }
            proof {
                assert(input@.skip(used as int) =~= rest.skip(if key is Some { 1int } else { 0int }));
            }
            k = k + 1;
            if st != Status::Running {
                proof {
                    assert(old(out)@ + (emitted + o) =~= (old(out)@ + emitted) + o);
                    emitted = emitted + o;
                }
                return (st, used);
            }
            proof {
                let (u, o2, st2, u2) = ran(self@, input@.skip(used as int), (max_steps - k) as nat);
                assert(emitted + (o + o2) =~= (emitted + o) + o2);
                assert(old(out)@ + (emitted + o) =~= (old(out)@ + emitted) + o);
                emitted = emitted + o;
            }
        }
        (Status::Running, used)
    }
}
} // verus!
