//! Machine state: the register file and the word-addressed memory, with the
//! memory-mapped keyboard registers.
use vstd::prelude::*;

verus! {

/// Number of words of memory: every 16-bit address names one.
pub const MEMORY_WORDS: usize = 0x10000;

/// Number of general-purpose registers.
pub const REGISTERS: usize = 8;

/// Keyboard status register: reading it polls the console.
pub const KBSR: u16 = 0xFE00;

/// Keyboard data register: the last byte that a poll found.
pub const KBDR: u16 = 0xFE02;

/// Start address used when an image gives none.
pub const PC_START: u16 = 0x3000;

/// Condition code: the last value written was negative.
pub const FLAG_N: u16 = 4;

/// Condition code: the last value written was zero.
pub const FLAG_Z: u16 = 2;

/// Condition code: the last value written was positive.
pub const FLAG_P: u16 = 1;

/// The condition code that describes `v` read as a signed word.
pub open spec fn flag_of(v: u16) -> u16 {
    if v >= 0x8000 {
        FLAG_N
    } else if v == 0 {
        FLAG_Z
    } else {
        FLAG_P
    }
}

/// Mathematical model of the machine.
pub struct MachineView {
    pub mem: Seq<u16>,
    pub reg: Seq<u16>,
    pub pc: u16,
    pub cc: u16,
}

impl MachineView {
    pub open spec fn wf(self) -> bool {
        self.mem.len() == MEMORY_WORDS && self.reg.len() == REGISTERS
    }

    pub open spec fn word(self, addr: u16) -> u16 {
        self.mem[addr as int]
    }

    pub open spec fn r(self, i: u16) -> u16 {
        self.reg[i as int]
    }

    pub open spec fn with_mem(self, addr: u16, v: u16) -> MachineView {
        MachineView { mem: self.mem.update(addr as int, v), ..self }
    }

    pub open spec fn with_reg(self, i: u16, v: u16) -> MachineView {
        MachineView { reg: self.reg.update(i as int, v), ..self }
    }

    pub open spec fn with_pc(self, pc: u16) -> MachineView {
        MachineView { pc, ..self }
    }

    /// Writes `v` into register `i` and sets the condition code from it.
    pub open spec fn with_result(self, i: u16, v: u16) -> MachineView {
        MachineView { reg: self.reg.update(i as int, v), cc: flag_of(v), ..self }
    }

    /// The state after reading `addr` when the console answers a poll with
    /// `key` (`None`: no byte is pending).
    pub open spec fn polled(self, addr: u16, key: Option<u8>) -> MachineView {
        if addr == KBSR {
            match key {
                Some(c) => self.with_mem(KBSR, 0x8000).with_mem(KBDR, c as u16),
                None => self.with_mem(KBSR, 0),
            }
        } else {
            self
        }
    }

    /// The word that a read of `addr` returns.
    pub open spec fn read_value(self, addr: u16, key: Option<u8>) -> u16 {
        self.polled(addr, key).word(addr)
    }
}

/// The register file and memory of the machine.
pub struct Machine {
    /// 65536 words, one for each address.
    pub mem: Vec<u16>,
    /// The general-purpose registers R0 to R7.
    pub reg: Vec<u16>,
    /// Address of the next instruction.
    pub pc: u16,
    /// Condition code: zero at start, then one of `FLAG_N`, `FLAG_Z`, `FLAG_P`.
    pub cc: u16,
}

impl View for Machine {
    type V = MachineView;

    open spec fn view(&self) -> MachineView {
        MachineView { mem: self.mem@, reg: self.reg@, pc: self.pc, cc: self.cc }
    }
}

impl Machine {
    pub open spec fn wf(&self) -> bool {
        self@.wf()
    }

    /// A machine with zeroed memory and registers, about to run at `PC_START`.
    pub fn new() -> (m: Machine)
        ensures
            m.wf(),
            m@.mem == Seq::new(MEMORY_WORDS as nat, |i: int| 0u16),
            m@.reg == Seq::new(REGISTERS as nat, |i: int| 0u16),
            m@.pc == PC_START,
            m@.cc == 0,
    {
        let mem: Vec<u16> = vec![0u16; MEMORY_WORDS];
        let reg: Vec<u16> = vec![0u16; REGISTERS];
        assert(mem@ =~= Seq::new(MEMORY_WORDS as nat, |i: int| 0u16));
        assert(reg@ =~= Seq::new(REGISTERS as nat, |i: int| 0u16));
        Machine { mem, reg, pc: PC_START, cc: 0 }
    }

    /// Reads the word at `addr`. A read of `KBSR` first polls the console,
    /// whose answer is `key`: with a byte, the status word becomes `0x8000`
    /// and the data register holds the byte; without one, the status word
    /// becomes zero.
    pub fn mread(&mut self, addr: u16, key: Option<u8>) -> (r: u16)
        requires
            old(self).wf(),
        ensures
            final(self)@ == old(self)@.polled(addr, key),
            r == old(self)@.read_value(addr, key),
            final(self).wf(),
    {
        if addr == KBSR {
            match key {
                Some(c) => {
                    self.mem.set(KBSR as usize, 0x8000);
                    self.mem.set(KBDR as usize, c as u16);
                },
                None => {
                    self.mem.set(KBSR as usize, 0);
                },
            }
        }
        proof {
            assert(self@ =~= old(self)@.polled(addr, key));
        }
        self.mem[addr as usize]
    }

    /// Stores `v` at `addr`; the mapped registers are plain storage here.
    pub fn mwrite(&mut self, addr: u16, v: u16)
        requires
            old(self).wf(),
        ensures
            final(self)@ == old(self)@.with_mem(addr, v),
            final(self).wf(),
    {
        self.mem.set(addr as usize, v);
        proof {
            assert(self@ =~= old(self)@.with_mem(addr, v));
        }
    }

    /// Sets the condition code from the value of register `r`.
    pub fn setcc(&mut self, r: u16)
        requires
            old(self).wf(),
            r < 8,
        ensures
            final(self)@ == (MachineView { cc: flag_of(old(self)@.r(r)), ..old(self)@ }),
            final(self).wf(),
    {
        let v = self.reg[r as usize];
        self.cc = if v >= 0x8000 {
            FLAG_N
        } else if v == 0 {
            FLAG_Z
        } else {
            FLAG_P
        };
    }
}

} // verus!
