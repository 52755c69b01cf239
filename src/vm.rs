use vstd::prelude::*;

use crate::instruction::{
    branch_taken, dr_of, exec_spec, execute, flag_of, lemma_flag_exactly_one, offset9_of, op_of,
    wadd, Op, FL_NEG, FL_POS, FL_ZERO,
};
use crate::register::{Register, COND_SLOT, PC_SLOT, REG_COUNT};
use crate::trap::{outcome_view, Action, Effect};

verus! {

/// Number of words of memory.
pub const MEM_SIZE: usize = 65536;

/// Address at which execution starts.
pub const PC_START: u16 = 0x3000;

/// Keyboard status register.
pub const KBSR: u16 = 0xFE00;

/// Keyboard data register.
pub const KBDR: u16 = 0xFE02;

/// Display status register; plain storage in this core.
pub const DPSR: u16 = 0xFE04;

/// Display data register; plain storage in this core.
pub const DPDR: u16 = 0xFE06;

/// Machine control register; plain storage in this core.
pub const MCCR: u16 = 0xFFFE;

/// Value of the keyboard status register when a key is waiting.
pub const KEY_READY: u16 = 0x8000;

/// A fatal condition that stops the machine.
#[derive(Clone, Copy, Debug, PartialEq, Eq, Structural)]
pub enum VmError {
    /// One of the two reserved opcodes; carries the opcode.
    BadOpcode(u16),
    /// A trap vector that names no routine; carries the vector.
    BadTrap(u16),
}

/// The abstract state of a machine.
pub ghost struct Machine {
    pub reg: Seq<u16>,
    pub mem: Seq<u16>,
    /// A key that the console has delivered and no read has consumed yet.
    pub key: Option<u8>,
    pub halted: bool,
}

/// A machine: its memory, its register file, the keyboard latch that the
/// console fills, and whether it has halted.
pub struct VM {
    pub mem: Vec<u16>,
    pub reg: Vec<u16>,
    pub key: Option<u8>,
    pub halted: bool,
}

impl View for VM {
    type V = Machine;

    open spec fn view(&self) -> Machine {
        Machine { reg: self.reg@, mem: self.mem@, key: self.key, halted: self.halted }
    }
}

impl Machine {
    pub open spec fn wf(self) -> bool {
        self.reg.len() == REG_COUNT && self.mem.len() == MEM_SIZE
    }

    pub open spec fn pc(self) -> u16 {
        self.reg[PC_SLOT as int]
    }
}

/// A read of memory at `addr`: reading the keyboard status register first
/// refreshes it from the keyboard latch (ready and the key moved to the data
/// register, or cleared); every other address is plain storage.
pub open spec fn read_spec(m: Machine, addr: u16) -> (Machine, u16) {
    if addr == KBSR {
        let m1 = match m.key {
            Some(c) => Machine {
                mem: m.mem.update(KBSR as int, KEY_READY).update(KBDR as int, c as u16),
                key: None,
                ..m
            },
            None => Machine { mem: m.mem.update(KBSR as int, 0), ..m },
        };
        (m1, m1.mem[addr as int])
    } else {
        (m, m.mem[addr as int])
    }
}

/// Memory after copying `words` to consecutive addresses from `origin`, stopping
/// at the end of memory.
pub open spec fn load_spec(mem: Seq<u16>, origin: u16, words: Seq<u16>) -> Seq<u16> {
    Seq::new(
        mem.len(),
        |a: int|
            if origin <= a < origin + words.len() {
                words[a - origin]
            } else {
                mem[a]
            },
    )
}

/// Loading an image into zeroed memory and reading back gives the image's
/// words at `origin + i`, and zero before `origin` and past the loaded range
/// (the keyboard status register aside, whose reads are synthesized).
pub proof fn lemma_load_round_trip(m: Machine, origin: u16, words: Seq<u16>)
    requires
        m.wf(),
        forall|a: int| 0 <= a < MEM_SIZE ==> m.mem[a] == 0,
    ensures
        ({
            let loaded = Machine { mem: load_spec(m.mem, origin, words), ..m };
            &&& forall|i: int|
                0 <= i < words.len() && origin + i < MEM_SIZE && origin + i != KBSR
                    ==> #[trigger] read_spec(loaded, (origin + i) as u16).1 == words[i]
            &&& forall|a: u16|
                (a < origin || a >= origin + words.len()) && a != KBSR ==> #[trigger] read_spec(
                    loaded,
                    a,
                ).1 == 0
        }),
{
}

/// The machine after fetching the instruction at the program counter: the
/// fetch is a memory read, and the program counter moves past it.
pub open spec fn fetch_spec(m: Machine) -> (Machine, u16) {
    let (m1, instr) = read_spec(m, m.pc());
    (Machine { reg: m1.reg.update(PC_SLOT as int, wadd(m.pc(), 1)), ..m1 }, instr)
}

/// One step of a machine: a halted machine stays as it is; a running one
/// fetches and executes one instruction.
pub open spec fn step_spec(m: Machine) -> (Machine, Result<Effect, VmError>) {
    if m.halted {
        (m, Ok(Effect::Halt))
    } else {
        let (m1, instr) = fetch_spec(m);
        exec_spec(m1, instr)
    }
}

/// Reading the keyboard status register with no key latched gives 0; with a
/// key latched it gives the ready value and puts the key in the data register.
pub proof fn lemma_keyboard_status_read(m: Machine)
    requires
        m.wf(),
    ensures
        m.key.is_none() ==> read_spec(m, KBSR).1 == 0,
        m.key matches Some(c) ==> read_spec(m, KBSR).1 == KEY_READY && read_spec(
            m,
            KBSR,
        ).0.mem[KBDR as int] == c as u16,
{
}

/// A BR instruction is taken exactly when its condition mask meets the active
/// flag; the program counter then moves by the sign-extended 9-bit offset past
/// the fetched word, and otherwise only past the fetched word.
pub proof fn lemma_branch_step(m: Machine)
    requires
        m.wf(),
        !m.halted,
        m.pc() != KBSR,
        op_of(m.mem[m.pc() as int]) == Op::Br,
    ensures
        ({
            let instr = m.mem[m.pc() as int];
            let (m2, r) = step_spec(m);
            &&& r == Ok::<Effect, VmError>(Effect::Proceed)
            &&& branch_taken(m.reg, instr) <==> (instr >> 9u16) & 7 & m.reg[COND_SLOT as int] != 0
            &&& m2.pc() == if branch_taken(m.reg, instr) {
                wadd(wadd(m.pc(), 1), offset9_of(instr))
            } else {
                wadd(m.pc(), 1)
            }
            &&& m2.mem == m.mem
        }),
{
}

/// A halted machine stays halted and runs nothing.
pub proof fn lemma_halted_is_final(m: Machine)
    requires
        m.halted,
    ensures
        step_spec(m) == (m, Ok::<Effect, VmError>(Effect::Halt)),
{
}

/// Fetching a reserved opcode is a fatal error that halts the machine, after
/// which no further instruction runs.
pub proof fn lemma_reserved_opcode_halts(m: Machine)
    requires
        m.wf(),
        !m.halted,
        m.pc() != KBSR,
        op_of(m.mem[m.pc() as int]) == Op::Rti || op_of(m.mem[m.pc() as int]) == Op::Res,
    ensures
        ({
            let instr = m.mem[m.pc() as int];
            let (m2, r) = step_spec(m);
            &&& r == Err::<Effect, VmError>(VmError::BadOpcode(instr >> 12u16))
            &&& m2.halted
            &&& m2.mem == m.mem
            &&& step_spec(m2) == (m2, Ok::<Effect, VmError>(Effect::Halt))
        }),
{
}

/// After an instruction that sets the flags, exactly one flag is active, and
/// it is the one that the signed reading of the destination's new value selects.
pub proof fn lemma_flags_after_update(m: Machine, instr: u16)
    requires
        m.wf(),
        op_of(instr) == Op::Add || op_of(instr) == Op::And || op_of(instr) == Op::Not || op_of(
            instr,
        ) == Op::Lea || op_of(instr) == Op::Ld || op_of(instr) == Op::Ldi || op_of(instr)
            == Op::Ldr,
    ensures
        ({
            let m2 = exec_spec(m, instr).0;
            let v = m2.reg[dr_of(instr)];
            let f = m2.reg[COND_SLOT as int];
            &&& f == flag_of(v)
            &&& f == FL_POS || f == FL_ZERO || f == FL_NEG
            &&& (f == FL_ZERO <==> v == 0)
            &&& (f == FL_NEG <==> v as int >= 0x8000)
            &&& (f == FL_POS <==> 0 < v && (v as int) < 0x8000)
        }),
{
    assert((instr >> 9u16) & 7 < 8) by (bit_vector);
    let v = exec_spec(m, instr).0.reg[dr_of(instr)];
    lemma_flag_exactly_one(v);
    assert(v >> 15u16 != 0 <==> v >= 0x8000) by (bit_vector);
}

impl VM {
    pub open spec fn wf(&self) -> bool {
        self@.wf()
    }

    /// A machine with zeroed memory and registers, an empty keyboard latch,
    /// not halted.
    pub fn new() -> (vm: VM)
        ensures
            vm.wf(),
            forall|a: int| 0 <= a < MEM_SIZE ==> vm.mem@[a] == 0,
            forall|r: int| 0 <= r < REG_COUNT ==> vm.reg@[r] == 0,
            vm.key.is_none(),
            !vm.halted,
    {
        let mut mem: Vec<u16> = Vec::new();
        while mem.len() < MEM_SIZE
            invariant
                mem.len() <= MEM_SIZE,
                forall|a: int| 0 <= a < mem.len() ==> mem@[a] == 0,
            decreases MEM_SIZE - mem.len(),
        {
            mem.push(0);
        }
        let mut reg: Vec<u16> = Vec::new();
        while reg.len() < REG_COUNT
            invariant
                reg.len() <= REG_COUNT,
                forall|r: int| 0 <= r < reg.len() ==> reg@[r] == 0,
            decreases REG_COUNT - reg.len(),
        {
            reg.push(0);
        }
        VM { mem, reg, key: None, halted: false }
    }

    /// Puts the machine in its running state at the start address; the caller
    /// then drives it one instruction at a time.
    pub fn start(&mut self)
        requires
            old(self).wf(),
        ensures
            final(self)@ == (Machine {
                reg: old(self)@.reg.update(PC_SLOT as int, PC_START),
                halted: false,
                ..old(self)@
            }),
    {
        self.reg.set(PC_SLOT, PC_START);
        self.halted = false;
    }

    /// Reads the word at `addr`. A read of the keyboard status register
    /// consumes the latched key, if any: the status becomes ready and the key
    /// goes to the data register; with no key the status is cleared.
    pub fn mem_read(&mut self, addr: u16) -> (r: u16)
        requires
            old(self).wf(),
        ensures
            (final(self)@, r) == read_spec(old(self)@, addr),
            final(self).wf(),
    {
        if addr == KBSR {
            match self.key {
                Some(c) => {
                    self.mem.set(KBSR as usize, KEY_READY);
                    self.mem.set(KBDR as usize, c as u16);
                    self.key = None;
                },
                None => {
                    self.mem.set(KBSR as usize, 0);
                },
            }
        }
        self.mem[addr as usize]
    }

    /// Stores `val` at `addr`; device addresses are plain storage for writes.
    pub fn mem_write(&mut self, addr: u16, val: u16)
        requires
            old(self).wf(),
        ensures
            final(self)@ == (Machine { mem: old(self)@.mem.update(addr as int, val), ..old(self)@ }),
    {
        self.mem.set(addr as usize, val);
    }

    /// The value of the named register.
    pub fn read(&self, r: Register) -> (v: u16)
        requires
            self.wf(),
        ensures
            v == self.reg@[r.slot()],
    {
        self.reg[r.index()]
    }

    /// Stores `val` in the named register.
    pub fn rwrite(&mut self, r: Register, val: u16)
        requires
            old(self).wf(),
        ensures
            final(self)@ == (Machine { reg: old(self)@.reg.update(r.slot(), val), ..old(self)@ }),
    {
        let i = r.index();
        self.reg.set(i, val);
    }

    /// Hands a key from the console to the keyboard latch.
    pub fn press_key(&mut self, c: u8)
        ensures
            final(self)@ == (Machine { key: Some(c), ..old(self)@ }),
    {
        self.key = Some(c);
    }

    /// Hands the character that the console read for GETC or IN to R0.
    pub fn receive_char(&mut self, c: u8)
        requires
            old(self).wf(),
        ensures
            final(self)@ == (Machine { reg: old(self)@.reg.update(0, c as u16), ..old(self)@ }),
    {
        self.reg.set(0, c as u16);
    }

    /// Runs one fetch-decode-execute cycle, or reports `Halt` once halted.
    pub fn step(&mut self) -> (r: Result<Action, VmError>)
        requires
            old(self).wf(),
        ensures
            final(self).wf(),
            (final(self)@, outcome_view(r)) == step_spec(old(self)@),
    {
        if self.halted {
            return Ok(Action::Halt);
        }
        let pc = self.reg[PC_SLOT];
        let instr = self.mem_read(pc);
        self.reg.set(PC_SLOT, pc.wrapping_add(1));
        execute(self, instr)
    }

    /// Copies `words` into memory from `origin` on, one word per address,
    /// stopping when the words or the address space run out.
    pub fn load_image(&mut self, origin: u16, words: &Vec<u16>)
        requires
            old(self).wf(),
        ensures
            final(self)@ == (Machine {
                mem: load_spec(old(self)@.mem, origin, words@),
                ..old(self)@
            }),
    {
        let ghost mem0 = self.mem@;
        let mut i: usize = 0;
        let mut addr: usize = origin as usize;
        while i < words.len() && addr < MEM_SIZE
            invariant
                self.reg@ == old(self)@.reg,
                self.key == old(self).key,
                self.halted == old(self).halted,
                mem0 == old(self)@.mem,
                self.mem.len() == MEM_SIZE,
                i <= words.len(),
                addr == origin + i,
                addr <= MEM_SIZE,
                forall|a: int|
                    0 <= a < MEM_SIZE ==> #[trigger] self.mem@[a] == if origin <= a < addr {
                        words@[a - origin]
                    } else {
                        mem0[a]
                    },
            decreases words.len() - i,
        {
            self.mem.set(addr, words[i]);
            i = i + 1;
            addr = addr + 1;
        }
        assert(self.mem@ =~= load_spec(mem0, origin, words@));
    }
}

} // verus!
