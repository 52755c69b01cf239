use vstd::prelude::*;

use crate::vm::{Machine, VmError, MEM_SIZE, VM};

verus! {

/// The six trap routines, selected by the low byte of a TRAP instruction.
#[derive(Clone, Copy, Debug, PartialEq, Eq, Structural)]
pub enum TrapInstr {
    GetC,
    Out,
    Puts,
    In,
    PutsP,
    Halt,
}

pub const TRAP_GETC: u16 = 0x20;

pub const TRAP_OUT: u16 = 0x21;

pub const TRAP_PUTS: u16 = 0x22;

pub const TRAP_IN: u16 = 0x23;

pub const TRAP_PUTSP: u16 = 0x24;

pub const TRAP_HALT: u16 = 0x25;

/// Character printed before IN reads a key.
pub const PROMPT: u8 = 0x5F;

/// The trap routine that `vector` selects, if any.
pub open spec fn trap_of(vector: u16) -> Option<TrapInstr> {
    if vector == TRAP_GETC {
        Some(TrapInstr::GetC)
    } else if vector == TRAP_OUT {
        Some(TrapInstr::Out)
    } else if vector == TRAP_PUTS {
        Some(TrapInstr::Puts)
    } else if vector == TRAP_IN {
        Some(TrapInstr::In)
    } else if vector == TRAP_PUTSP {
        Some(TrapInstr::PutsP)
    } else if vector == TRAP_HALT {
        Some(TrapInstr::Halt)
    } else {
        None
    }
}

impl TrapInstr {
    /// Decodes a trap vector; `None` for a vector that names no routine.
    pub fn from_vector(vector: u16) -> (r: Option<TrapInstr>)
        ensures
            r == trap_of(vector),
    {
        if vector == TRAP_GETC {
            Some(TrapInstr::GetC)
        } else if vector == TRAP_OUT {
            Some(TrapInstr::Out)
        } else if vector == TRAP_PUTS {
            Some(TrapInstr::Puts)
        } else if vector == TRAP_IN {
            Some(TrapInstr::In)
        } else if vector == TRAP_PUTSP {
            Some(TrapInstr::PutsP)
        } else if vector == TRAP_HALT {
            Some(TrapInstr::Halt)
        } else {
            None
        }
    }
}

/// What the console has to do after an instruction, in abstract form.
pub ghost enum Effect {
    Proceed,
    Print(Seq<u8>),
    ReadChar(bool),
    Halt,
}

/// What the console has to do after an instruction.
#[derive(Debug)]
pub enum Action {
    /// Nothing; run the next instruction.
    Proceed,
    /// Write these bytes to the console and flush.
    Print(Vec<u8>),
    /// Block for one character and hand it to the machine with
    /// `receive_char`; with `echo`, print the prompt before and the character after.
    ReadChar { echo: bool },
    /// The machine has halted.
    Halt,
}

impl View for Action {
    type V = Effect;

    open spec fn view(&self) -> Effect {
        match self {
            Action::Proceed => Effect::Proceed,
            Action::Print(v) => Effect::Print(v@),
            Action::ReadChar { echo } => Effect::ReadChar(*echo),
            Action::Halt => Effect::Halt,
        }
    }
}

/// The abstract form of an instruction's outcome.
pub open spec fn outcome_view(r: Result<Action, VmError>) -> Result<Effect, VmError> {
    match r {
        Ok(a) => Ok(a@),
        Err(e) => Err(e),
    }
}

/// The characters of a string of one character per word from address `a`:
/// the low byte of each word up to the first zero word or the end of memory.
pub open spec fn puts_text(mem: Seq<u16>, a: int) -> Seq<u8>
    decreases mem.len() - a,
{
    if a < 0 || a >= mem.len() || mem[a] == 0 {
        seq![]
    } else {
        seq![(mem[a] & 0xFF) as u8] + puts_text(mem, a + 1)
    }
}

/// The characters of a string of two characters per word from address `a`:
/// low byte then high byte of each word, up to the first word whose high byte
/// is zero or the end of memory.
pub open spec fn putsp_text(mem: Seq<u16>, a: int) -> Seq<u8>
    decreases mem.len() - a,
{
    if a < 0 || a >= mem.len() || mem[a] >> 8u16 == 0 {
        seq![]
    } else {
        seq![(mem[a] & 0xFF) as u8, (mem[a] >> 8u16) as u8] + putsp_text(mem, a + 1)
    }
}

/// PUTS: the text of one character per word that R0 points to.
pub fn puts(vm: &VM) -> (r: Vec<u8>)
    requires
        vm.wf(),
    ensures
        r@ == puts_text(vm.mem@, vm.reg@[0] as int),
{
    let start = vm.reg[0] as usize;
    let mut out: Vec<u8> = Vec::new();
    let mut a: usize = start;
    while a < MEM_SIZE && vm.mem[a] != 0
        invariant
            vm.wf(),
            start <= a <= MEM_SIZE,
            out@ + puts_text(vm.mem@, a as int) == puts_text(vm.mem@, start as int),
        decreases MEM_SIZE - a,
    {
        let w = vm.mem[a];
        let c = (w & 0xFF) as u8;
        assert(out@.push(c) + puts_text(vm.mem@, a + 1) =~= out@ + puts_text(vm.mem@, a as int));
        out.push(c);
        a = a + 1;
    }
    assert(out@ + puts_text(vm.mem@, a as int) =~= out@);
    out
}

/// PUTSP: the text of two characters per word that R0 points to.
pub fn putsp(vm: &VM) -> (r: Vec<u8>)
    requires
        vm.wf(),
    ensures
        r@ == putsp_text(vm.mem@, vm.reg@[0] as int),
{
    let start = vm.reg[0] as usize;
    let mut out: Vec<u8> = Vec::new();
    let mut a: usize = start;
    while a < MEM_SIZE && vm.mem[a] >> 8u16 != 0
        invariant
            vm.wf(),
            start <= a <= MEM_SIZE,
            out@ + putsp_text(vm.mem@, a as int) == putsp_text(vm.mem@, start as int),
        decreases MEM_SIZE - a,
    {
        let w = vm.mem[a];
        let lo = (w & 0xFF) as u8;
        let hi = (w >> 8u16) as u8;
        assert(out@.push(lo).push(hi) + putsp_text(vm.mem@, a + 1) =~= out@ + putsp_text(
            vm.mem@,
            a as int,
        ));
        out.push(lo);
        out.push(hi);
        a = a + 1;
    }
    assert(out@ + putsp_text(vm.mem@, a as int) =~= out@);
    out
}

/// OUT: the low byte of R0.
pub fn out(vm: &VM) -> (r: Vec<u8>)
    requires
        vm.wf(),
    ensures
        r@ == seq![(vm.reg@[0] & 0xFF) as u8],
{
    let c = (vm.reg[0] & 0xFF) as u8;
    let mut v: Vec<u8> = Vec::new();
    v.push(c);
    assert(v@ =~= seq![c]);
    v
}

/// GETC and IN on an abstract machine: a latched key goes to R0 at once;
/// without one the console has to block for a character.
pub open spec fn read_key_spec(m: Machine, echo: bool) -> (Machine, Effect) {
    match m.key {
        Some(c) => (
            Machine { reg: m.reg.update(0, c as u16), key: None, ..m },
            if echo {
                Effect::Print(seq![PROMPT, c])
            } else {
                Effect::Proceed
            },
        ),
        None => (m, Effect::ReadChar(echo)),
    }
}

fn read_key(vm: &mut VM, echo: bool) -> (r: Action)
    requires
        old(vm).wf(),
    ensures
        final(vm).wf(),
        (final(vm)@, r@) == read_key_spec(old(vm)@, echo),
{
    match vm.key {
        Some(c) => {
            vm.reg.set(0, c as u16);
            vm.key = None;
            if echo {
                let mut v: Vec<u8> = Vec::new();
                v.push(PROMPT);
                v.push(c);
                assert(v@ =~= seq![PROMPT, c]);
                Action::Print(v)
            } else {
                Action::Proceed
            }
        },
        None => Action::ReadChar { echo },
    }
}

/// GETC: one character into R0, without echo.
pub fn getc(vm: &mut VM) -> (r: Action)
    requires
        old(vm).wf(),
    ensures
        final(vm).wf(),
        (final(vm)@, r@) == read_key_spec(old(vm)@, false),
{
    read_key(vm, false)
}

/// IN: the prompt, one character into R0, and its echo.
pub fn in_t(vm: &mut VM) -> (r: Action)
    requires
        old(vm).wf(),
    ensures
        final(vm).wf(),
        (final(vm)@, r@) == read_key_spec(old(vm)@, true),
{
    read_key(vm, true)
}

} // verus!
