use vstd::prelude::*;

verus! {

/// Number of slots in a register file: eight general registers, the program
/// counter and the condition flags.
pub const REG_COUNT: usize = 10;

/// Slot of the program counter.
pub const PC_SLOT: usize = 8;

/// Slot of the condition flags.
pub const COND_SLOT: usize = 9;

/// The named registers of the machine.
#[derive(Clone, Copy, Debug, PartialEq, Eq, Structural)]
pub enum Register {
    R0,
    R1,
    R2,
    R3,
    R4,
    R5,
    R6,
    R7,
    PC,
    Cond,
}

impl Register {
    pub open spec fn slot(self) -> int {
        match self {
            Register::R0 => 0,
            Register::R1 => 1,
            Register::R2 => 2,
            Register::R3 => 3,
            Register::R4 => 4,
            Register::R5 => 5,
            Register::R6 => 6,
            Register::R7 => 7,
            Register::PC => PC_SLOT as int,
            Register::Cond => COND_SLOT as int,
        }
    }

    /// The slot of the register file that holds this register.
    pub fn index(self) -> (r: usize)
        ensures
            r as int == self.slot(),
            r < REG_COUNT,
    {
        match self {
            Register::R0 => 0,
            Register::R1 => 1,
            Register::R2 => 2,
            Register::R3 => 3,
            Register::R4 => 4,
            Register::R5 => 5,
            Register::R6 => 6,
            Register::R7 => 7,
            Register::PC => PC_SLOT,
            Register::Cond => COND_SLOT,
        }
    }
}

/// Stores `val` in the named register.
pub fn write(regs: &mut Vec<u16>, reg: Register, val: u16)
    requires
        old(regs).len() == REG_COUNT,
    ensures
        final(regs)@ == old(regs)@.update(reg.slot(), val),
{
    let i = reg.index();
    regs.set(i, val);
}

/// Stores `val` in the general register with index `reg`.
pub fn write_raw(regs: &mut Vec<u16>, reg: u8, val: u16)
    requires
        old(regs).len() == REG_COUNT,
        reg < 8,
    ensures
        final(regs)@ == old(regs)@.update(reg as int, val),
{
    regs.set(reg as usize, val);
}

/// The value held in the named register.
pub fn read(regs: &Vec<u16>, reg: Register) -> (r: u16)
    requires
        regs.len() == REG_COUNT,
    ensures
        r == regs@[reg.slot()],
{
    regs[reg.index()]
}

/// The value held in the general register with index `reg`.
pub fn read_raw(regs: &Vec<u16>, reg: u8) -> (r: u16)
    requires
        regs.len() == REG_COUNT,
        reg < 8,
    ensures
        r == regs@[reg as int],
{
    regs[reg as usize]
}

/// The program counter.
pub fn pc(regs: &Vec<u16>) -> (r: u16)
    requires
        regs.len() == REG_COUNT,
    ensures
        r == regs@[PC_SLOT as int],
{
    regs[PC_SLOT]
}

/// Sets the program counter.
pub fn set_pc(regs: &mut Vec<u16>, new_pc: u16)
    requires
        old(regs).len() == REG_COUNT,
    ensures
        final(regs)@ == old(regs)@.update(PC_SLOT as int, new_pc),
{
    regs.set(PC_SLOT, new_pc);
}

} // verus!
