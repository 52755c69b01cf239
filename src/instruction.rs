use vstd::prelude::*;

use crate::register::{COND_SLOT, PC_SLOT, REG_COUNT};
use crate::trap::{
    getc, in_t, out, outcome_view, puts, putsp, putsp_text, puts_text, read_key_spec, trap_of,
    Action, Effect, TrapInstr,
};
use crate::vm::{read_spec, Machine, VmError, VM};

verus! {

/// The sixteen opcodes, selected by the top four bits of an instruction.
#[derive(Clone, Copy, Debug, PartialEq, Eq, Structural)]
pub enum Op {
    Br,
    Add,
    Ld,
    St,
    Jsr,
    And,
    Ldr,
    Str,
    Rti,
    Not,
    Ldi,
    Sti,
    Jmp,
    Res,
    Lea,
    Trap,
}

/// The opcode that the top four bits of `instr` select.
pub open spec fn op_of(instr: u16) -> Op {
    let code = instr >> 12u16;
    if code == 0 {
        Op::Br
    } else if code == 1 {
        Op::Add
    } else if code == 2 {
        Op::Ld
    } else if code == 3 {
        Op::St
    } else if code == 4 {
        Op::Jsr
    } else if code == 5 {
        Op::And
    } else if code == 6 {
        Op::Ldr
    } else if code == 7 {
        Op::Str
    } else if code == 8 {
        Op::Rti
    } else if code == 9 {
        Op::Not
    } else if code == 10 {
        Op::Ldi
    } else if code == 11 {
        Op::Sti
    } else if code == 12 {
        Op::Jmp
    } else if code == 13 {
        Op::Res
    } else if code == 14 {
        Op::Lea
    } else {
        Op::Trap
    }
}

impl Op {
    /// Decodes the opcode of an instruction.
    pub fn decode(instr: u16) -> (r: Op)
        ensures
            r == op_of(instr),
    {
        let code = instr >> 12u16;
        if code == 0 {
            Op::Br
        } else if code == 1 {
            Op::Add
        } else if code == 2 {
            Op::Ld
        } else if code == 3 {
            Op::St
        } else if code == 4 {
            Op::Jsr
        } else if code == 5 {
            Op::And
        } else if code == 6 {
            Op::Ldr
        } else if code == 7 {
            Op::Str
        } else if code == 8 {
            Op::Rti
        } else if code == 9 {
            Op::Not
        } else if code == 10 {
            Op::Ldi
        } else if code == 11 {
            Op::Sti
        } else if code == 12 {
            Op::Jmp
        } else if code == 13 {
            Op::Res
        } else if code == 14 {
            Op::Lea
        } else {
            Op::Trap
        }
    }
}

/// The three condition flags; exactly one is active after a flag update.
#[derive(Clone, Copy, Debug, PartialEq, Eq, Structural)]
pub enum CondFlags {
    Pos,
    Zero,
    Neg,
}

pub const FL_POS: u16 = 1;

pub const FL_ZERO: u16 = 2;

pub const FL_NEG: u16 = 4;

impl CondFlags {
    pub open spec fn spec_bits(self) -> u16 {
        match self {
            CondFlags::Pos => FL_POS,
            CondFlags::Zero => FL_ZERO,
            CondFlags::Neg => FL_NEG,
        }
    }

    /// The bit that stands for this flag in the condition register.
    pub fn bits(self) -> (r: u16)
        ensures
            r == self.spec_bits(),
    {
        match self {
            CondFlags::Pos => FL_POS,
            CondFlags::Zero => FL_ZERO,
            CondFlags::Neg => FL_NEG,
        }
    }
}

/// `x` read as a two's-complement number of `bit_count` bits, widened to 16 bits.
pub open spec fn sext(x: u16, bit_count: u16) -> u16 {
    if (x >> (bit_count - 1) as u16) & 1 == 1 {
        x | (0xFFFFu16 << bit_count)
    } else {
        x
    }
}

/// Sign-extends the low `bit_count` bits of `x` to 16 bits: when bit
/// `bit_count - 1` is set, every bit above it is set too.
pub fn sign_extend(x: u16, bit_count: i32) -> (r: u16)
    requires
        1 <= bit_count < 16,
    ensures
        r == sext(x, bit_count as u16),
{
    let n = bit_count as u16;
    let m: u16 = n - 1;
    let z = (x >> m) & 1;
    assert(z != 0 <==> z == 1) by (bit_vector)
        requires
            z == (x >> m) & 1,
    ;
    if z != 0 {
        x | (0xFFFFu16 << n)
    } else {
        x
    }
}

/// When bit `bit_count - 1` of `x` is set, all bits of the sign extension from
/// `bit_count` upward are set; when it is clear, the sign extension is `x`.
pub proof fn lemma_sign_extend_upper_bits(x: u16, bit_count: u16)
    requires
        1 <= bit_count < 16,
    ensures
        (x >> (bit_count - 1) as u16) & 1 == 1 ==> sext(x, bit_count) >> bit_count == 0xFFFFu16
            >> bit_count,
        (x >> (bit_count - 1) as u16) & 1 == 0 ==> sext(x, bit_count) == x,
{
    let b = (bit_count - 1) as u16;
    assert((x >> b) & 1 == 1 ==> (x | (0xFFFFu16 << bit_count)) >> bit_count == 0xFFFFu16
        >> bit_count) by (bit_vector)
        requires
            b + 1 == bit_count,
            bit_count < 16,
    ;
}

/// The flag that a value written to a register activates: Zero for 0, Neg when
/// the top bit is set, Pos otherwise.
pub open spec fn flag_of(v: u16) -> u16 {
    if v == 0 {
        FL_ZERO
    } else if v >> 15u16 != 0 {
        FL_NEG
    } else {
        FL_POS
    }
}

/// After a flag update exactly one of the three flags is active, and it is the
/// one that the signed reading of the written value selects.
pub proof fn lemma_flag_exactly_one(v: u16)
    ensures
        flag_of(v) == FL_POS || flag_of(v) == FL_ZERO || flag_of(v) == FL_NEG,
        flag_of(v) & FL_POS != 0 <==> v as int > 0 && (v as int) < 0x8000,
        flag_of(v) & FL_ZERO != 0 <==> v == 0,
        flag_of(v) & FL_NEG != 0 <==> v as int >= 0x8000,
{
    assert(v >> 15u16 != 0 <==> v >= 0x8000) by (bit_vector);
    assert(FL_POS & FL_POS != 0 && FL_POS & FL_ZERO == 0 && FL_POS & FL_NEG == 0) by (bit_vector);
    assert(FL_ZERO & FL_POS == 0 && FL_ZERO & FL_ZERO != 0 && FL_ZERO & FL_NEG == 0) by (bit_vector);
    assert(FL_NEG & FL_POS == 0 && FL_NEG & FL_ZERO == 0 && FL_NEG & FL_NEG != 0) by (bit_vector);
}

/// `a + b` modulo 2^16.
pub open spec fn wadd(a: u16, b: u16) -> u16 {
    ((a as int + b as int) % 0x10000) as u16
}

/// Destination (or source, for stores) register field, bits 9 to 11.
pub open spec fn dr_of(instr: u16) -> int {
    ((instr >> 9u16) & 7) as int
}

/// First source or base register field, bits 6 to 8.
pub open spec fn sr1_of(instr: u16) -> int {
    ((instr >> 6u16) & 7) as int
}

/// Second source register field, bits 0 to 2.
pub open spec fn sr2_of(instr: u16) -> int {
    (instr & 7) as int
}

/// The immediate-mode bit of ADD and AND.
pub open spec fn imm_mode(instr: u16) -> bool {
    (instr >> 5u16) & 1 == 1
}

pub open spec fn imm5_of(instr: u16) -> u16 {
    sext(instr & 0x1F, 5)
}

pub open spec fn offset6_of(instr: u16) -> u16 {
    sext(instr & 0x3F, 6)
}

pub open spec fn offset9_of(instr: u16) -> u16 {
    sext(instr & 0x1FF, 9)
}

pub open spec fn offset11_of(instr: u16) -> u16 {
    sext(instr & 0x7FF, 11)
}

/// The second operand of ADD and AND: the immediate or the second source register.
pub open spec fn operand2(regs: Seq<u16>, instr: u16) -> u16 {
    if imm_mode(instr) {
        imm5_of(instr)
    } else {
        regs[sr2_of(instr)]
    }
}

/// Writes `v` to register `r` and sets the flags from it.
pub open spec fn set_reg_flags(regs: Seq<u16>, r: int, v: u16) -> Seq<u16> {
    regs.update(r, v).update(COND_SLOT as int, flag_of(v))
}

pub open spec fn add_spec(regs: Seq<u16>, instr: u16) -> Seq<u16> {
    set_reg_flags(regs, dr_of(instr), wadd(regs[sr1_of(instr)], operand2(regs, instr)))
}

pub open spec fn and_spec(regs: Seq<u16>, instr: u16) -> Seq<u16> {
    set_reg_flags(regs, dr_of(instr), regs[sr1_of(instr)] & operand2(regs, instr))
}

pub open spec fn not_spec(regs: Seq<u16>, instr: u16) -> Seq<u16> {
    set_reg_flags(regs, dr_of(instr), !regs[sr1_of(instr)])
}

/// Whether BR is taken: its condition mask shares a bit with the active flags.
pub open spec fn branch_taken(regs: Seq<u16>, instr: u16) -> bool {
    (instr >> 9u16) & 7 & regs[COND_SLOT as int] != 0
}

pub open spec fn br_spec(regs: Seq<u16>, instr: u16) -> Seq<u16> {
    if branch_taken(regs, instr) {
        regs.update(PC_SLOT as int, wadd(regs[PC_SLOT as int], offset9_of(instr)))
    } else {
        regs
    }
}

pub open spec fn jmp_spec(regs: Seq<u16>, instr: u16) -> Seq<u16> {
    regs.update(PC_SLOT as int, regs[sr1_of(instr)])
}

/// JSR saves the program counter in R7, then jumps by an 11-bit offset (bit 11
/// set) or to the base register (bit 11 clear).
pub open spec fn jsr_spec(regs: Seq<u16>, instr: u16) -> Seq<u16> {
    let pc = regs[PC_SLOT as int];
    let linked = regs.update(7, pc);
    if (instr >> 11u16) & 1 == 1 {
        linked.update(PC_SLOT as int, wadd(pc, offset11_of(instr)))
    } else {
        linked.update(PC_SLOT as int, linked[sr1_of(instr)])
    }
}

pub open spec fn lea_spec(regs: Seq<u16>, instr: u16) -> Seq<u16> {
    set_reg_flags(regs, dr_of(instr), wadd(regs[PC_SLOT as int], offset9_of(instr)))
}

pub open spec fn ret_spec(regs: Seq<u16>) -> Seq<u16> {
    regs.update(PC_SLOT as int, regs[7])
}

/// ADD and AND give the same registers in immediate mode as in register mode
/// when the second source register holds the sign-extended immediate.
pub proof fn lemma_immediate_matches_register(regs: Seq<u16>, imm: u16, reg: u16)
    requires
        regs.len() == REG_COUNT,
        imm_mode(imm),
        !imm_mode(reg),
        dr_of(imm) == dr_of(reg),
        sr1_of(imm) == sr1_of(reg),
        regs[sr2_of(reg)] == imm5_of(imm),
    ensures
        add_spec(regs, imm) == add_spec(regs, reg),
        and_spec(regs, imm) == and_spec(regs, reg),
{
}

/// Writes `v` to general register `r` and sets the flags from it.
fn write_with_flags(regs: &mut Vec<u16>, r: u16, v: u16)
    requires
        old(regs).len() == REG_COUNT,
        r < 8,
    ensures
        final(regs)@ == set_reg_flags(old(regs)@, r as int, v),
{
    regs.set(r as usize, v);
    update_flags(regs, r as u8);
}

/// Sets the condition flags from the value in general register `r`.
pub fn update_flags(regs: &mut Vec<u16>, r: u8)
    requires
        old(regs).len() == REG_COUNT,
        r < 8,
    ensures
        final(regs)@ == old(regs)@.update(COND_SLOT as int, flag_of(old(regs)@[r as int])),
{
    let x = regs[r as usize];
    if x == 0 {
        regs.set(COND_SLOT, CondFlags::Zero.bits());
    } else if x >> 15u16 != 0 {
        regs.set(COND_SLOT, CondFlags::Neg.bits());
    } else {
        regs.set(COND_SLOT, CondFlags::Pos.bits());
    }
}

fn dr_field(instr: u16) -> (r: u16)
    ensures
        r as int == dr_of(instr),
        r < 8,
{
    let r = (instr >> 9u16) & 7;
    assert(r < 8) by (bit_vector)
        requires
            r == (instr >> 9u16) & 7,
    ;
    r
}

fn sr1_field(instr: u16) -> (r: u16)
    ensures
        r as int == sr1_of(instr),
        r < 8,
{
    let r = (instr >> 6u16) & 7;
    assert(r < 8) by (bit_vector)
        requires
            r == (instr >> 6u16) & 7,
    ;
    r
}

/// The second operand of ADD and AND.
fn second_operand(regs: &Vec<u16>, instr: u16) -> (r: u16)
    requires
        regs.len() == REG_COUNT,
    ensures
        r == operand2(regs@, instr),
{
    if (instr >> 5u16) & 1 != 0 {
        assert((instr >> 5u16) & 1 != 0 ==> (instr >> 5u16) & 1 == 1) by (bit_vector);
        sign_extend(instr & 0x1F, 5)
    } else {
        let r2 = instr & 7;
        assert(r2 < 8) by (bit_vector)
            requires
                r2 == instr & 7,
        ;
        regs[r2 as usize]
    }
}

/// ADD: destination = first source + (immediate or second source), wrapping;
/// sets the flags.
pub fn add(regs: &mut Vec<u16>, instr: u16)
    requires
        old(regs).len() == REG_COUNT,
    ensures
        final(regs).len() == REG_COUNT,
        final(regs)@ == add_spec(old(regs)@, instr),
{
    let r0 = dr_field(instr);
    let r1 = sr1_field(instr);
    let b = second_operand(regs, instr);
    let v = regs[r1 as usize].wrapping_add(b);
    write_with_flags(regs, r0, v);
}

/// AND: destination = first source & (immediate or second source); sets the flags.
pub fn and(regs: &mut Vec<u16>, instr: u16)
    requires
        old(regs).len() == REG_COUNT,
    ensures
        final(regs).len() == REG_COUNT,
        final(regs)@ == and_spec(old(regs)@, instr),
{
    let r0 = dr_field(instr);
    let r1 = sr1_field(instr);
    let b = second_operand(regs, instr);
    let v = regs[r1 as usize] & b;
    write_with_flags(regs, r0, v);
}

/// NOT: destination = complement of the source; sets the flags.
pub fn not(regs: &mut Vec<u16>, instr: u16)
    requires
        old(regs).len() == REG_COUNT,
    ensures
        final(regs).len() == REG_COUNT,
        final(regs)@ == not_spec(old(regs)@, instr),
{
    let dr = dr_field(instr);
    let sr = sr1_field(instr);
    let v = !regs[sr as usize];
    write_with_flags(regs, dr, v);
}

/// BR: adds the 9-bit offset to the program counter when the condition mask
/// meets the active flag.
pub fn br(regs: &mut Vec<u16>, instr: u16)
    requires
        old(regs).len() == REG_COUNT,
    ensures
        final(regs).len() == REG_COUNT,
        final(regs)@ == br_spec(old(regs)@, instr),
{
    let cond_flag = (instr >> 9u16) & 7;
    if cond_flag & regs[COND_SLOT] != 0 {
        let pc = regs[PC_SLOT];
        let off = sign_extend(instr & 0x1FF, 9);
        regs.set(PC_SLOT, pc.wrapping_add(off));
    }
}

/// JMP: the program counter takes the value of the base register.
pub fn jmp(regs: &mut Vec<u16>, instr: u16)
    requires
        old(regs).len() == REG_COUNT,
    ensures
        final(regs).len() == REG_COUNT,
        final(regs)@ == jmp_spec(old(regs)@, instr),
{
    let base = sr1_field(instr);
    let target = regs[base as usize];
    regs.set(PC_SLOT, target);
}

/// JSR / JSRR: links the program counter in R7, then jumps.
pub fn jsr(regs: &mut Vec<u16>, instr: u16)
    requires
        old(regs).len() == REG_COUNT,
    ensures
        final(regs).len() == REG_COUNT,
        final(regs)@ == jsr_spec(old(regs)@, instr),
{
    let pc = regs[PC_SLOT];
    regs.set(7, pc);
    if (instr >> 11u16) & 1 != 0 {
        assert((instr >> 11u16) & 1 != 0 ==> (instr >> 11u16) & 1 == 1) by (bit_vector);
        let off = sign_extend(instr & 0x7FF, 11);
        regs.set(PC_SLOT, pc.wrapping_add(off));
    } else {
        let base = sr1_field(instr);
        let target = regs[base as usize];
        regs.set(PC_SLOT, target);
    }
}

/// LEA: destination = program counter + 9-bit offset; sets the flags.
pub fn lea(regs: &mut Vec<u16>, instr: u16)
    requires
        old(regs).len() == REG_COUNT,
    ensures
        final(regs).len() == REG_COUNT,
        final(regs)@ == lea_spec(old(regs)@, instr),
{
    let dr = dr_field(instr);
    let off = sign_extend(instr & 0x1FF, 9);
    let v = regs[PC_SLOT].wrapping_add(off);
    write_with_flags(regs, dr, v);
}

/// RET: the program counter takes the value of R7.
pub fn ret(regs: &mut Vec<u16>, _instr: u16)
    requires
        old(regs).len() == REG_COUNT,
    ensures
        final(regs).len() == REG_COUNT,
        final(regs)@ == ret_spec(old(regs)@),
{
    let target = regs[7];
    regs.set(PC_SLOT, target);
}

/// A machine whose register `r` now holds `v`, with the flags set from it.
pub open spec fn with_reg_flags(m: Machine, r: int, v: u16) -> Machine {
    Machine { reg: set_reg_flags(m.reg, r, v), ..m }
}

/// The address that LD, LDI, ST and STI name: program counter + 9-bit offset.
pub open spec fn pc_rel_addr(m: Machine, instr: u16) -> u16 {
    wadd(m.pc(), offset9_of(instr))
}

/// The address that LDR and STR name: base register + 6-bit offset.
pub open spec fn base_rel_addr(m: Machine, instr: u16) -> u16 {
    wadd(m.reg[sr1_of(instr)], offset6_of(instr))
}

pub open spec fn ld_spec(m: Machine, instr: u16) -> Machine {
    let (m1, v) = read_spec(m, pc_rel_addr(m, instr));
    with_reg_flags(m1, dr_of(instr), v)
}

pub open spec fn ldi_spec(m: Machine, instr: u16) -> Machine {
    let (m1, a) = read_spec(m, pc_rel_addr(m, instr));
    let (m2, v) = read_spec(m1, a);
    with_reg_flags(m2, dr_of(instr), v)
}

pub open spec fn ldr_spec(m: Machine, instr: u16) -> Machine {
    let (m1, v) = read_spec(m, base_rel_addr(m, instr));
    with_reg_flags(m1, dr_of(instr), v)
}

pub open spec fn st_spec(m: Machine, instr: u16) -> Machine {
    Machine { mem: m.mem.update(pc_rel_addr(m, instr) as int, m.reg[dr_of(instr)]), ..m }
}

pub open spec fn sti_spec(m: Machine, instr: u16) -> Machine {
    let (m1, a) = read_spec(m, pc_rel_addr(m, instr));
    Machine { mem: m1.mem.update(a as int, m.reg[dr_of(instr)]), ..m1 }
}

pub open spec fn str_spec(m: Machine, instr: u16) -> Machine {
    Machine { mem: m.mem.update(base_rel_addr(m, instr) as int, m.reg[dr_of(instr)]), ..m }
}

fn pc_relative(vm: &VM, instr: u16) -> (r: u16)
    requires
        vm.wf(),
    ensures
        r == pc_rel_addr(vm@, instr),
{
    let off = sign_extend(instr & 0x1FF, 9);
    vm.reg[PC_SLOT].wrapping_add(off)
}

fn base_relative(vm: &VM, instr: u16) -> (r: u16)
    requires
        vm.wf(),
    ensures
        r == base_rel_addr(vm@, instr),
{
    let base = sr1_field(instr);
    let off = sign_extend(instr & 0x3F, 6);
    vm.reg[base as usize].wrapping_add(off)
}

/// LD: destination = memory[program counter + 9-bit offset]; sets the flags.
pub fn ld(vm: &mut VM, instr: u16)
    requires
        old(vm).wf(),
    ensures
        final(vm).wf(),
        final(vm)@ == ld_spec(old(vm)@, instr),
{
    let dr = dr_field(instr);
    let addr = pc_relative(vm, instr);
    let val = vm.mem_read(addr);
    write_with_flags(&mut vm.reg, dr, val);
}

/// LDI: destination = memory[memory[program counter + 9-bit offset]]; sets the flags.
pub fn ldi(vm: &mut VM, instr: u16)
    requires
        old(vm).wf(),
    ensures
        final(vm).wf(),
        final(vm)@ == ldi_spec(old(vm)@, instr),
{
    let dr = dr_field(instr);
    let addr = pc_relative(vm, instr);
    let indirect = vm.mem_read(addr);
    let val = vm.mem_read(indirect);
    write_with_flags(&mut vm.reg, dr, val);
}

/// LDR: destination = memory[base register + 6-bit offset]; sets the flags.
pub fn ldr(vm: &mut VM, instr: u16)
    requires
        old(vm).wf(),
    ensures
        final(vm).wf(),
        final(vm)@ == ldr_spec(old(vm)@, instr),
{
    let dr = dr_field(instr);
    let addr = base_relative(vm, instr);
    let val = vm.mem_read(addr);
    write_with_flags(&mut vm.reg, dr, val);
}

/// ST: memory[program counter + 9-bit offset] = source register.
pub fn st(vm: &mut VM, instr: u16)
    requires
        old(vm).wf(),
    ensures
        final(vm).wf(),
        final(vm)@ == st_spec(old(vm)@, instr),
{
    let sr = dr_field(instr);
    let addr = pc_relative(vm, instr);
    let val = vm.reg[sr as usize];
    vm.mem_write(addr, val);
}

/// STI: memory[memory[program counter + 9-bit offset]] = source register.
pub fn sti(vm: &mut VM, instr: u16)
    requires
        old(vm).wf(),
    ensures
        final(vm).wf(),
        final(vm)@ == sti_spec(old(vm)@, instr),
{
    let sr = dr_field(instr);
    let addr = pc_relative(vm, instr);
    let val = vm.reg[sr as usize];
    let indirect = vm.mem_read(addr);
    vm.mem_write(indirect, val);
}

/// STR: memory[base register + 6-bit offset] = source register.
pub fn str(vm: &mut VM, instr: u16)
    requires
        old(vm).wf(),
    ensures
        final(vm).wf(),
        final(vm)@ == str_spec(old(vm)@, instr),
{
    let sr = dr_field(instr);
    let addr = base_relative(vm, instr);
    let val = vm.reg[sr as usize];
    vm.mem_write(addr, val);
}

/// TRAP on an abstract machine: R7 takes the program counter, then the
/// routine that the low byte names runs; an unknown vector is fatal and halts.
pub open spec fn trap_spec(m: Machine, instr: u16) -> (Machine, Result<Effect, VmError>) {
    let vector = instr & 0xFF;
    let m1 = Machine { reg: m.reg.update(7, m.pc()), ..m };
    match trap_of(vector) {
        Some(TrapInstr::GetC) => {
            let (m2, e) = read_key_spec(m1, false);
            (m2, Ok(e))
        },
        Some(TrapInstr::In) => {
            let (m2, e) = read_key_spec(m1, true);
            (m2, Ok(e))
        },
        Some(TrapInstr::Out) => (m1, Ok(Effect::Print(seq![(m1.reg[0] & 0xFF) as u8]))),
        Some(TrapInstr::Puts) => (m1, Ok(Effect::Print(puts_text(m1.mem, m1.reg[0] as int)))),
        Some(TrapInstr::PutsP) => (m1, Ok(Effect::Print(putsp_text(m1.mem, m1.reg[0] as int)))),
        Some(TrapInstr::Halt) => (Machine { halted: true, ..m1 }, Ok(Effect::Halt)),
        None => (Machine { halted: true, ..m1 }, Err(VmError::BadTrap(vector))),
    }
}

/// TRAP: links the program counter in R7 and runs the routine that the low
/// byte of `instr` names.
pub fn trap(vm: &mut VM, instr: u16) -> (r: Result<Action, VmError>)
    requires
        old(vm).wf(),
    ensures
        final(vm).wf(),
        (final(vm)@, outcome_view(r)) == trap_spec(old(vm)@, instr),
{
    let pc = vm.reg[PC_SLOT];
    vm.reg.set(7, pc);
    let vector = instr & 0xFF;
    match TrapInstr::from_vector(vector) {
        Some(TrapInstr::GetC) => Ok(getc(vm)),
        Some(TrapInstr::In) => Ok(in_t(vm)),
        Some(TrapInstr::Out) => Ok(Action::Print(out(vm))),
        Some(TrapInstr::Puts) => Ok(Action::Print(puts(vm))),
        Some(TrapInstr::PutsP) => Ok(Action::Print(putsp(vm))),
        Some(TrapInstr::Halt) => {
            vm.halted = true;
            Ok(Action::Halt)
        },
        None => {
            vm.halted = true;
            Err(VmError::BadTrap(vector))
        },
    }
}

/// The effect of executing `instr` on an abstract machine whose program
/// counter already points past it. The reserved opcodes are fatal and halt.
pub open spec fn exec_spec(m: Machine, instr: u16) -> (Machine, Result<Effect, VmError>) {
    match op_of(instr) {
        Op::Br => (Machine { reg: br_spec(m.reg, instr), ..m }, Ok(Effect::Proceed)),
        Op::Add => (Machine { reg: add_spec(m.reg, instr), ..m }, Ok(Effect::Proceed)),
        Op::And => (Machine { reg: and_spec(m.reg, instr), ..m }, Ok(Effect::Proceed)),
        Op::Not => (Machine { reg: not_spec(m.reg, instr), ..m }, Ok(Effect::Proceed)),
        Op::Jmp => (Machine { reg: jmp_spec(m.reg, instr), ..m }, Ok(Effect::Proceed)),
        Op::Jsr => (Machine { reg: jsr_spec(m.reg, instr), ..m }, Ok(Effect::Proceed)),
        Op::Lea => (Machine { reg: lea_spec(m.reg, instr), ..m }, Ok(Effect::Proceed)),
        Op::Ld => (ld_spec(m, instr), Ok(Effect::Proceed)),
        Op::Ldi => (ldi_spec(m, instr), Ok(Effect::Proceed)),
        Op::Ldr => (ldr_spec(m, instr), Ok(Effect::Proceed)),
        Op::St => (st_spec(m, instr), Ok(Effect::Proceed)),
        Op::Sti => (sti_spec(m, instr), Ok(Effect::Proceed)),
        Op::Str => (str_spec(m, instr), Ok(Effect::Proceed)),
        Op::Trap => trap_spec(m, instr),
        Op::Rti | Op::Res => (Machine { halted: true, ..m }, Err(VmError::BadOpcode(instr >> 12u16))),
    }
}

/// Executes one decoded instruction.
pub fn execute(vm: &mut VM, instr: u16) -> (r: Result<Action, VmError>)
    requires
        old(vm).wf(),
    ensures
        final(vm).wf(),
        (final(vm)@, outcome_view(r)) == exec_spec(old(vm)@, instr),
{
    match Op::decode(instr) {
        Op::Br => {
            br(&mut vm.reg, instr);
            Ok(Action::Proceed)
        },
        Op::Add => {
            crate::instruction::add(&mut vm.reg, instr);
            Ok(Action::Proceed)
        },
        Op::And => {
            and(&mut vm.reg, instr);
            Ok(Action::Proceed)
        },
        Op::Not => {
            not(&mut vm.reg, instr);
            Ok(Action::Proceed)
        },
        Op::Jmp => {
            jmp(&mut vm.reg, instr);
            Ok(Action::Proceed)
        },
        Op::Jsr => {
            jsr(&mut vm.reg, instr);
            Ok(Action::Proceed)
        },
        Op::Lea => {
            lea(&mut vm.reg, instr);
            Ok(Action::Proceed)
        },
        Op::Ld => {
            ld(vm, instr);
            Ok(Action::Proceed)
        },
        Op::Ldi => {
            ldi(vm, instr);
            Ok(Action::Proceed)
        },
        Op::Ldr => {
            ldr(vm, instr);
            Ok(Action::Proceed)
        },
        Op::St => {
            st(vm, instr);
            Ok(Action::Proceed)
        },
        Op::Sti => {
            sti(vm, instr);
            Ok(Action::Proceed)
        },
        Op::Str => {
            str(vm, instr);
            Ok(Action::Proceed)
        },
        Op::Trap => trap(vm, instr),
        Op::Rti | Op::Res => {
            vm.halted = true;
            Err(VmError::BadOpcode(instr >> 12u16))
        },
    }
}

} // verus!
