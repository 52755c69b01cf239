use lc3_vm::image::parse_image;
use lc3_vm::instruction::{self, sign_extend, CondFlags, Op};
use lc3_vm::register::{self, Register, COND_SLOT, PC_SLOT};
use lc3_vm::trap::{self, Action, TrapInstr};
use lc3_vm::vm::{VmError, KBDR, KBSR, KEY_READY, MEM_SIZE, PC_START, VM};

fn regs() -> Vec<u16> {
    vec![0u16; 10]
}

fn machine_with(program: &[u16]) -> VM {
    let mut vm = VM::new();
    vm.load_image(PC_START, &program.to_vec());
    vm.start();
    vm
}

#[test]
fn sign_extend_negative_fills_upper_bits() {
    assert_eq!(sign_extend(0x1F, 5), 0xFFFF);
    assert_eq!(sign_extend(0x1D, 5), 0xFFFD);
    assert_eq!(sign_extend(0x100, 9), 0xFF00);
    assert_eq!(sign_extend(0x400, 11), 0xFC00);
    assert_eq!(sign_extend(0x20, 6), 0xFFE0);
}

#[test]
fn sign_extend_positive_is_unchanged() {
    assert_eq!(sign_extend(0x0F, 5), 0x0F);
    assert_eq!(sign_extend(0xFF, 9), 0xFF);
    assert_eq!(sign_extend(0, 6), 0);
}

#[test]
fn decode_opcodes() {
    assert_eq!(Op::decode(0x1025), Op::Add);
    assert_eq!(Op::decode(0x0000), Op::Br);
    assert_eq!(Op::decode(0x8000), Op::Rti);
    assert_eq!(Op::decode(0xD000), Op::Res);
    assert_eq!(Op::decode(0xF025), Op::Trap);
    assert_eq!(TrapInstr::from_vector(0x25), Some(TrapInstr::Halt));
    assert_eq!(TrapInstr::from_vector(0x26), None);
    assert_eq!(CondFlags::Zero.bits(), 2);
}

#[test]
fn register_accessors() {
    let mut r = regs();
    register::write(&mut r, Register::R3, 7);
    assert_eq!(register::read(&r, Register::R3), 7);
    register::write_raw(&mut r, 5, 9);
    assert_eq!(register::read_raw(&r, 5), 9);
    register::set_pc(&mut r, 0x3000);
    assert_eq!(register::pc(&r), 0x3000);
    assert_eq!(register::read(&r, Register::PC), 0x3000);
}

#[test]
fn add_sets_flags_from_result() {
    let mut r = regs();
    // ADD R0, R0, #5
    instruction::add(&mut r, 0x1025);
    assert_eq!(r[0], 5);
    assert_eq!(r[COND_SLOT], 1);
    // ADD R1, R0, #-5
    instruction::add(&mut r, 0x123B);
    assert_eq!(r[1], 0);
    assert_eq!(r[COND_SLOT], 2);
    // ADD R2, R1, #-1
    instruction::add(&mut r, 0x147F);
    assert_eq!(r[2], 0xFFFF);
    assert_eq!(r[COND_SLOT], 4);
}

#[test]
fn add_wraps_on_overflow() {
    let mut r = regs();
    r[1] = 0xFFFF;
    r[2] = 2;
    // ADD R0, R1, R2
    instruction::add(&mut r, 0x1042);
    assert_eq!(r[0], 1);
    assert_eq!(r[COND_SLOT], 1);
}

#[test]
fn add_and_immediate_match_register_mode() {
    let mut a = regs();
    let mut b = regs();
    a[1] = 0x1234;
    b[1] = 0x1234;
    b[2] = 0xFFFD;
    // ADD R0, R1, #-3 and ADD R0, R1, R2
    instruction::add(&mut a, 0x107D);
    instruction::add(&mut b, 0x1042);
    assert_eq!(a[0], b[0]);
    assert_eq!(a[COND_SLOT], b[COND_SLOT]);
    assert_eq!(a[0], 0x1231);
    // AND R0, R1, #-3 and AND R0, R1, R2
    instruction::and(&mut a, 0x507D);
    instruction::and(&mut b, 0x5042);
    assert_eq!(a[0], b[0]);
    assert_eq!(a[COND_SLOT], b[COND_SLOT]);
    assert_eq!(a[0], 0x1234);
}

#[test]
fn and_and_not() {
    let mut r = regs();
    r[1] = 0x0F0F;
    r[2] = 0x00FF;
    // AND R0, R1, R2
    instruction::and(&mut r, 0x5042);
    assert_eq!(r[0], 0x000F);
    // NOT R3, R1
    instruction::not(&mut r, 0x967F);
    assert_eq!(r[3], 0xF0F0);
    assert_eq!(r[COND_SLOT], 4);
    // NOT R7 uses the full three-bit register field
    r[6] = 0xFFFF;
    instruction::not(&mut r, 0x9FBF);
    assert_eq!(r[7], 0);
    assert_eq!(r[COND_SLOT], 2);
}

#[test]
fn branch_taken_and_not_taken() {
    let mut r = regs();
    r[PC_SLOT] = 0x3001;
    r[COND_SLOT] = 1;
    // BRz #4: not taken on Pos
    instruction::br(&mut r, 0x0404);
    assert_eq!(r[PC_SLOT], 0x3001);
    // BRp #-2: taken
    instruction::br(&mut r, 0x03FE);
    assert_eq!(r[PC_SLOT], 0x2FFF);
    // BRnzp #1: always taken
    instruction::br(&mut r, 0x0E01);
    assert_eq!(r[PC_SLOT], 0x3000);
}

#[test]
fn jumps_and_subroutines() {
    let mut r = regs();
    r[PC_SLOT] = 0x3001;
    r[3] = 0x4000;
    // JMP R3
    instruction::jmp(&mut r, 0xC0C0);
    assert_eq!(r[PC_SLOT], 0x4000);
    // JSR #-1
    instruction::jsr(&mut r, 0x4FFF);
    assert_eq!(r[7], 0x4000);
    assert_eq!(r[PC_SLOT], 0x3FFF);
    // JSRR R3
    instruction::jsr(&mut r, 0x40C0);
    assert_eq!(r[7], 0x3FFF);
    assert_eq!(r[PC_SLOT], 0x4000);
    // RET
    instruction::ret(&mut r, 0xC1C0);
    assert_eq!(r[PC_SLOT], 0x3FFF);
}

#[test]
fn lea_computes_address_and_flags() {
    let mut r = regs();
    r[PC_SLOT] = 0x3001;
    // LEA R4, #-2
    instruction::lea(&mut r, 0xE9FE);
    assert_eq!(r[4], 0x2FFF);
    assert_eq!(r[COND_SLOT], 1);
}

#[test]
fn loads_read_memory() {
    let mut vm = VM::new();
    vm.reg[PC_SLOT] = 0x3001;
    vm.mem[0x3003] = 0x5000;
    vm.mem[0x5000] = 0x8001;
    vm.reg[2] = 0x4FFF;
    // LD R1, #2
    instruction::ld(&mut vm, 0x2202);
    assert_eq!(vm.reg[1], 0x5000);
    assert_eq!(vm.reg[COND_SLOT], 1);
    // LDI R5, #2
    instruction::ldi(&mut vm, 0xAA02);
    assert_eq!(vm.reg[5], 0x8001);
    assert_eq!(vm.reg[COND_SLOT], 4);
    // LDR R6, R2, #1
    instruction::ldr(&mut vm, 0x6C81);
    assert_eq!(vm.reg[6], 0x8001);
}

#[test]
fn stores_write_memory() {
    let mut vm = VM::new();
    vm.reg[PC_SLOT] = 0x3001;
    vm.reg[5] = 0xBEEF;
    vm.reg[2] = 0x6000;
    vm.mem[0x3000] = 0x7000;
    // ST R5, #4
    instruction::st(&mut vm, 0x3A04);
    assert_eq!(vm.mem[0x3005], 0xBEEF);
    // STI R5, #-1
    instruction::sti(&mut vm, 0xBBFF);
    assert_eq!(vm.mem[0x7000], 0xBEEF);
    // STR R5, R2, #-1
    instruction::str(&mut vm, 0x7ABF);
    assert_eq!(vm.mem[0x5FFF], 0xBEEF);
}

#[test]
fn load_image_round_trip() {
    let mut vm = VM::new();
    vm.load_image(0x3000, &vec![1, 2, 3]);
    assert_eq!(vm.mem[0x3000], 1);
    assert_eq!(vm.mem[0x3001], 2);
    assert_eq!(vm.mem[0x3002], 3);
    assert_eq!(vm.mem[0x2FFF], 0);
    assert_eq!(vm.mem[0x3003], 0);
    assert_eq!(vm.mem_read(0x3001), 2);
}

#[test]
fn load_image_stops_at_end_of_memory() {
    let mut vm = VM::new();
    vm.load_image(0xFFFE, &vec![7, 8, 9]);
    assert_eq!(vm.mem.len(), MEM_SIZE);
    assert_eq!(vm.mem[0xFFFE], 7);
    assert_eq!(vm.mem[0xFFFF], 8);
    assert_eq!(vm.mem[0], 0);
}

#[test]
fn parse_image_reads_big_endian_words() {
    let (origin, words) = parse_image(&vec![0x30, 0x00, 0x12, 0x34, 0xAB, 0xCD, 0x01]).unwrap();
    assert_eq!(origin, 0x3000);
    assert_eq!(words, vec![0x1234, 0xABCD]);
    let (origin, words) = parse_image(&vec![0x40, 0x01]).unwrap();
    assert_eq!(origin, 0x4001);
    assert!(words.is_empty());
    assert!(parse_image(&vec![0x30]).is_none());
    assert!(parse_image(&vec![]).is_none());
}

#[test]
fn add_add_halt_program() {
    let mut vm = machine_with(&[0x1025, 0x103D, 0xF025]);
    let mut fetches = 0;
    loop {
        let halted_before = vm.halted;
        let r = vm.step().unwrap();
        if !halted_before {
            fetches += 1;
        }
        if matches!(r, Action::Halt) {
            break;
        }
        assert!(fetches < 10);
    }
    assert_eq!(fetches, 3);
    assert_eq!(vm.reg[0], 2);
    assert_eq!(vm.reg[COND_SLOT], 1);
    assert!(vm.halted);
    assert!(matches!(vm.step(), Ok(Action::Halt)));
}

#[test]
fn keyboard_status_without_key_is_zero() {
    let mut vm = VM::new();
    vm.mem[KBSR as usize] = 0x1234;
    assert_eq!(vm.mem_read(KBSR), 0);
    assert_eq!(vm.mem[KBSR as usize], 0);
}

#[test]
fn keyboard_status_with_key_is_ready() {
    let mut vm = VM::new();
    vm.press_key(b'a');
    assert_eq!(vm.mem_read(KBSR), KEY_READY);
    assert_eq!(vm.mem_read(KBDR), 0x61);
    assert!(vm.key.is_none());
    assert_eq!(vm.mem_read(KBSR), 0);
}

#[test]
fn reserved_opcode_halts() {
    let mut vm = machine_with(&[0x8000, 0x1025]);
    assert_eq!(vm.step().unwrap_err(), VmError::BadOpcode(8));
    assert!(vm.halted);
    assert!(matches!(vm.step(), Ok(Action::Halt)));
    assert_eq!(vm.reg[0], 0);
    let mut vm = machine_with(&[0xD000]);
    assert_eq!(vm.step().unwrap_err(), VmError::BadOpcode(13));
}

#[test]
fn unknown_trap_vector_is_fatal() {
    let mut vm = machine_with(&[0xF0FF]);
    assert_eq!(vm.step().unwrap_err(), VmError::BadTrap(0xFF));
    assert!(vm.halted);
}

#[test]
fn trap_output_routines() {
    let mut vm = machine_with(&[0xF022, 0xF024, 0xF021]);
    vm.mem[0x4000] = 0x0068;
    vm.mem[0x4001] = 0x0069;
    vm.mem[0x4002] = 0;
    vm.reg[0] = 0x4000;
    match vm.step() {
        Ok(Action::Print(v)) => assert_eq!(v, b"hi".to_vec()),
        _ => panic!("PUTS should print"),
    }
    assert_eq!(vm.reg[7], 0x3001);
    assert_eq!(vm.reg[PC_SLOT], 0x3001);
    vm.mem[0x5000] = 0x6968;
    vm.mem[0x5001] = 0x0021;
    vm.reg[0] = 0x5000;
    match vm.step() {
        Ok(Action::Print(v)) => assert_eq!(v, b"hi".to_vec()),
        _ => panic!("PUTSP should print"),
    }
    vm.reg[0] = 0x1241;
    match vm.step() {
        Ok(Action::Print(v)) => assert_eq!(v, vec![0x41]),
        _ => panic!("OUT should print"),
    }
}

#[test]
fn trap_input_routines() {
    let mut vm = machine_with(&[0xF020, 0xF020, 0xF023, 0xF023]);
    assert!(matches!(vm.step(), Ok(Action::ReadChar { echo: false })));
    vm.receive_char(b'x');
    assert_eq!(vm.reg[0], 0x78);
    vm.press_key(b'y');
    assert!(matches!(vm.step(), Ok(Action::Proceed)));
    assert_eq!(vm.reg[0], 0x79);
    assert!(matches!(vm.step(), Ok(Action::ReadChar { echo: true })));
    vm.press_key(b'z');
    match vm.step() {
        Ok(Action::Print(v)) => assert_eq!(v, vec![trap::PROMPT, b'z']),
        _ => panic!("IN with a latched key should echo"),
    }
    assert_eq!(vm.reg[0], 0x7A);
}

#[test]
fn trap_text_helpers() {
    let mut vm = VM::new();
    vm.mem[0xFFFF] = 0x41;
    vm.reg[0] = 0xFFFF;
    assert_eq!(trap::puts(&vm), vec![0x41]);
    assert_eq!(trap::out(&vm), vec![0xFF]);
    assert!(trap::putsp(&vm).is_empty());
    assert!(matches!(trap::getc(&mut vm), Action::ReadChar { echo: false }));
    assert!(matches!(trap::in_t(&mut vm), Action::ReadChar { echo: true }));
}

#[test]
fn vm_register_methods() {
    let mut vm = VM::new();
    vm.rwrite(Register::R2, 0x55);
    assert_eq!(vm.read(Register::R2), 0x55);
    vm.mem_write(0x1234, 0x77);
    assert_eq!(vm.mem[0x1234], 0x77);
    vm.start();
    assert_eq!(vm.read(Register::PC), PC_START);
}

#[test]
fn branch_step_moves_past_fetch() {
    // ADD R0, R0, #0 sets Zero; BRz #2 is taken; BRp #2 is not.
    let mut vm = machine_with(&[0x1020, 0x0402, 0x0202]);
    vm.step().unwrap();
    assert_eq!(vm.reg[COND_SLOT], 2);
    vm.step().unwrap();
    assert_eq!(vm.reg[PC_SLOT], 0x3004);
    let mut vm = machine_with(&[0x1020, 0x0202]);
    vm.step().unwrap();
    vm.step().unwrap();
    assert_eq!(vm.reg[PC_SLOT], 0x3002);
}
