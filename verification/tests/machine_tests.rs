use led_matrix::fibo::fibo;
use led_matrix::machine::{Machine, MachineError, MEMORY_SIZE, NREGS};

#[test]
fn fibo_small_values() {
    assert_eq!(fibo(0), Some(0));
    assert_eq!(fibo(1), Some(1));
    assert_eq!(fibo(2), Some(1));
    assert_eq!(fibo(10), Some(55));
    assert_eq!(fibo(30), Some(832040));
}

#[test]
fn fibo_overflow_boundary() {
    assert_eq!(fibo(47), Some(2_971_215_073));
    assert_eq!(fibo(48), None);
    assert_eq!(fibo(100), None);
}

#[test]
fn machine_resets_memory_and_registers() {
    let m = Machine::new(&[1, 2, 3]);
    assert_eq!(m.memory().len(), MEMORY_SIZE);
    assert_eq!(&m.memory()[..3], &[1, 2, 3]);
    assert!(m.memory()[3..].iter().all(|&b| b == 0));
    assert_eq!(m.regs().len(), NREGS);
    assert!(m.regs().iter().all(|&r| r == 0));
}

#[test]
fn loadimm_sign_extends() {
    // loadimm r1 = 5; loadimm r2 = -1; exit
    let mut m = Machine::new(&[4, 1, 5, 0, 4, 2, 0xFF, 0xFF, 7]);
    let mut fd: Vec<u8> = Vec::new();
    assert_eq!(m.step_on(&mut fd), Ok(false));
    assert_eq!(m.regs()[1], 5);
    assert_eq!(m.step_on(&mut fd), Ok(false));
    assert_eq!(m.regs()[2], u32::MAX);
    assert_eq!(m.step_on(&mut fd), Ok(true));
    assert_eq!(m.regs()[0], 9);
    assert!(fd.is_empty());
}

#[test]
fn mov_if_moves_only_on_nonzero_condition() {
    // loadimm r1 = 7; mov r2 <- r1 if r3 (zero: no move);
    // loadimm r3 = 1; mov r2 <- r1 if r3 (moves); exit
    let program = [4, 1, 7, 0, 1, 2, 1, 3, 4, 3, 1, 0, 1, 2, 1, 3, 7];
    let mut m = Machine::new(&program);
    let mut fd: Vec<u8> = Vec::new();
    assert_eq!(m.step_on(&mut fd), Ok(false));
    assert_eq!(m.step_on(&mut fd), Ok(false));
    assert_eq!(m.regs()[2], 0);
    assert_eq!(m.step_on(&mut fd), Ok(false));
    assert_eq!(m.step_on(&mut fd), Ok(false));
    assert_eq!(m.regs()[2], 7);
    assert_eq!(m.step_on(&mut fd), Ok(true));
}

#[test]
fn store_then_load_round_trips() {
    // loadimm r1 = 0x100 (address); loadimm r2 = -2 (value);
    // store [r1] <- r2; load r3 <- [r1]; exit
    let program = [4, 1, 0x00, 0x01, 4, 2, 0xFE, 0xFF, 2, 1, 2, 3, 3, 1, 7];
    let mut m = Machine::new(&program);
    let mut fd: Vec<u8> = Vec::new();
    for _ in 0..4 {
        assert_eq!(m.step_on(&mut fd), Ok(false));
    }
    assert_eq!(&m.memory()[0x100..0x104], &[0xFE, 0xFF, 0xFF, 0xFF]);
    assert_eq!(m.regs()[3], 0xFFFF_FFFE);
    assert_eq!(m.step_on(&mut fd), Ok(true));
}

#[test]
fn sub_wraps_on_overflow() {
    // loadimm r1 = 2; loadimm r2 = 5; sub r3 = r1 - r2; exit
    let program = [4, 1, 2, 0, 4, 2, 5, 0, 5, 3, 1, 2, 7];
    let mut m = Machine::new(&program);
    let mut fd: Vec<u8> = Vec::new();
    let mut done = false;
    while !done {
        done = m.step_on(&mut fd).unwrap();
    }
    assert_eq!(m.regs()[3], (2u32).wrapping_sub(5));
}

#[test]
fn out_writes_characters() {
    // loadimm r1 = 'H'; out r1; loadimm r1 = 'i'; out r1; exit
    let program = [4, 1, 72, 0, 6, 1, 4, 1, 105, 0, 6, 1, 7];
    let mut m = Machine::new(&program);
    let mut fd: Vec<u8> = Vec::new();
    let mut done = false;
    while !done {
        done = m.step_on(&mut fd).unwrap();
    }
    assert_eq!(fd, b"Hi");
}

#[test]
fn out_encodes_high_bytes_as_two_byte_utf8() {
    // loadimm r1 = 233; out r1; exit -- 233 is 'é'
    let program = [4, 1, 233, 0, 6, 1, 7];
    let mut m = Machine::new(&program);
    let mut fd: Vec<u8> = Vec::new();
    let mut done = false;
    while !done {
        done = m.step_on(&mut fd).unwrap();
    }
    assert_eq!(fd, "é".as_bytes());
    assert_eq!(fd, &[0xC3, 0xA9]);
}

#[test]
fn out_number_renders_signed_decimals() {
    // loadimm r1 = -42; out_number r1; exit
    let program = [4, 1, 0xD6, 0xFF, 8, 1, 7];
    let mut m = Machine::new(&program);
    let mut fd: Vec<u8> = Vec::new();
    let mut done = false;
    while !done {
        done = m.step_on(&mut fd).unwrap();
    }
    assert_eq!(fd, b"-42");

    // loadimm r1 = 1000; out_number r1; exit
    let program2 = [4, 1, 0xE8, 0x03, 8, 1, 7];
    let mut m2 = Machine::new(&program2);
    let mut fd2: Vec<u8> = Vec::new();
    let mut done2 = false;
    while !done2 {
        done2 = m2.step_on(&mut fd2).unwrap();
    }
    assert_eq!(fd2, b"1000");
}

#[test]
fn out_number_renders_zero_and_min() {
    // out_number r1 (still zero); exit
    let mut m = Machine::new(&[8, 1, 7]);
    let mut fd: Vec<u8> = Vec::new();
    assert_eq!(m.step_on(&mut fd), Ok(false));
    assert_eq!(fd, b"0");
    // loadimm r1 = -32768; out_number r1 -- most negative immediate
    let mut m2 = Machine::new(&[4, 1, 0x00, 0x80, 8, 1, 7]);
    let mut fd2: Vec<u8> = Vec::new();
    assert_eq!(m2.step_on(&mut fd2), Ok(false));
    assert_eq!(m2.step_on(&mut fd2), Ok(false));
    assert_eq!(fd2, b"-32768");
}

#[test]
fn unknown_opcode_is_an_error() {
    let mut m = Machine::new(&[99]);
    let mut fd: Vec<u8> = Vec::new();
    assert_eq!(m.step_on(&mut fd), Err(MachineError::InexistantInstruction));
}

#[test]
fn bad_register_operand_is_an_error() {
    // loadimm r16 does not exist
    let mut m = Machine::new(&[4, 16, 0, 0]);
    let mut fd: Vec<u8> = Vec::new();
    assert_eq!(m.step_on(&mut fd), Err(MachineError::InexistantRegister));
    // the instruction pointer still moved past the instruction
    assert_eq!(m.regs()[0], 4);
}

#[test]
fn instruction_pointer_outside_memory_is_an_error() {
    // loadimm r0 = -1 sends the instruction pointer far outside memory
    let mut m = Machine::new(&[4, 0, 0xFF, 0xFF]);
    let mut fd: Vec<u8> = Vec::new();
    assert_eq!(m.step_on(&mut fd), Ok(false));
    assert_eq!(m.step_on(&mut fd), Err(MachineError::OutOfMemory));
}

#[test]
fn store_outside_memory_is_an_error() {
    // loadimm r1 = 4093; store [r1] <- r2
    let mut m = Machine::new(&[4, 1, 0xFD, 0x0F, 2, 1, 2]);
    let mut fd: Vec<u8> = Vec::new();
    assert_eq!(m.step_on(&mut fd), Ok(false));
    assert_eq!(m.step_on(&mut fd), Err(MachineError::OutOfMemory));
}

#[test]
fn run_on_runs_to_exit() {
    // prints "-42" then exits
    let program = [4, 1, 0xD6, 0xFF, 8, 1, 7];
    let mut m = Machine::new(&program);
    let mut fd: Vec<u8> = Vec::new();
    assert_eq!(m.run_on(&mut fd, 100), Ok(true));
    assert_eq!(fd, b"-42");
}

#[test]
fn run_on_reports_exhausted_budget() {
    // loadimm r0 = 0 rewrites the instruction pointer back to 0: a tight
    // loop that never exits and never errs
    let program = [4, 0, 0, 0];
    let mut m = Machine::new(&program);
    let mut fd: Vec<u8> = Vec::new();
    assert_eq!(m.run_on(&mut fd, 1000), Ok(false));
    assert!(fd.is_empty());
}

#[test]
fn run_on_stops_on_error() {
    let mut m = Machine::new(&[99]);
    let mut fd: Vec<u8> = Vec::new();
    assert_eq!(m.run_on(&mut fd, 10), Err(MachineError::InexistantInstruction));
}

#[test]
fn set_reg_and_check_registers_bounds() {
    let mut m = Machine::new(&[]);
    assert_eq!(m.set_reg(3, 99), Ok(()));
    assert_eq!(m.regs()[3], 99);
    assert_eq!(m.set_reg(16, 1), Err(MachineError::InexistantRegister));
    assert_eq!(m.check_registers(15), Ok(()));
    assert_eq!(m.check_registers(16), Err(MachineError::InexistantRegister));
}

#[test]
fn update_ip_moves_register_zero() {
    let mut m = Machine::new(&[]);
    assert_eq!(m.update_ip(100, 4), Ok(()));
    assert_eq!(m.regs()[0], 104);
}
