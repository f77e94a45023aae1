use mspsim::cpu::Cpu;
use mspsim::isa::{AddressingMode, Fault, Status, UnimplOp};
use mspsim::memory::{Mem, MemUtil, Ram, Regs};

#[test]
fn cpu_test() {
    let _cpu = Cpu::new();
}

#[test]
fn word_store_round_trip() {
    let mut ram = Ram::new();
    assert!(ram.storew(0x1234, 0xabcd));
    assert_eq!(ram.loadw(0x1234), 0xabcd);
    assert_eq!(ram.loadb(0x1234), 0xcd);
    assert_eq!(ram.loadb(0x1235), 0xab);
    // The high byte wraps at the top of the address space.
    assert!(ram.storew(0xffff, 0x1122));
    assert_eq!(ram.loadw(0xffff), 0x1122);
    assert_eq!(ram.loadb(0xffff), 0x22);
    assert_eq!(ram.loadb(0x0000), 0x11);
}

#[test]
fn ram_page_protection_blocks_stores() {
    let mut ram = Ram::new();
    ram.set_protection(true);
    assert!(!ram.storeb(0x0200, 7));
    assert_eq!(ram.loadb(0x0200), 0);
    ram.set_page_writable(0x02, true);
    assert!(ram.storeb(0x0200, 7));
    assert_eq!(ram.loadb(0x0200), 7);
    // A word store across a page boundary fails on the read-only high page
    // after writing its low byte.
    assert!(!ram.storew(0x02ff, 0xbbaa));
    assert_eq!(ram.loadb(0x02ff), 0xaa);
    assert_eq!(ram.loadb(0x0300), 0);
}

#[test]
fn regs_load_store() {
    let mut regs = Regs::new();
    assert_eq!(regs.load(7), 0);
    regs.store(7, 0xbeef);
    assert_eq!(regs.load(7), 0xbeef);
}

#[test]
fn constant_generator_modes() {
    let mut cpu = Cpu::new();
    // Register 3 yields constants for every mode code, touching nothing.
    assert_eq!(cpu.resolve_mode(3, 0), Ok(AddressingMode::Const(0)));
    assert_eq!(cpu.resolve_mode(3, 1), Ok(AddressingMode::Const(1)));
    assert_eq!(cpu.resolve_mode(3, 2), Ok(AddressingMode::Const(2)));
    assert_eq!(cpu.resolve_mode(3, 3), Ok(AddressingMode::Const(0xffff)));
    assert_eq!(cpu.reg(3), 0);
    assert_eq!(cpu.reg(0), 0);
    // Register 2 yields the absolute and constant special cases.
    assert_eq!(cpu.resolve_mode(2, 2), Ok(AddressingMode::Const(4)));
    assert_eq!(cpu.resolve_mode(2, 3), Ok(AddressingMode::Const(8)));
    // Out-of-range combinations are addressing faults.
    assert_eq!(cpu.resolve_mode(16, 0), Err(Fault::InvalidAddressingMode));
    assert_eq!(cpu.resolve_mode(4, 4), Err(Fault::InvalidAddressingMode));
}

#[test]
fn swap_bytes() {
    assert_eq!(Cpu::swap(0x1234), 0x3412);
    assert_eq!(Cpu::swap(0x00ff), 0xff00);
}

#[test]
fn mov_immediate_to_register() {
    // MOV with source mode code 3 on register 0: the immediate is the word
    // after the code word.
    let mut cpu = Cpu::init(&[0x31, 0x40, 0x00, 0x44]);
    let inst = cpu.inst();
    assert_eq!(inst.opcode, 4);
    assert_eq!(inst.destreg, 1);
    assert_eq!(inst.srcmode, AddressingMode::Const(0x4400));
    // The immediate fetch advanced r0 past both words.
    assert_eq!(cpu.reg(0), 0x4404);
    assert!(cpu.step().is_ok());
    assert_eq!(cpu.reg(1), 0x4400);
}

#[test]
fn autoincrement_advances_register_once() {
    // MOV #0x4400, r4 then MOV @r4+, r5.
    let mut cpu = Cpu::init(&[0x34, 0x40, 0x00, 0x44, 0x35, 0x44]);
    assert!(cpu.step().is_ok());
    assert_eq!(cpu.reg(4), 0x4400);
    assert!(cpu.step().is_ok());
    // r5 holds the word at 0x4400 and r4 advanced by exactly 2.
    assert_eq!(cpu.reg(5), 0x4034);
    assert_eq!(cpu.reg(4), 0x4402);
}

#[test]
fn byte_flag_masks_operand() {
    // MOV.B #0x01ab, r4: the byte form masks the operand to its low byte.
    let mut cpu = Cpu::init(&[0x74, 0x40, 0xab, 0x01]);
    assert!(cpu.step().is_ok());
    assert_eq!(cpu.reg(4), 0x00ab);
}

#[test]
fn zero_and_negative_flags() {
    // ADD #0, r4 leaves 0: Zero set, Negative clear.
    let mut cpu = Cpu::init(&[0x34, 0x50, 0x00, 0x00]);
    assert!(cpu.step().is_ok());
    assert_eq!(cpu.reg(2) & 2, 2);
    assert_eq!(cpu.reg(2) & 4, 0);
    // ADD #0x8000, r5 gives 0x8000: Negative set, Zero clear.
    let mut cpu2 = Cpu::init(&[0x35, 0x50, 0x00, 0x80]);
    assert!(cpu2.step().is_ok());
    assert_eq!(cpu2.reg(2) & 2, 0);
    assert_eq!(cpu2.reg(2) & 4, 4);
}

#[test]
fn jge_branches_iff_negative_equals_overflow() {
    // With both flags clear, JGE branches by its decoded offset.
    let mut taken = Cpu::init(&[0x04, 0x34]);
    assert_eq!(taken.inst().memloc, 0x4400);
    assert!(taken.step().is_ok());
    assert_eq!(taken.inst().memloc, 0x440a);
    // With only Negative set (via the status register), JGE does not branch.
    let mut not_taken = Cpu::init(&[0x32, 0x40, 0x04, 0x00, 0x04, 0x34]);
    assert!(not_taken.step().is_ok());
    assert!(not_taken.step().is_ok());
    assert_eq!(not_taken.inst().memloc, 0x4406);
}

#[test]
fn rrc_rotates_through_carry_and_jc_branches() {
    // MOV #1, r4; RRC r4 leaves carry set; JC then branches.
    let mut cpu = Cpu::init(&[0x34, 0x40, 0x01, 0x00, 0x04, 0x10, 0x02, 0x2c]);
    assert!(cpu.step().is_ok());
    assert!(cpu.step().is_ok());
    assert_eq!(cpu.reg(4), 0);
    assert_eq!(cpu.reg(2) & 1, 1); // carry out of bit 0
    assert_eq!(cpu.reg(2) & 2, 2); // zero result
    assert!(cpu.step().is_ok());
    assert_eq!(cpu.inst().memloc, 0x440c);
}

#[test]
fn trap_requests_input_and_resumes() {
    // Store the target address at 8 and the maximum length at 10, set the
    // input-request trap code, and branch to the trap address.
    let image = [
        0xb2, 0x40, 0x00, 0x24, 0x08, 0x00, // MOV #0x2400, &0x0008
        0xb2, 0x40, 0x10, 0x00, 0x0a, 0x00, // MOV #0x0010, &0x000a
        0x32, 0x40, 0x00, 0x82, // MOV #0x8200, r2
        0x30, 0x40, 0x10, 0x00, // MOV #0x0010, r0
    ];
    let mut cpu = Cpu::init(&image);
    for _ in 0..4 {
        assert!(cpu.step().is_ok());
    }
    assert_eq!(cpu.status(), Status::Normal);
    assert!(cpu.step().is_ok());
    assert_eq!(cpu.status(), Status::GetInput(0x2400, 0x10));
    cpu.supply_input(&[0x41, 0x42]);
    assert_eq!(cpu.status(), Status::Normal);
    assert_eq!(cpu.mem_byte(0x2400), 0x41);
    assert_eq!(cpu.mem_byte(0x2401), 0x42);
    assert_eq!(cpu.mem_byte(0x2402), 0x00);
}

#[test]
fn supply_input_clamps_to_max_length() {
    let image = [
        0xb2, 0x40, 0x00, 0x24, 0x08, 0x00, // MOV #0x2400, &0x0008
        0xb2, 0x40, 0x01, 0x00, 0x0a, 0x00, // MOV #0x0001, &0x000a
        0x32, 0x40, 0x00, 0x82, // MOV #0x8200, r2
        0x30, 0x40, 0x10, 0x00, // MOV #0x0010, r0
    ];
    let mut cpu = Cpu::init(&image);
    for _ in 0..5 {
        assert!(cpu.step().is_ok());
    }
    assert_eq!(cpu.status(), Status::GetInput(0x2400, 1));
    cpu.supply_input(&[0x41, 0x42]);
    assert_eq!(cpu.mem_byte(0x2400), 0x41);
    assert_eq!(cpu.mem_byte(0x2401), 0x00);
}

#[test]
fn supply_input_ignored_while_running() {
    let mut cpu = Cpu::init(&[0x31, 0x40, 0x00, 0x44]);
    cpu.supply_input(&[0x41]);
    assert_eq!(cpu.status(), Status::Normal);
    assert_eq!(cpu.mem_byte(0x2400), 0);
}

#[test]
fn trap_emits_character() {
    let image = [
        0xb2, 0x40, 0x41, 0x00, 0x08, 0x00, // MOV #0x0041, &0x0008
        0x32, 0x40, 0x00, 0x80, // MOV #0x8000, r2
        0x30, 0x40, 0x10, 0x00, // MOV #0x0010, r0
    ];
    let mut cpu = Cpu::init(&image);
    for _ in 0..3 {
        assert!(cpu.step().is_ok());
    }
    assert_eq!(cpu.log().len(), 0);
    assert!(cpu.step().is_ok());
    assert_eq!(cpu.log(), &vec![0x41]);
    // The trap's move popped the return address into the program counter.
    assert_eq!(cpu.status(), Status::Normal);
    assert_eq!(cpu.reg(1), 2);
}

#[test]
fn trap_signals_success() {
    let image = [
        0x32, 0x40, 0x00, 0xff, // MOV #0xff00, r2
        0x30, 0x40, 0x10, 0x00, // MOV #0x0010, r0
    ];
    let mut cpu = Cpu::init(&image);
    assert!(cpu.step().is_ok());
    assert!(cpu.step().is_ok());
    assert!(cpu.step().is_ok());
    assert_eq!(cpu.status(), Status::Success);
    // Terminal: further steps are no-ops.
    assert!(cpu.step().is_ok());
    assert_eq!(cpu.status(), Status::Success);
}

#[test]
fn cpu_off_bit_halts() {
    // MOV #0x80, r2 sets the CPU-off bit.
    let mut cpu = Cpu::init(&[0x32, 0x40, 0x80, 0x00]);
    assert!(cpu.step().is_ok());
    assert_eq!(cpu.status(), Status::Off);
    assert!(cpu.step().is_ok());
    assert_eq!(cpu.status(), Status::Off);
}

#[test]
fn invalid_opcode_faults() {
    // One-operand format with opcode 0b111 is architecturally undefined.
    let mut cpu = Cpu::init(&[0x80, 0x03]);
    assert_eq!(cpu.step(), Err(Fault::InvalidOpcode));
    assert_eq!(cpu.status(), Status::Normal);
}

#[test]
fn not_implemented_operations_fault() {
    let mut rra = Cpu::init(&[0x00, 0x01]);
    assert_eq!(rra.step(), Err(Fault::NotImplemented(UnimplOp::Rra)));
    let mut reti = Cpu::init(&[0x00, 0x03]);
    assert_eq!(reti.step(), Err(Fault::NotImplemented(UnimplOp::Reti)));
    let mut dadd = Cpu::init(&[0x05, 0xa4]);
    assert_eq!(dadd.step(), Err(Fault::NotImplemented(UnimplOp::Dadd)));
}

#[test]
fn protection_violation_faults_step() {
    // MOV #0, &0x0200 against fully read-only memory.
    let mut cpu = Cpu::init(&[0x82, 0x43, 0x00, 0x02]);
    cpu.set_protection(true);
    assert_eq!(cpu.step(), Err(Fault::MemoryProtectionViolation));
    assert_eq!(cpu.mem_byte(0x0200), 0);
}

#[test]
fn push_and_call() {
    // MOV #0x4400, r1; PUSH r1; CALL #0x5000.
    let image = [
        0x31, 0x40, 0x00, 0x44, // MOV #0x4400, r1
        0x01, 0x12, // PUSH r1
        0xb0, 0x12, 0x00, 0x50, // CALL #0x5000
    ];
    let mut cpu = Cpu::init(&image);
    assert!(cpu.step().is_ok());
    assert_eq!(cpu.reg(1), 0x4400);
    assert!(cpu.step().is_ok());
    // PUSH decremented the stack pointer by 2 and stored the old value.
    assert_eq!(cpu.reg(1), 0x43fe);
    assert_eq!(cpu.mem_byte(0x43fe), 0x00);
    assert_eq!(cpu.mem_byte(0x43ff), 0x44);
    assert!(cpu.step().is_ok());
    // CALL pushed the return address and branched.
    assert_eq!(cpu.reg(1), 0x43fc);
    assert_eq!(cpu.inst().memloc, 0x5000);
}
