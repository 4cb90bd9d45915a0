use invaders::cpu::Cpu;
use invaders::memory::Addressing;
use invaders::memory::MemError;
use invaders::testadd::TestAddressing;

fn machine_with(program: &[u8]) -> Cpu<TestAddressing> {
    let mut rom = vec![0u8; 65536];
    rom[..program.len()].copy_from_slice(program);
    Cpu::new(TestAddressing::new(rom), 0)
}

#[test]
fn mvi_inr_scenario() {
    // MVI A,0x05 then INR A: A = 6, Z clear, three bytes consumed,
    // cycles 7 + 5.
    let mut cpu = machine_with(&[0x3E, 0x05, 0x3C]);
    let c1 = cpu.next().unwrap();
    assert_eq!(c1, 7);
    assert_eq!(cpu.register.a, 0x05);
    let c2 = cpu.next().unwrap();
    assert_eq!(c2, 5);
    assert_eq!(cpu.register.a, 0x06);
    assert!(!cpu.register.flag_z);
    assert_eq!(cpu.register.pc, 3);
    assert_eq!(c1 + c2, 12);
}

#[test]
fn add_sets_all_flags() {
    // MVI A,0xFF; ADI 0x01: wraps to zero with carry and half-carry.
    let mut cpu = machine_with(&[0x3E, 0xFF, 0xC6, 0x01]);
    cpu.next().unwrap();
    let c = cpu.next().unwrap();
    assert_eq!(c, 7);
    assert_eq!(cpu.register.a, 0x00);
    assert!(cpu.register.flag_z);
    assert!(!cpu.register.flag_s);
    assert!(cpu.register.flag_p); // popcount(0) is even
    assert!(cpu.register.flag_cy);
    assert!(cpu.register.flag_ac);
}

#[test]
fn sub_borrow_flags() {
    // MVI A,0x00; SUI 0x01: 0xFF with borrow.
    let mut cpu = machine_with(&[0x3E, 0x00, 0xD6, 0x01]);
    cpu.next().unwrap();
    cpu.next().unwrap();
    assert_eq!(cpu.register.a, 0xFF);
    assert!(!cpu.register.flag_z);
    assert!(cpu.register.flag_s);
    assert!(cpu.register.flag_p); // popcount(0xFF) = 8, even
    assert!(cpu.register.flag_cy);
    assert!(cpu.register.flag_ac);
}

#[test]
fn parity_flag_odd_result() {
    // MVI A,0x00; ADI 0x07: popcount(7) = 3, odd, so P clear.
    let mut cpu = machine_with(&[0x3E, 0x00, 0xC6, 0x07]);
    cpu.next().unwrap();
    cpu.next().unwrap();
    assert_eq!(cpu.register.a, 0x07);
    assert!(!cpu.register.flag_p);
}

#[test]
fn inr_dcr_preserve_carry() {
    // STC sets CY; INR A and DCR A must leave it set.
    let mut cpu = machine_with(&[0x37, 0x3C, 0x3D]);
    cpu.next().unwrap();
    assert!(cpu.register.flag_cy);
    cpu.next().unwrap();
    assert!(cpu.register.flag_cy);
    assert_eq!(cpu.register.a, 1);
    cpu.next().unwrap();
    assert!(cpu.register.flag_cy);
    assert_eq!(cpu.register.a, 0);
    assert!(cpu.register.flag_z);
}

#[test]
fn ana_clears_carry_sets_aux_from_operands() {
    // STC; MVI A,0x08; ANI 0x08: CY cleared, AC from bit 3 of the OR.
    let mut cpu = machine_with(&[0x37, 0x3E, 0x08, 0xE6, 0x08]);
    cpu.next().unwrap();
    cpu.next().unwrap();
    cpu.next().unwrap();
    assert_eq!(cpu.register.a, 0x08);
    assert!(!cpu.register.flag_cy);
    assert!(cpu.register.flag_ac);
}

#[test]
fn xra_clears_accumulator_and_carries() {
    // STC; XRA A: A = 0, Z set, CY and AC cleared.
    let mut cpu = machine_with(&[0x37, 0xAF]);
    cpu.next().unwrap();
    cpu.next().unwrap();
    assert_eq!(cpu.register.a, 0);
    assert!(cpu.register.flag_z);
    assert!(!cpu.register.flag_cy);
    assert!(!cpu.register.flag_ac);
}

#[test]
fn cmp_does_not_store() {
    // MVI A,0x02; CPI 0x03: A keeps its value, CY set (2 < 3).
    let mut cpu = machine_with(&[0x3E, 0x02, 0xFE, 0x03]);
    cpu.next().unwrap();
    cpu.next().unwrap();
    assert_eq!(cpu.register.a, 0x02);
    assert!(cpu.register.flag_cy);
    assert!(!cpu.register.flag_z);
}

#[test]
fn rotates() {
    // MVI A,0x81; RLC: 0x03 with CY set.
    let mut cpu = machine_with(&[0x3E, 0x81, 0x07]);
    cpu.next().unwrap();
    cpu.next().unwrap();
    assert_eq!(cpu.register.a, 0x03);
    assert!(cpu.register.flag_cy);

    // MVI A,0x81; RRC: 0xC0 with CY set.
    let mut cpu = machine_with(&[0x3E, 0x81, 0x0F]);
    cpu.next().unwrap();
    cpu.next().unwrap();
    assert_eq!(cpu.register.a, 0xC0);
    assert!(cpu.register.flag_cy);

    // STC; MVI A,0x80; RAL: carry rotates in at bit 0, bit 7 out.
    let mut cpu = machine_with(&[0x37, 0x3E, 0x80, 0x17]);
    cpu.next().unwrap();
    cpu.next().unwrap();
    cpu.next().unwrap();
    assert_eq!(cpu.register.a, 0x01);
    assert!(cpu.register.flag_cy);

    // STC; MVI A,0x01; RAR: carry rotates in at bit 7, bit 0 out.
    let mut cpu = machine_with(&[0x37, 0x3E, 0x01, 0x1F]);
    cpu.next().unwrap();
    cpu.next().unwrap();
    cpu.next().unwrap();
    assert_eq!(cpu.register.a, 0x80);
    assert!(cpu.register.flag_cy);
}

#[test]
fn daa_corrects_packed_bcd() {
    // MVI A,0x9B; DAA: both nibbles corrected, 0x01 with CY and AC set.
    let mut cpu = machine_with(&[0x3E, 0x9B, 0x27]);
    cpu.next().unwrap();
    let c = cpu.next().unwrap();
    assert_eq!(c, 4);
    assert_eq!(cpu.register.a, 0x01);
    assert!(cpu.register.flag_cy);
    assert!(cpu.register.flag_ac);
}

#[test]
fn dad_sets_only_carry() {
    // LXI H,0xFFFF; LXI B,0x0001; DAD B: HL wraps to 0, CY set, Z untouched.
    let mut cpu = machine_with(&[0x21, 0xFF, 0xFF, 0x01, 0x01, 0x00, 0x09]);
    cpu.next().unwrap();
    cpu.next().unwrap();
    let c = cpu.next().unwrap();
    assert_eq!(c, 10);
    assert_eq!(cpu.register.get_hl(), 0);
    assert!(cpu.register.flag_cy);
    assert!(!cpu.register.flag_z);
}

#[test]
fn inx_dcx_wrap() {
    // LXI D,0xFFFF; INX D wraps to zero; DCX D wraps back.
    let mut cpu = machine_with(&[0x11, 0xFF, 0xFF, 0x13, 0x1B]);
    cpu.next().unwrap();
    cpu.next().unwrap();
    assert_eq!(cpu.register.get_de(), 0);
    cpu.next().unwrap();
    assert_eq!(cpu.register.get_de(), 0xFFFF);
}

#[test]
fn mov_through_memory() {
    // LXI H,0x0050; MVI M,0x42; MOV B,M.
    let mut cpu = machine_with(&[0x21, 0x50, 0x00, 0x36, 0x42, 0x46]);
    cpu.next().unwrap();
    let c_mvi = cpu.next().unwrap();
    assert_eq!(c_mvi, 10);
    assert_eq!(cpu.addring.get_mem(0x50).unwrap(), 0x42);
    let c_mov = cpu.next().unwrap();
    assert_eq!(c_mov, 7);
    assert_eq!(cpu.register.b, 0x42);
}

#[test]
fn call_then_ret_round_trip() {
    // LXI SP,0x0100; CALL 0x0010; ... at 0x0010: RET.
    let mut program = vec![0u8; 32];
    program[0] = 0x31; // LXI SP, 0x0100
    program[1] = 0x00;
    program[2] = 0x01;
    program[3] = 0xCD; // CALL 0x0010
    program[4] = 0x10;
    program[5] = 0x00;
    program[0x10] = 0xC9; // RET
    let mut cpu = machine_with(&program);
    cpu.next().unwrap();
    let c_call = cpu.next().unwrap();
    assert_eq!(c_call, 17);
    assert_eq!(cpu.register.pc, 0x0010);
    assert_eq!(cpu.register.sp, 0x00FE);
    // the return address, 0x0006, sits on the stack low byte first
    assert_eq!(cpu.addring.get_mem(0x00FE).unwrap(), 0x06);
    assert_eq!(cpu.addring.get_mem(0x00FF).unwrap(), 0x00);
    let c_ret = cpu.next().unwrap();
    assert_eq!(c_ret, 10);
    assert_eq!(cpu.register.pc, 0x0006);
    assert_eq!(cpu.register.sp, 0x0100);
}

#[test]
fn conditional_call_and_return_cycle_costs() {
    // XRA A sets Z; CNZ is not taken (11 cycles), CZ is taken (17).
    let mut program = vec![0u8; 64];
    program[0] = 0x31; // LXI SP, 0x0100
    program[1] = 0x00;
    program[2] = 0x01;
    program[3] = 0xAF; // XRA A -> Z set
    program[4] = 0xC4; // CNZ 0x0020: not taken
    program[5] = 0x20;
    program[6] = 0x00;
    program[7] = 0xCC; // CZ 0x0020: taken
    program[8] = 0x20;
    program[9] = 0x00;
    program[0x20] = 0xC0; // RNZ: not taken, 5 cycles
    program[0x21] = 0xC8; // RZ: taken, 11 cycles
    let mut cpu = machine_with(&program);
    cpu.next().unwrap();
    cpu.next().unwrap();
    assert_eq!(cpu.next().unwrap(), 11);
    assert_eq!(cpu.register.pc, 7);
    assert_eq!(cpu.next().unwrap(), 17);
    assert_eq!(cpu.register.pc, 0x20);
    assert_eq!(cpu.next().unwrap(), 5);
    assert_eq!(cpu.register.pc, 0x21);
    assert_eq!(cpu.next().unwrap(), 11);
    assert_eq!(cpu.register.pc, 0x0A);
}

#[test]
fn push_pop_round_trips_every_pair() {
    // LXI SP,0x0100; LXI B,0xBBCC; PUSH B; LXI B,0; POP B.
    let mut cpu = machine_with(&[
        0x31, 0x00, 0x01, 0x01, 0xCC, 0xBB, 0xC5, 0x01, 0x00, 0x00, 0xC1,
    ]);
    for _ in 0..5 {
        cpu.next().unwrap();
    }
    assert_eq!(cpu.register.get_bc(), 0xBBCC);
    assert_eq!(cpu.register.sp, 0x0100);
}

#[test]
fn push_pop_psw_round_trips_flags() {
    // LXI SP,0x0100; MVI A,0x55; ADI 0xAA; PUSH PSW; XRA A; POP PSW.
    let mut cpu = machine_with(&[0x31, 0x00, 0x01, 0x3E, 0x55, 0xC6, 0xAA, 0xF5, 0xAF, 0xF1]);
    cpu.next().unwrap();
    cpu.next().unwrap();
    cpu.next().unwrap();
    // A = 0xFF: S set, Z clear, P even, CY clear
    let (a, s, z, p, cy, ac) = (
        cpu.register.a,
        cpu.register.flag_s,
        cpu.register.flag_z,
        cpu.register.flag_p,
        cpu.register.flag_cy,
        cpu.register.flag_ac,
    );
    assert_eq!(cpu.next().unwrap(), 11); // PUSH PSW
    cpu.next().unwrap(); // XRA A scrambles A and the flags
    assert_eq!(cpu.next().unwrap(), 10); // POP PSW
    assert_eq!(cpu.register.a, a);
    assert_eq!(cpu.register.flag_s, s);
    assert_eq!(cpu.register.flag_z, z);
    assert_eq!(cpu.register.flag_p, p);
    assert_eq!(cpu.register.flag_cy, cy);
    assert_eq!(cpu.register.flag_ac, ac);
    assert_eq!(cpu.register.sp, 0x0100);
}

#[test]
fn xthl_exchanges_with_stack_top() {
    // LXI SP,0x0100; LXI H,0x1234; PUSH H; LXI H,0xABCD; XTHL.
    let mut cpu = machine_with(&[
        0x31, 0x00, 0x01, 0x21, 0x34, 0x12, 0xE5, 0x21, 0xCD, 0xAB, 0xE3,
    ]);
    for _ in 0..4 {
        cpu.next().unwrap();
    }
    assert_eq!(cpu.next().unwrap(), 18);
    assert_eq!(cpu.register.get_hl(), 0x1234);
    assert_eq!(cpu.addring.get_mem(0x00FE).unwrap(), 0xCD);
    assert_eq!(cpu.addring.get_mem(0x00FF).unwrap(), 0xAB);
}

#[test]
fn xchg_swaps_pairs() {
    let mut cpu = machine_with(&[0x21, 0x34, 0x12, 0x11, 0x78, 0x56, 0xEB]);
    cpu.next().unwrap();
    cpu.next().unwrap();
    cpu.next().unwrap();
    assert_eq!(cpu.register.get_hl(), 0x5678);
    assert_eq!(cpu.register.get_de(), 0x1234);
}

#[test]
fn hlt_stops_advancing_until_interrupt() {
    // LXI SP,0x0100; EI; HLT.
    let mut cpu = machine_with(&[0x31, 0x00, 0x01, 0xFB, 0x76]);
    cpu.next().unwrap();
    cpu.next().unwrap();
    assert_eq!(cpu.next().unwrap(), 7);
    assert!(cpu.halted);
    let pc = cpu.register.pc;
    // a halted engine idles without advancing PC
    assert_eq!(cpu.next().unwrap(), 4);
    assert_eq!(cpu.register.pc, pc);
    // an accepted interrupt resumes it at the vector
    assert_eq!(cpu.interrupt(0x08), Ok(true));
    assert!(!cpu.halted);
    assert_eq!(cpu.register.pc, 0x08);
}

#[test]
fn interrupt_acceptance_and_rejection() {
    // LXI SP,0x0100; EI.
    let mut cpu = machine_with(&[0x31, 0x00, 0x01, 0xFB]);
    cpu.next().unwrap();
    // disarmed: dropped with no state change
    let pc = cpu.register.pc;
    let sp = cpu.register.sp;
    assert_eq!(cpu.interrupt(0x10), Ok(false));
    assert_eq!(cpu.register.pc, pc);
    assert_eq!(cpu.register.sp, sp);
    cpu.next().unwrap(); // EI
    // armed: prior PC pushed at SP-1/SP-2, PC = vector, disarmed again
    assert_eq!(cpu.interrupt(0x10), Ok(true));
    assert_eq!(cpu.register.pc, 0x10);
    assert_eq!(cpu.register.sp, 0x00FE);
    assert_eq!(cpu.addring.get_mem(0x00FE).unwrap(), 0x04);
    assert_eq!(cpu.addring.get_mem(0x00FF).unwrap(), 0x00);
    assert!(!cpu.int_enabled);
    assert_eq!(cpu.interrupt(0x10), Ok(false));
}

#[test]
fn fault_leaves_machine_unchanged() {
    // a fetch past the end of the address space is unmapped and nothing
    // is applied
    let mut cpu = Cpu::new(TestAddressing::new(vec![0x00]), 0);
    assert_eq!(cpu.next().unwrap(), 4);
    assert_eq!(cpu.register.pc, 1);
    assert_eq!(cpu.next(), Err(MemError::Unmapped));
    assert_eq!(cpu.register.pc, 1);
}

#[test]
fn run_budget_overshoots_by_whole_instructions() {
    // a half-frame budget of 16 executed as NOPs (4 cycles each) breaks
    // only after the fifth instruction: 20 > 16
    let mut cpu = machine_with(&[0x00; 32]);
    assert_eq!(cpu.run_budget(16), Ok(20));
    assert_eq!(cpu.register.pc, 5);
}
