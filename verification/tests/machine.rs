use somag::gameboy;
use somag::z80;

fn fresh_state(mem: Vec<u8>) -> z80::State {
    z80::initial_state(mem, 127, 0x0)
}

// flag isolation: setting one flag true then false leaves the rest of the
// flag byte exactly as it was, for interesting prior values

fn check_flag_isolation(prior: u8) {
    let setters: [fn(&mut z80::Register, bool); 4] = [
        z80::Register::set_zero_flag,
        z80::Register::set_carry_flag,
        z80::Register::set_half_carry_flag,
        z80::Register::set_n_flag,
    ];
    let masks: [u8; 4] = [1 << 7, 1 << 1, 1 << 5, 1 << 2];
    for k in 0..4 {
        let mut s = fresh_state(Vec::new());
        s.reg.f = prior;
        (setters[k])(&mut s.reg, true);
        (setters[k])(&mut s.reg, false);
        assert_eq!(s.reg.f & !masks[k], prior & !masks[k]);
        assert_eq!(s.reg.f & masks[k], 0);
    }
}

#[test]
fn test_flag_isolation_all_priors() {
    for prior in 0..=255u8 {
        check_flag_isolation(prior);
    }
}

// increment wraparound at 255

#[test]
fn test_inc_a_wraps_at_255() {
    let mut s = fresh_state(Vec::new());
    s.reg.a = 255;
    z80::inc_a(&mut s);
    assert_eq!(s.reg.a, 0);
}

#[test]
fn test_inc_l_wraps_at_255() {
    let mut s = fresh_state(Vec::new());
    s.reg.l = 255;
    z80::inc_l(&mut s);
    assert_eq!(s.reg.l, 0);
}

// no-op leaves a nontrivial state untouched

#[test]
fn test_nop_on_nontrivial_state() {
    let mut s = fresh_state(vec![0x12, 0x34]);
    s.reg.a = 7;
    s.reg.b = 9;
    s.reg.f = 0xA6;
    s.reg.pc = 0x1234;
    let mut t = fresh_state(vec![0x12, 0x34]);
    t.reg.a = 7;
    t.reg.b = 9;
    t.reg.f = 0xA6;
    t.reg.pc = 0x1234;
    z80::nop(&mut s);
    assert_eq!(s, t);
}

// the execution loop

#[test]
fn test_start_unknown_opcode_halts_without_mutation() {
    let mut s = fresh_state(vec![0xEE, 0x01, 0x02]);
    let r = z80::start(&mut s, 1000);
    assert_eq!(r, Err(z80::Fault::UnknownOpcode { op: 0xEE, addr: 0 }));
    assert_eq!(s, fresh_state(vec![0xEE, 0x01, 0x02]));
}

#[test]
fn test_start_runs_nop_then_halts_on_unknown() {
    // NOP at 0, then an unknown opcode at 1
    let mut s = fresh_state(vec![0x00, 0xEE]);
    let r = z80::start(&mut s, 1000);
    assert_eq!(r, Err(z80::Fault::UnknownOpcode { op: 0xEE, addr: 1 }));
    assert_eq!(s.mem, vec![0x00, 0xEE]);
    assert_eq!(s.reg.pc, 1);
}

#[test]
fn test_start_jump_lands_one_past_target() {
    // JP at 0 to target 0x0005; the loop's trailing increment then puts
    // the program counter at 0x0006, where an unknown opcode waits
    let mut mem = vec![0x00u8; 16];
    mem[0] = 0xC3;
    mem[1] = 0x05;
    mem[2] = 0x00;
    mem[6] = 0xEE;
    let mut s = fresh_state(mem);
    let r = z80::start(&mut s, 1000);
    assert_eq!(r, Err(z80::Fault::UnknownOpcode { op: 0xEE, addr: 6 }));
}

#[test]
fn test_start_fetch_out_of_bounds() {
    let mut s = fresh_state(Vec::new());
    let r = z80::start(&mut s, 1000);
    assert_eq!(r, Err(z80::Fault::OutOfBounds { addr: 0 }));
}

#[test]
fn test_start_operand_out_of_bounds() {
    // a jump whose operand bytes lie past the end of memory
    let mut s = fresh_state(vec![0xC3]);
    let r = z80::start(&mut s, 1000);
    assert_eq!(r, Err(z80::Fault::OutOfBounds { addr: 0 }));
}

#[test]
fn test_start_step_budget_exhausted() {
    let mut s = fresh_state(vec![0x00, 0xEE]);
    let r = z80::start(&mut s, 0);
    assert_eq!(r, Ok(()));
    assert_eq!(s, fresh_state(vec![0x00, 0xEE]));

    let r2 = z80::start(&mut s, 1);
    assert_eq!(r2, Ok(()));
    assert_eq!(s.reg.pc, 1);
}

#[test]
fn test_start_counts_retired_instructions() {
    // four NOPs, then an unknown opcode
    let mut s = fresh_state(vec![0x00, 0x00, 0x00, 0x00, 0xEE]);
    let r = z80::start(&mut s, 2);
    assert_eq!(r, Ok(()));
    assert_eq!(s.reg.pc, 2);
    let r2 = z80::start(&mut s, 1000);
    assert_eq!(r2, Err(z80::Fault::UnknownOpcode { op: 0xEE, addr: 4 }));
}

// the opcode table

#[test]
fn test_instruction_set_lookup_hit() {
    let set = z80::instruction_set();
    let instr = set.get(0x00).expect("opcode 0x00 is registered");
    assert_eq!(instr.op, 0x00);
    assert_eq!(instr.effect, z80::Effect::Nop);
    assert_eq!(instr.mnemonic, "NOP");

    let call = set.get(0xCD).expect("opcode 0xCD is registered");
    assert_eq!(call.op, 0xCD);
    assert_eq!(call.effect, z80::Effect::Call);
    assert_eq!(call.mnemonic, "CALL");
}

#[test]
fn test_instruction_set_lookup_miss() {
    let set = z80::instruction_set();
    assert!(set.get(0xEE).is_none());
    assert!(set.get(0x01).is_none());
}

#[test]
fn test_add_instr_registers_an_opcode() {
    let mut set = z80::InstrSet::new();
    set.add_instr(0x29, "ADD HL,HL", z80::Effect::AddHlHl);
    let instr = set.get(0x29).expect("the slot was just filled");
    assert_eq!(instr.op, 0x29);
    assert_eq!(instr.effect, z80::Effect::AddHlHl);
    assert_eq!(instr.mnemonic, "ADD HL,HL");
}

// initial state construction

#[test]
fn test_gameboy_init() {
    let s = gameboy::gameboy_init(vec![0xAB, 0xCD]);
    assert_eq!(s.mem, vec![0xAB, 0xCD]);
    assert_eq!(s.stack, vec![0u8; 127]);
    assert_eq!(s.reg.pc, 0x100);
    assert_eq!(s.reg.sp, 127);
    assert_eq!(s.reg.a, 0);
    assert_eq!(s.reg.f, 0);
}

#[test]
fn test_initial_state_zeroed() {
    let s = z80::initial_state(vec![1, 2, 3], 4, 9);
    assert_eq!(s.mem, vec![1, 2, 3]);
    assert_eq!(s.stack, vec![0, 0, 0, 0]);
    assert_eq!(s.reg.pc, 9);
    assert_eq!(s.reg.sp, 4);
    assert_eq!(
        (s.reg.a, s.reg.b, s.reg.c, s.reg.d, s.reg.e, s.reg.h, s.reg.l, s.reg.f),
        (0, 0, 0, 0, 0, 0, 0, 0)
    );
}

// register pair reads

#[test]
fn test_read_reg_uses_pair_address() {
    let mut mem = vec![0u8; 0x2100];
    mem[0x205F] = 0x77;
    assert_eq!(z80::read_reg(0x20, 0x5F, &mem), 0x77);
}
