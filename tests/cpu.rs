use gb_emu::cpu::decode::{decode_cb_instr, decode_instr, Instr, UnimplementedOpcode};
use gb_emu::cpu::Cpu;
use gb_emu::gameboy::GameBoy;
use gb_emu::mem::{Bootrom, Cartridge};
use gb_emu::operand::{Imm8, Indirect, Operand8, Reg16, Reg8};
use gb_emu::peripherals::Peripherals;
use gb_emu::registers::{FLAG_C, FLAG_H, FLAG_N, FLAG_Z};

/// A console whose boot overlay holds `program` at address 0.
fn machine(program: &[u8]) -> GameBoy {
    GameBoy::new(Bootrom::new(program.to_vec()), Cartridge::new(Vec::new(), 0))
}

fn run(gb: &mut GameBoy, cycles: usize) {
    for _ in 0..cycles {
        gb.emulate_cycle().unwrap();
    }
}

#[test]
fn power_on_fetches_from_zero() {
    let mut gb = machine(&[0x00, 0x00]);
    run(&mut gb, 1);
    assert_eq!(gb.cpu.regs.pc, 1);
    assert_eq!(gb.cpu.ctx.opcode, 0x00);
}

#[test]
fn ld_bc_round_trip_through_ram() {
    // LD BC,0xC123; LD A,0x99; LD (BC),A; LD A,0; LD A,(BC)
    let mut gb = machine(&[0x01, 0x23, 0xC1, 0x3E, 0x99, 0x02, 0x3E, 0x00, 0x0A, 0x00]);
    // nop 1, LD BC 3, LD A 2, LD (BC) 2, LD A 2, LD A,(BC) 2
    run(&mut gb, 12);
    assert_eq!(gb.cpu.regs.bc(), 0xC123);
    assert_eq!(gb.cpu.regs.a, 0x99);
}

#[test]
fn ld_bc_1234_store_and_reload() {
    // LD BC,0x1234; LD (BC),A with A=0x99; LD A,0; LD A,(BC).
    // 0x1234 is cartridge ROM: the store is dropped and the reload sees
    // the ROM byte there.
    let mut rom = vec![0u8; 0x8000];
    rom[0x1234] = 0x42;
    let program = vec![0x01, 0x34, 0x12, 0x02, 0x3E, 0x00, 0x0A, 0x00];
    let mut gb = GameBoy::new(Bootrom::new(program), Cartridge::new(rom, 0));
    gb.cpu.regs.a = 0x99;
    run(&mut gb, 4);
    assert_eq!(gb.cpu.regs.bc(), 0x1234);
    run(&mut gb, 6);
    assert_eq!(gb.cpu.regs.a, 0x42);
}

#[test]
fn cp_immediate_equal() {
    let mut gb = machine(&[0xFE, 0x10, 0x00]);
    gb.cpu.regs.a = 0x10;
    run(&mut gb, 3);
    assert_eq!(gb.cpu.regs.f & FLAG_Z, FLAG_Z);
    assert_eq!(gb.cpu.regs.f & FLAG_N, FLAG_N);
    assert_eq!(gb.cpu.regs.f & FLAG_H, 0);
    assert_eq!(gb.cpu.regs.f & FLAG_C, 0);
    assert_eq!(gb.cpu.regs.a, 0x10);
    assert_eq!(gb.cpu.regs.pc, 3);
}

#[test]
fn cp_borrow_flags_and_operand_kept() {
    // CP B with A=0x10, B=0x21: borrow from bit 4 and unsigned underflow.
    let mut gb = machine(&[0xB8, 0x00]);
    gb.cpu.regs.a = 0x10;
    gb.cpu.regs.b = 0x21;
    run(&mut gb, 2);
    assert_eq!(gb.cpu.regs.f, FLAG_N | FLAG_H | FLAG_C);
    assert_eq!(gb.cpu.regs.a, 0x10);
    assert_eq!(gb.cpu.regs.b, 0x21);
}

#[test]
fn inc_then_dec_restores_every_value() {
    for v in 0..=255u8 {
        for carry in [false, true] {
            // INC C; DEC C
            let mut gb = machine(&[0x0C, 0x0D, 0x00]);
            gb.cpu.regs.c = v;
            gb.cpu.regs.f = if carry { FLAG_C } else { 0 };
            run(&mut gb, 3);
            assert_eq!(gb.cpu.regs.c, v);
            assert_eq!(gb.cpu.regs.f & FLAG_C != 0, carry);
            // DEC C; INC C
            let mut gb = machine(&[0x0D, 0x0C, 0x00]);
            gb.cpu.regs.c = v;
            gb.cpu.regs.f = if carry { FLAG_C } else { 0 };
            run(&mut gb, 3);
            assert_eq!(gb.cpu.regs.c, v);
            assert_eq!(gb.cpu.regs.f & FLAG_C != 0, carry);
        }
    }
}

#[test]
fn inc_flags_on_nibble_and_wrap() {
    let mut gb = machine(&[0x04, 0x00]);
    gb.cpu.regs.b = 0xFF;
    run(&mut gb, 2);
    assert_eq!(gb.cpu.regs.b, 0x00);
    assert_eq!(gb.cpu.regs.f, FLAG_Z | FLAG_H);
}

#[test]
fn dec_sets_subtract_and_half_carry_on_zero_nibble() {
    let mut gb = machine(&[0x05, 0x00]);
    gb.cpu.regs.b = 0x10;
    run(&mut gb, 2);
    assert_eq!(gb.cpu.regs.b, 0x0F);
    assert_eq!(gb.cpu.regs.f, FLAG_N | FLAG_H);
    let mut gb = machine(&[0x05, 0x00]);
    gb.cpu.regs.b = 0x01;
    run(&mut gb, 2);
    assert_eq!(gb.cpu.regs.b, 0x00);
    assert_eq!(gb.cpu.regs.f, FLAG_Z | FLAG_N);
}

#[test]
fn inc_hl_memory_takes_three_cycles() {
    // LD HL,0xC000; INC (HL)
    let mut gb = machine(&[0x21, 0x00, 0xC0, 0x34, 0x00]);
    run(&mut gb, 4);
    assert_eq!(gb.cpu.regs.hl(), 0xC000);
    gb.peripherals.write(0xC000, 0x0F);
    run(&mut gb, 1);
    assert_eq!(gb.peripherals.read(0xC000), 0x0F);
    run(&mut gb, 1);
    assert_eq!(gb.peripherals.read(0xC000), 0x10);
    assert_eq!(gb.cpu.regs.f, FLAG_H);
    assert_eq!(gb.cpu.regs.pc, 4);
    run(&mut gb, 1);
    assert_eq!(gb.cpu.regs.pc, 5);
}

#[test]
fn inc16_dec16_wrap_without_flags() {
    // INC BC; DEC DE
    let mut gb = machine(&[0x03, 0x1B, 0x00]);
    gb.cpu.regs.write_bc(0xFFFF);
    gb.cpu.regs.write_de(0x0000);
    gb.cpu.regs.f = 0xF0;
    run(&mut gb, 5);
    assert_eq!(gb.cpu.regs.bc(), 0x0000);
    assert_eq!(gb.cpu.regs.de(), 0xFFFF);
    assert_eq!(gb.cpu.regs.f, 0xF0);
}

#[test]
fn push_pop_into_other_pair() {
    // LD SP,0xFFFE; PUSH BC; POP DE
    let mut gb = machine(&[0x31, 0xFE, 0xFF, 0xC5, 0xD1, 0x00]);
    gb.cpu.regs.write_bc(0xBEEF);
    run(&mut gb, 4);
    assert_eq!(gb.cpu.regs.sp, 0xFFFE);
    run(&mut gb, 4);
    assert_eq!(gb.cpu.regs.sp, 0xFFFC);
    assert_eq!(gb.peripherals.read(0xFFFD), 0xBE);
    assert_eq!(gb.peripherals.read(0xFFFC), 0xEF);
    run(&mut gb, 3);
    assert_eq!(gb.cpu.regs.de(), 0xBEEF);
    assert_eq!(gb.cpu.regs.sp, 0xFFFE);
}

#[test]
fn pop_af_clears_low_nibble_of_f() {
    // LD SP,0xFFFE; PUSH BC; POP AF
    let mut gb = machine(&[0x31, 0xFE, 0xFF, 0xC5, 0xF1, 0x00]);
    gb.cpu.regs.write_bc(0x12FF);
    run(&mut gb, 11);
    assert_eq!(gb.cpu.regs.a, 0x12);
    assert_eq!(gb.cpu.regs.f, 0xF0);
}

#[test]
fn jr_cond_not_taken_is_one_cycle_shorter() {
    // JR Z,+5 with Z clear: not taken.
    let mut gb = machine(&[0x28, 0x05, 0x00]);
    run(&mut gb, 2);
    assert_eq!(gb.cpu.regs.pc, 2);
    run(&mut gb, 1);
    assert_eq!(gb.cpu.regs.pc, 3);
    assert_eq!(gb.cpu.ctx.opcode, 0x00);
    assert_eq!(gb.cpu.ctx.step, 0);
}

#[test]
fn jr_cond_taken_lands_after_operand_plus_offset() {
    // JR NZ,+5 with Z clear: taken, to 2 + 5.
    let mut program = vec![0x20, 0x05, 0, 0, 0, 0, 0, 0x00];
    program.push(0x00);
    let mut gb = machine(&program);
    run(&mut gb, 3);
    assert_eq!(gb.cpu.regs.pc, 7);
    assert_eq!(gb.cpu.ctx.step, 1);
    run(&mut gb, 1);
    assert_eq!(gb.cpu.regs.pc, 8);
    assert_eq!(gb.cpu.ctx.step, 0);
}

#[test]
fn jr_backwards_offset() {
    // NOP; NOP; JR -4 lands on address 0.
    let mut gb = machine(&[0x00, 0x00, 0x18, 0xFC]);
    run(&mut gb, 3);
    assert_eq!(gb.cpu.regs.pc, 3);
    run(&mut gb, 2);
    assert_eq!(gb.cpu.regs.pc, 0);
    run(&mut gb, 1);
    assert_eq!(gb.cpu.regs.pc, 1);
}

#[test]
fn call_and_ret() {
    // LD SP,0xFFFE; CALL 0x0010; ... at 0x10: RET
    let mut program = vec![0u8; 0x20];
    program[0..6].copy_from_slice(&[0x31, 0xFE, 0xFF, 0xCD, 0x10, 0x00]);
    program[0x10] = 0xC9;
    let mut gb = machine(&program);
    run(&mut gb, 4);
    run(&mut gb, 6);
    assert_eq!(gb.cpu.regs.pc, 0x11);
    assert_eq!(gb.cpu.regs.sp, 0xFFFC);
    assert_eq!(gb.peripherals.read(0xFFFD), 0x00);
    assert_eq!(gb.peripherals.read(0xFFFC), 0x06);
    run(&mut gb, 4);
    assert_eq!(gb.cpu.regs.pc, 0x07);
    assert_eq!(gb.cpu.regs.sp, 0xFFFE);
}

#[test]
fn reti_ei_di_toggle_ime() {
    // EI; DI; EI
    let mut gb = machine(&[0xFB, 0xF3, 0xFB, 0x00]);
    run(&mut gb, 2);
    assert!(gb.peripherals.interrupts.ime);
    run(&mut gb, 1);
    assert!(!gb.peripherals.interrupts.ime);
    // LD SP,0xFFFC; RETI, with 0x0020 on the stack
    let mut program = vec![0u8; 0x30];
    program[0..4].copy_from_slice(&[0x31, 0xFC, 0xFF, 0xD9]);
    let mut gb = machine(&program);
    gb.peripherals.write(0xFFFC, 0x20);
    gb.peripherals.write(0xFFFD, 0x00);
    run(&mut gb, 8);
    assert_eq!(gb.cpu.regs.pc, 0x21);
    assert!(gb.peripherals.interrupts.ime);
}

#[test]
fn cb_rl_and_bit() {
    // RL C (CB 11) with carry set; BIT 7,H (CB 7C)
    let mut gb = machine(&[0xCB, 0x11, 0xCB, 0x7C, 0x00]);
    gb.cpu.regs.c = 0x80;
    gb.cpu.regs.h = 0x80;
    gb.cpu.regs.f = FLAG_C;
    run(&mut gb, 3);
    assert_eq!(gb.cpu.regs.c, 0x01);
    assert_eq!(gb.cpu.regs.f, FLAG_C);
    run(&mut gb, 2);
    assert_eq!(gb.cpu.regs.f, FLAG_H | FLAG_C);
    assert_eq!(gb.cpu.regs.pc, 5);
}

#[test]
fn bit_of_clear_bit_sets_zero() {
    // BIT 0,A
    let mut gb = machine(&[0xCB, 0x47, 0x00]);
    gb.cpu.regs.a = 0xFE;
    run(&mut gb, 3);
    assert_eq!(gb.cpu.regs.f, FLAG_Z | FLAG_H);
    assert_eq!(gb.cpu.regs.a, 0xFE);
}

#[test]
fn ldh_and_direct_addressing() {
    // LD A,0x5A; LDH (0x80),A; LD (0xC010),A; LD A,0; LDH A,(0x80)
    let mut gb = machine(&[
        0x3E, 0x5A, 0xE0, 0x80, 0xEA, 0x10, 0xC0, 0x3E, 0x00, 0xF0, 0x80, 0x00,
    ]);
    run(&mut gb, 3);
    run(&mut gb, 3);
    assert_eq!(gb.peripherals.read(0xFF80), 0x5A);
    run(&mut gb, 4);
    assert_eq!(gb.peripherals.read(0xC010), 0x5A);
    run(&mut gb, 2);
    assert_eq!(gb.cpu.regs.a, 0);
    run(&mut gb, 3);
    assert_eq!(gb.cpu.regs.a, 0x5A);
}

#[test]
fn ld_hl_increment_and_high_page_c() {
    // LD HL,0xC000; LD (HL+),A; LD (HL-),A; LD C,0x81; LD (C),A
    let mut gb = machine(&[0x21, 0x00, 0xC0, 0x22, 0x32, 0x0E, 0x81, 0xE2, 0x00]);
    gb.cpu.regs.a = 0x77;
    run(&mut gb, 4);
    run(&mut gb, 2);
    assert_eq!(gb.cpu.regs.hl(), 0xC001);
    run(&mut gb, 2);
    assert_eq!(gb.cpu.regs.hl(), 0xC000);
    assert_eq!(gb.peripherals.read(0xC000), 0x77);
    assert_eq!(gb.peripherals.read(0xC001), 0x77);
    run(&mut gb, 4);
    assert_eq!(gb.peripherals.read(0xFF81), 0x77);
}

#[test]
fn ld_direct16_stores_sp_little_endian() {
    // LD SP,0x1234; LD (0xC000),SP
    let mut gb = machine(&[0x31, 0x34, 0x12, 0x08, 0x00, 0xC0, 0x00]);
    run(&mut gb, 4);
    run(&mut gb, 5);
    assert_eq!(gb.peripherals.read(0xC000), 0x34);
    assert_eq!(gb.peripherals.read(0xC001), 0x12);
    assert_eq!(gb.cpu.regs.pc, 7);
}

#[test]
fn unimplemented_opcode_is_reported() {
    let mut gb = machine(&[0x76]);
    gb.emulate_cycle().unwrap();
    let r = gb.emulate_cycle();
    assert_eq!(r, Err(UnimplementedOpcode { opcode: 0x76, prefixed: false }));
    assert_eq!(gb.cpu.regs.pc, 1);
}

#[test]
fn unimplemented_prefixed_opcode_is_reported() {
    let mut gb = machine(&[0xCB, 0x00]);
    gb.emulate_cycle().unwrap();
    gb.emulate_cycle().unwrap();
    let r = gb.emulate_cycle();
    assert_eq!(r, Err(UnimplementedOpcode { opcode: 0x00, prefixed: true }));
}

#[test]
fn decode_tables() {
    assert_eq!(decode_instr(0x00), Instr::Nop);
    assert_eq!(decode_instr(0x41), Instr::Ld(Operand8::Reg(Reg8::B), Operand8::Reg(Reg8::C)));
    assert_eq!(decode_instr(0x7E), Instr::Ld(Operand8::Reg(Reg8::A), Operand8::Ind(Indirect::HL)));
    assert_eq!(decode_instr(0x3E), Instr::Ld(Operand8::Reg(Reg8::A), Operand8::Imm(Imm8)));
    assert_eq!(decode_instr(0xFE), Instr::Cp(Operand8::Imm(Imm8)));
    assert_eq!(decode_instr(0xF5), Instr::Push(Reg16::AF));
    assert_eq!(decode_instr(0xD1), Instr::Pop(Reg16::DE));
    assert_eq!(decode_instr(0x76), Instr::Unknown);
    assert_eq!(decode_instr(0xCB), Instr::Prefix);
    assert_eq!(decode_cb_instr(0x16), Instr::Rl(Operand8::Ind(Indirect::HL)));
    assert_eq!(decode_cb_instr(0x7C), Instr::Bit(7, Operand8::Reg(Reg8::H)));
    assert_eq!(decode_cb_instr(0x00), Instr::Unknown);
}

#[test]
fn operand_layer_immediate_costs_one_cycle() {
    let mut cpu = Cpu::new();
    let bus = Peripherals::new(Bootrom::new(vec![0xAB, 0xCD]), Cartridge::new(Vec::new(), 0));
    assert_eq!(cpu.read8(&bus, Operand8::Imm(Imm8)), None);
    assert_eq!(cpu.regs.pc, 1);
    assert_eq!(cpu.read8(&bus, Operand8::Imm(Imm8)), Some(0xAB));
    assert_eq!(cpu.read8(&bus, Operand8::Reg(Reg8::A)), Some(0));
}
