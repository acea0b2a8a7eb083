use redgb::cpu::clock::Clock;
use redgb::cpu::cpu_context::CpuContext;
use redgb::cpu::handlers::arithmetic;
use redgb::cpu::handlers::arithmetic_16;
use redgb::cpu::handlers::bitwise;
use redgb::cpu::handlers::jumps;
use redgb::cpu::handlers::loads;
use redgb::cpu::handlers::loads_16;
use redgb::cpu::reg_file::Modes;
use redgb::cpu::reg_file::RegFile;
use redgb::error::GBError;
use redgb::mem::map::MemoryMap;
use redgb::rom::rom_info::ROMInfo;

const Z: u8 = 0x80;
const N: u8 = 0x40;
const H: u8 = 0x20;
const C: u8 = 0x10;

fn machine(program: &[u8]) -> CpuContext {
    let mut rom = vec![0u8; 0x8000];
    rom[0x100..0x100 + program.len()].copy_from_slice(program);
    let info = ROMInfo { title: Vec::new(), cartridge_type: 0, rom_size: 0x8000, ram_size: 0 };
    CpuContext::init(RegFile::new(Modes::DMG), MemoryMap::init_rom(rom, info), Clock::default())
}

#[test]
fn add_ff_to_one_sets_zero_half_carry_and_carry() {
    let mut ctx = machine(&[0xFF]);
    ctx.registers.a = 0x01;
    assert_eq!(arithmetic::add(0xC6, &mut ctx), Ok(()));
    assert_eq!(ctx.registers.a, 0x00);
    assert_eq!(ctx.registers.f, Z | H | C);
    assert_eq!(ctx.registers.pc, 0x101);
    assert_eq!(ctx.clock.t_cycles, 4);
}

#[test]
fn add_register_operand() {
    let mut ctx = machine(&[]);
    ctx.registers.a = 0x3A;
    ctx.registers.b = 0xC6;
    assert_eq!(arithmetic::add(0x80, &mut ctx), Ok(()));
    assert_eq!(ctx.registers.a, 0x00);
    assert_eq!(ctx.registers.f, Z | H | C);
    assert_eq!(ctx.clock.t_cycles, 0);
    ctx.registers.a = 0x08;
    ctx.registers.c = 0x08;
    assert_eq!(arithmetic::add(0x81, &mut ctx), Ok(()));
    assert_eq!(ctx.registers.a, 0x10);
    assert_eq!(ctx.registers.f, H);
}

#[test]
fn adc_adds_the_carry_and_counts_it_in_the_flags() {
    let mut ctx = machine(&[]);
    ctx.registers.a = 0x0F;
    ctx.registers.b = 0x00;
    ctx.registers.f = C;
    assert_eq!(arithmetic::add(0x88, &mut ctx), Ok(()));
    assert_eq!(ctx.registers.a, 0x10);
    assert_eq!(ctx.registers.f, H);
    ctx.registers.a = 0x00;
    ctx.registers.b = 0xFF;
    ctx.registers.f = C;
    assert_eq!(arithmetic::add(0x88, &mut ctx), Ok(()));
    assert_eq!(ctx.registers.a, 0x00);
    assert_eq!(ctx.registers.f, Z | H | C);
    ctx.registers.a = 0x01;
    ctx.registers.b = 0x01;
    ctx.registers.f = 0;
    assert_eq!(arithmetic::add(0x88, &mut ctx), Ok(()));
    assert_eq!(ctx.registers.a, 0x02);
    assert_eq!(ctx.registers.f, 0);
}

#[test]
fn add_reads_the_byte_at_hl_over_the_bus() {
    let mut ctx = machine(&[]);
    ctx.registers.a = 0x10;
    ctx.registers.h = 0xC0;
    ctx.registers.l = 0x00;
    ctx.memory.wram[0] = 0x22;
    assert_eq!(arithmetic::add(0x86, &mut ctx), Ok(()));
    assert_eq!(ctx.registers.a, 0x32);
    assert_eq!(ctx.clock.t_cycles, 4);
}

#[test]
fn sub_sets_borrows() {
    let mut ctx = machine(&[0x01]);
    ctx.registers.a = 0x10;
    assert_eq!(arithmetic::sub(0xD6, &mut ctx), Ok(()));
    assert_eq!(ctx.registers.a, 0x0F);
    assert_eq!(ctx.registers.f, N | H);
    ctx.registers.a = 0x00;
    ctx.registers.b = 0x01;
    assert_eq!(arithmetic::sub(0x90, &mut ctx), Ok(()));
    assert_eq!(ctx.registers.a, 0xFF);
    assert_eq!(ctx.registers.f, N | H | C);
    ctx.registers.a = 0x42;
    assert_eq!(arithmetic::sub(0x97, &mut ctx), Ok(()));
    assert_eq!(ctx.registers.a, 0x00);
    assert_eq!(ctx.registers.f, Z | N);
}

#[test]
fn sbc_takes_the_carry_off_too() {
    let mut ctx = machine(&[]);
    ctx.registers.a = 0x10;
    ctx.registers.b = 0x0F;
    ctx.registers.f = C;
    assert_eq!(arithmetic::sub(0x98, &mut ctx), Ok(()));
    assert_eq!(ctx.registers.a, 0x00);
    assert_eq!(ctx.registers.f, Z | N | H);
    ctx.registers.a = 0x00;
    ctx.registers.b = 0xFF;
    ctx.registers.f = C;
    assert_eq!(arithmetic::sub(0x98, &mut ctx), Ok(()));
    assert_eq!(ctx.registers.a, 0x00);
    assert_eq!(ctx.registers.f, Z | N | H | C);
}

#[test]
fn add_then_sub_gives_a_back() {
    for a in 0..=255u8 {
        for x in [0u8, 1, 0x0F, 0x10, 0x7F, 0x80, 0xFF] {
            let mut ctx = machine(&[x, x]);
            ctx.registers.a = a;
            assert_eq!(arithmetic::add(0xC6, &mut ctx), Ok(()));
            assert_eq!(arithmetic::sub(0xD6, &mut ctx), Ok(()));
            assert_eq!(ctx.registers.a, a);
            assert_eq!(ctx.registers.f & C != 0, a as u16 + x as u16 > 0xFF);
            assert_eq!(ctx.registers.f & N, N);
        }
    }
}

#[test]
fn and_xor_or_set_their_flags() {
    let mut ctx = machine(&[0x0F, 0xFF, 0x00]);
    ctx.registers.a = 0xF0;
    assert_eq!(arithmetic::and(0xE6, &mut ctx), Ok(()));
    assert_eq!(ctx.registers.a, 0x00);
    assert_eq!(ctx.registers.f, Z | H);
    assert_eq!(arithmetic::xor(0xEE, &mut ctx), Ok(()));
    assert_eq!(ctx.registers.a, 0xFF);
    assert_eq!(ctx.registers.f, 0);
    assert_eq!(arithmetic::xor(0xAF, &mut ctx), Ok(()));
    assert_eq!(ctx.registers.a, 0x00);
    assert_eq!(ctx.registers.f, Z);
    assert_eq!(arithmetic::or(0xF6, &mut ctx), Ok(()));
    assert_eq!(ctx.registers.a, 0x00);
    assert_eq!(ctx.registers.f, Z);
    ctx.registers.b = 0x81;
    ctx.registers.f = N | H | C;
    assert_eq!(arithmetic::or(0xB0, &mut ctx), Ok(()));
    assert_eq!(ctx.registers.a, 0x81);
    assert_eq!(ctx.registers.f, 0);
    ctx.registers.c = 0x0F;
    assert_eq!(arithmetic::and(0xA1, &mut ctx), Ok(()));
    assert_eq!(ctx.registers.a, 0x01);
    assert_eq!(ctx.registers.f, H);
}

#[test]
fn cp_compares_and_keeps_a() {
    let mut ctx = machine(&[0x3C, 0x40]);
    ctx.registers.a = 0x3C;
    assert_eq!(arithmetic::cp(0xFE, &mut ctx), Ok(()));
    assert_eq!(ctx.registers.a, 0x3C);
    assert_eq!(ctx.registers.f, Z | N);
    assert_eq!(arithmetic::cp(0xFE, &mut ctx), Ok(()));
    assert_eq!(ctx.registers.a, 0x3C);
    assert_eq!(ctx.registers.f, N | C);
    ctx.registers.b = 0x2F;
    assert_eq!(arithmetic::cp(0xB8, &mut ctx), Ok(()));
    assert_eq!(ctx.registers.f, N | H);
}

#[test]
fn inc_ff_gives_zero_with_half_carry_and_keeps_carry() {
    for carry in [0, C] {
        let mut ctx = machine(&[]);
        ctx.registers.b = 0xFF;
        ctx.registers.f = carry;
        assert_eq!(arithmetic::inc_r8(0x04, &mut ctx, 1), Ok(()));
        assert_eq!(ctx.registers.b, 0x00);
        assert_eq!(ctx.registers.f, Z | H | carry);
    }
}

#[test]
fn dec_zero_gives_ff_with_half_carry_and_keeps_carry() {
    for carry in [0, C] {
        let mut ctx = machine(&[]);
        ctx.registers.b = 0x00;
        ctx.registers.f = Z | carry;
        assert_eq!(arithmetic::inc_r8(0x05, &mut ctx, -1), Ok(()));
        assert_eq!(ctx.registers.b, 0xFF);
        assert_eq!(ctx.registers.f, N | H | carry);
    }
}

#[test]
fn inc_and_dec_of_the_byte_at_hl_take_two_bus_cycles() {
    let mut ctx = machine(&[]);
    ctx.registers.h = 0xC0;
    ctx.registers.l = 0x05;
    ctx.memory.wram[5] = 0x0F;
    assert_eq!(arithmetic::inc_r8(0x34, &mut ctx, 1), Ok(()));
    assert_eq!(ctx.memory.wram[5], 0x10);
    assert_eq!(ctx.registers.f, H | C);
    assert_eq!(ctx.clock.t_cycles, 8);
    assert_eq!(arithmetic::inc_r8(0x35, &mut ctx, -1), Ok(()));
    assert_eq!(ctx.memory.wram[5], 0x0F);
    assert_eq!(ctx.registers.f, N | H | C);
    assert_eq!(ctx.clock.t_cycles, 16);
    ctx.registers.a = 0x01;
    assert_eq!(arithmetic::inc_r8(0x3D, &mut ctx, -1), Ok(()));
    assert_eq!(ctx.registers.a, 0x00);
    assert_eq!(ctx.registers.f, Z | N | C);
}

#[test]
fn inc_of_the_byte_at_hl_in_rom_is_refused() {
    let mut ctx = machine(&[]);
    ctx.registers.h = 0x01;
    ctx.registers.l = 0x00;
    let flags = ctx.registers.f;
    assert_eq!(arithmetic::inc_r8(0x34, &mut ctx, 1), Err(GBError::ReadOnlyAddress(0x0100)));
    assert_eq!(ctx.registers.f, flags);
    assert_eq!(ctx.clock.t_cycles, 8);
}

#[test]
fn daa_after_adding_15_and_27_gives_42() {
    let mut ctx = machine(&[0x15, 0x27]);
    ctx.registers.a = 0x00;
    assert_eq!(arithmetic::add(0xC6, &mut ctx), Ok(()));
    assert_eq!(arithmetic::add(0xC6, &mut ctx), Ok(()));
    assert_eq!(ctx.registers.a, 0x3C);
    assert_eq!(arithmetic::daa(&mut ctx), Ok(()));
    assert_eq!(ctx.registers.a, 0x42);
    assert_eq!(ctx.registers.f, 0);
}

#[test]
fn daa_in_its_other_cases() {
    let mut ctx = machine(&[]);
    ctx.registers.a = 0x9A;
    ctx.registers.f = 0;
    assert_eq!(arithmetic::daa(&mut ctx), Ok(()));
    assert_eq!(ctx.registers.a, 0x00);
    assert_eq!(ctx.registers.f, Z | C);
    ctx.registers.a = 0x12;
    ctx.registers.f = H;
    assert_eq!(arithmetic::daa(&mut ctx), Ok(()));
    assert_eq!(ctx.registers.a, 0x18);
    assert_eq!(ctx.registers.f, 0);
    ctx.registers.a = 0x0F;
    ctx.registers.f = N | H;
    assert_eq!(arithmetic::daa(&mut ctx), Ok(()));
    assert_eq!(ctx.registers.a, 0x09);
    assert_eq!(ctx.registers.f, N);
    ctx.registers.a = 0x40;
    ctx.registers.f = N | C;
    assert_eq!(arithmetic::daa(&mut ctx), Ok(()));
    assert_eq!(ctx.registers.a, 0xE0);
    assert_eq!(ctx.registers.f, N | C);
    ctx.registers.a = 0x66;
    ctx.registers.f = N | H | C;
    assert_eq!(arithmetic::daa(&mut ctx), Ok(()));
    assert_eq!(ctx.registers.a, 0x00);
    assert_eq!(ctx.registers.f, Z | N | C);
}

#[test]
fn inc_and_dec_r16_wrap_and_leave_the_flags() {
    let mut ctx = machine(&[]);
    ctx.registers.b = 0xFF;
    ctx.registers.c = 0xFF;
    let flags = ctx.registers.f;
    assert_eq!(arithmetic_16::inc_r16(0x03, &mut ctx, 1), Ok(()));
    assert_eq!((ctx.registers.b, ctx.registers.c), (0x00, 0x00));
    assert_eq!(arithmetic_16::inc_r16(0x0B, &mut ctx, -1), Ok(()));
    assert_eq!((ctx.registers.b, ctx.registers.c), (0xFF, 0xFF));
    ctx.registers.sp = 0x0000;
    assert_eq!(arithmetic_16::inc_r16(0x3B, &mut ctx, -1), Ok(()));
    assert_eq!(ctx.registers.sp, 0xFFFF);
    assert_eq!(arithmetic_16::inc_r16(0x33, &mut ctx, 1), Ok(()));
    assert_eq!(ctx.registers.sp, 0x0000);
    assert_eq!(ctx.registers.f, flags);
    assert_eq!(ctx.clock.t_cycles, 16);
}

#[test]
fn add_hl_carries_out_of_bit_11_and_bit_15() {
    let mut ctx = machine(&[]);
    ctx.registers.h = 0x0F;
    ctx.registers.l = 0xFF;
    ctx.registers.b = 0x00;
    ctx.registers.c = 0x01;
    ctx.registers.f = Z | N;
    assert_eq!(arithmetic_16::add_hl(0x09, &mut ctx), Ok(()));
    assert_eq!((ctx.registers.h, ctx.registers.l), (0x10, 0x00));
    assert_eq!(ctx.registers.f, Z | H);
    assert_eq!(ctx.clock.t_cycles, 4);
    ctx.registers.h = 0x80;
    ctx.registers.l = 0x00;
    ctx.registers.f = 0;
    assert_eq!(arithmetic_16::add_hl(0x29, &mut ctx), Ok(()));
    assert_eq!((ctx.registers.h, ctx.registers.l), (0x00, 0x00));
    assert_eq!(ctx.registers.f, C);
    ctx.registers.h = 0x00;
    ctx.registers.l = 0x01;
    ctx.registers.sp = 0xFFFF;
    assert_eq!(arithmetic_16::add_hl(0x39, &mut ctx), Ok(()));
    assert_eq!((ctx.registers.h, ctx.registers.l), (0x00, 0x00));
    assert_eq!(ctx.registers.f, H | C);
}

#[test]
fn add_sp_takes_its_flags_from_the_low_byte() {
    let mut ctx = machine(&[0x01, 0xFF, 0x80]);
    ctx.registers.sp = 0x00FF;
    assert_eq!(arithmetic_16::add_sp_delta(&mut ctx), Ok(()));
    assert_eq!(ctx.registers.sp, 0x0100);
    assert_eq!(ctx.registers.f, H | C);
    assert_eq!(ctx.clock.t_cycles, 12);
    assert_eq!(arithmetic_16::add_sp_delta(&mut ctx), Ok(()));
    assert_eq!(ctx.registers.sp, 0x00FF);
    assert_eq!(ctx.registers.f, 0);
    ctx.registers.sp = 0x0000;
    assert_eq!(arithmetic_16::add_sp_delta(&mut ctx), Ok(()));
    assert_eq!(ctx.registers.sp, 0xFF80);
    assert_eq!(ctx.registers.f, 0);
}

#[test]
fn ld_hl_sp_plus_zero_leaves_hl_equal_to_sp() {
    let mut ctx = machine(&[0x00]);
    ctx.registers.sp = 0xBEEF;
    ctx.registers.f = Z | N | H | C;
    assert_eq!(loads_16::ld_hl_sp_delta(&mut ctx), Ok(()));
    assert_eq!((ctx.registers.h, ctx.registers.l), (0xBE, 0xEF));
    assert_eq!(ctx.registers.sp, 0xBEEF);
    assert_eq!(ctx.registers.f, 0);
    assert_eq!(ctx.clock.t_cycles, 8);
}

#[test]
fn ld_hl_sp_minus_one() {
    let mut ctx = machine(&[0xFF]);
    ctx.registers.sp = 0x0000;
    assert_eq!(loads_16::ld_hl_sp_delta(&mut ctx), Ok(()));
    assert_eq!((ctx.registers.h, ctx.registers.l), (0xFF, 0xFF));
    assert_eq!(ctx.registers.f, 0);
    let mut ctx = machine(&[0xFF]);
    ctx.registers.sp = 0x0001;
    assert_eq!(loads_16::ld_hl_sp_delta(&mut ctx), Ok(()));
    assert_eq!((ctx.registers.h, ctx.registers.l), (0x00, 0x00));
    assert_eq!(ctx.registers.f, H | C);
}

#[test]
fn rotates_of_the_cb_block() {
    let mut ctx = machine(&[]);
    ctx.registers.b = 0x85;
    ctx.registers.f = 0;
    assert_eq!(bitwise::rotate_to_carry(0x00, &mut ctx), Ok(()));
    assert_eq!(ctx.registers.b, 0x0B);
    assert_eq!(ctx.registers.f, C);
    ctx.registers.c = 0x01;
    ctx.registers.f = 0;
    assert_eq!(bitwise::rotate_to_carry(0x09, &mut ctx), Ok(()));
    assert_eq!(ctx.registers.c, 0x80);
    assert_eq!(ctx.registers.f, C);
    ctx.registers.d = 0x80;
    ctx.registers.f = 0;
    assert_eq!(bitwise::rotate_to_carry(0x12, &mut ctx), Ok(()));
    assert_eq!(ctx.registers.d, 0x00);
    assert_eq!(ctx.registers.f, Z | C);
    ctx.registers.e = 0x01;
    ctx.registers.f = C;
    assert_eq!(bitwise::rotate_to_carry(0x1B, &mut ctx), Ok(()));
    assert_eq!(ctx.registers.e, 0x80);
    assert_eq!(ctx.registers.f, C);
    assert_eq!(ctx.clock.t_cycles, 0);
}

#[test]
fn shifts_of_the_cb_block() {
    let mut ctx = machine(&[]);
    ctx.registers.b = 0x81;
    assert_eq!(bitwise::shift_to_carry(0x20, &mut ctx), Ok(()));
    assert_eq!(ctx.registers.b, 0x02);
    assert_eq!(ctx.registers.f, C);
    ctx.registers.b = 0x81;
    assert_eq!(bitwise::shift_to_carry(0x28, &mut ctx), Ok(()));
    assert_eq!(ctx.registers.b, 0xC0);
    assert_eq!(ctx.registers.f, C);
    ctx.registers.b = 0x81;
    assert_eq!(bitwise::shift_to_carry(0x38, &mut ctx), Ok(()));
    assert_eq!(ctx.registers.b, 0x40);
    assert_eq!(ctx.registers.f, C);
    ctx.registers.b = 0x01;
    assert_eq!(bitwise::shift_to_carry(0x38, &mut ctx), Ok(()));
    assert_eq!(ctx.registers.b, 0x00);
    assert_eq!(ctx.registers.f, Z | C);
    ctx.registers.a = 0x40;
    assert_eq!(bitwise::shift_to_carry(0x2F, &mut ctx), Ok(()));
    assert_eq!(ctx.registers.a, 0x20);
    assert_eq!(ctx.registers.f, 0);
}

#[test]
fn swap_exchanges_the_nibbles() {
    let mut ctx = machine(&[]);
    ctx.registers.a = 0xA5;
    ctx.registers.f = Z | N | H | C;
    assert_eq!(bitwise::swap(0x37, &mut ctx), Ok(()));
    assert_eq!(ctx.registers.a, 0x5A);
    assert_eq!(ctx.registers.f, 0);
    ctx.registers.a = 0x00;
    assert_eq!(bitwise::swap(0x37, &mut ctx), Ok(()));
    assert_eq!(ctx.registers.f, Z);
}

#[test]
fn cb_operations_on_the_byte_at_hl_read_and_write_over_the_bus() {
    let mut ctx = machine(&[]);
    ctx.registers.h = 0xC0;
    ctx.registers.l = 0x00;
    ctx.memory.wram[0] = 0xF0;
    assert_eq!(bitwise::swap(0x36, &mut ctx), Ok(()));
    assert_eq!(ctx.memory.wram[0], 0x0F);
    assert_eq!(ctx.clock.t_cycles, 8);
    assert_eq!(bitwise::set_bit(0xFE, &mut ctx), Ok(()));
    assert_eq!(ctx.memory.wram[0], 0x8F);
    assert_eq!(ctx.clock.t_cycles, 16);
    assert_eq!(bitwise::reset_bit(0x86, &mut ctx), Ok(()));
    assert_eq!(ctx.memory.wram[0], 0x8E);
    assert_eq!(ctx.clock.t_cycles, 24);
    assert_eq!(bitwise::test_bit(0x7E, &mut ctx), Ok(()));
    assert_eq!(ctx.memory.wram[0], 0x8E);
    assert_eq!(ctx.clock.t_cycles, 28);
}

#[test]
fn bit_tests_and_never_changes_its_operand() {
    let mut ctx = machine(&[]);
    ctx.registers.b = 0b0000_1000;
    ctx.registers.f = C;
    assert_eq!(bitwise::test_bit(0x58, &mut ctx), Ok(()));
    assert_eq!(ctx.registers.f, H | C);
    assert_eq!(ctx.registers.b, 0b0000_1000);
    assert_eq!(bitwise::test_bit(0x60, &mut ctx), Ok(()));
    assert_eq!(ctx.registers.f, Z | H | C);
    assert_eq!(ctx.registers.b, 0b0000_1000);
    for opcode in 0x40..=0x7Fu8 {
        let mut ctx = machine(&[]);
        ctx.registers.h = 0xC0;
        ctx.memory.wram[0x4D] = 0x5A;
        let before = ctx.registers;
        assert_eq!(bitwise::test_bit(opcode, &mut ctx), Ok(()));
        let mut after = ctx.registers;
        after.f = before.f;
        assert_eq!(after, before);
        assert_eq!(ctx.memory.wram[0x4D], 0x5A);
    }
}

#[test]
fn set_then_res_gives_the_value_back() {
    for bit in 0..8u8 {
        for value in [0x00u8, 0x55, 0xAA, 0xFF] {
            let mut ctx = machine(&[]);
            ctx.registers.d = value;
            assert_eq!(bitwise::set_bit(0xC2 | (bit << 3), &mut ctx), Ok(()));
            assert_eq!(ctx.registers.d, value | (1 << bit));
            assert_eq!(bitwise::reset_bit(0x82 | (bit << 3), &mut ctx), Ok(()));
            assert_eq!(ctx.registers.d, value & !(1 << bit));
            if value & (1 << bit) == 0 {
                assert_eq!(ctx.registers.d, value);
            }
            assert_eq!(ctx.registers.f, 0xB0);
        }
    }
}

#[test]
fn jp_and_jr() {
    let mut ctx = machine(&[0x34, 0x12]);
    assert_eq!(jumps::jmp(&mut ctx, 0xC3, false), Ok(()));
    assert_eq!(ctx.registers.pc, 0x1234);
    assert_eq!(ctx.clock.t_cycles, 12);
    let mut ctx = machine(&[0x34, 0x12]);
    ctx.registers.f = Z;
    assert_eq!(jumps::jmp(&mut ctx, 0xC2, false), Ok(()));
    assert_eq!(ctx.registers.pc, 0x102);
    assert_eq!(ctx.clock.t_cycles, 8);
    let mut ctx = machine(&[0xFE]);
    assert_eq!(jumps::jmp(&mut ctx, 0x18, true), Ok(()));
    assert_eq!(ctx.registers.pc, 0x0FF);
    assert_eq!(ctx.clock.t_cycles, 8);
    let mut ctx = machine(&[0x7F]);
    ctx.registers.f = C;
    assert_eq!(jumps::jmp(&mut ctx, 0x38, true), Ok(()));
    assert_eq!(ctx.registers.pc, 0x180);
    let mut ctx = machine(&[0x7F]);
    ctx.registers.f = C;
    assert_eq!(jumps::jmp(&mut ctx, 0x30, true), Ok(()));
    assert_eq!(ctx.registers.pc, 0x101);
    assert_eq!(ctx.clock.t_cycles, 4);
}

#[test]
fn call_pushes_the_return_address() {
    let mut ctx = machine(&[0x00, 0x20]);
    assert_eq!(jumps::call(&mut ctx, 0xCD), Ok(()));
    assert_eq!(ctx.registers.pc, 0x2000);
    assert_eq!(ctx.registers.sp, 0xFFFC);
    assert_eq!(ctx.memory.hram[0x7D], 0x01);
    assert_eq!(ctx.memory.hram[0x7C], 0x02);
    assert_eq!(ctx.clock.t_cycles, 20);
}

#[test]
fn a_conditional_call_not_taken_only_fetches() {
    let mut ctx = machine(&[0x00, 0x20]);
    ctx.registers.f = 0;
    assert_eq!(jumps::call(&mut ctx, 0xCC), Ok(()));
    assert_eq!(ctx.registers.pc, 0x102);
    assert_eq!(ctx.registers.sp, 0xFFFE);
    assert_eq!(ctx.clock.t_cycles, 8);
    assert_eq!(jumps::call(&mut ctx, 0xC4), Ok(()));
    assert_eq!(ctx.registers.pc, 0x0000);
    assert_eq!(ctx.registers.sp, 0xFFFC);
}

#[test]
fn a_call_with_the_stack_in_rom_is_refused() {
    let mut ctx = machine(&[0x00, 0x20]);
    ctx.registers.sp = 0x4000;
    assert_eq!(jumps::call(&mut ctx, 0xCD), Err(GBError::ReadOnlyAddress(0x3FFF)));
    assert_eq!(ctx.registers.pc, 0x102);
}

#[test]
fn ret_pops_the_return_address() {
    let mut ctx = machine(&[]);
    ctx.registers.sp = 0xFFFC;
    ctx.memory.hram[0x7C] = 0x03;
    ctx.memory.hram[0x7D] = 0x01;
    assert_eq!(jumps::ret(&mut ctx, 0xC9), Ok(()));
    assert_eq!(ctx.registers.pc, 0x0103);
    assert_eq!(ctx.registers.sp, 0xFFFE);
    assert_eq!(ctx.clock.t_cycles, 12);
    assert!(!ctx.ime);
}

#[test]
fn only_a_conditional_ret_pays_for_its_condition() {
    let mut ctx = machine(&[]);
    ctx.registers.sp = 0xFFFC;
    ctx.memory.hram[0x7C] = 0x03;
    ctx.memory.hram[0x7D] = 0x01;
    ctx.registers.f = 0;
    assert_eq!(jumps::ret(&mut ctx, 0xC8), Ok(()));
    assert_eq!(ctx.registers.pc, 0x0100);
    assert_eq!(ctx.registers.sp, 0xFFFC);
    assert_eq!(ctx.clock.t_cycles, 4);
    assert_eq!(jumps::ret(&mut ctx, 0xC0), Ok(()));
    assert_eq!(ctx.registers.pc, 0x0103);
    assert_eq!(ctx.registers.sp, 0xFFFE);
    assert_eq!(ctx.clock.t_cycles, 20);
}

#[test]
fn reti_sets_the_interrupt_latch() {
    let mut ctx = machine(&[]);
    ctx.registers.sp = 0xFFFC;
    ctx.memory.hram[0x7C] = 0x50;
    ctx.memory.hram[0x7D] = 0x01;
    assert_eq!(jumps::ret(&mut ctx, 0xD9), Ok(()));
    assert_eq!(ctx.registers.pc, 0x0150);
    assert!(ctx.ime);
    assert_eq!(ctx.clock.t_cycles, 12);
}

#[test]
fn rst_calls_its_vector() {
    for vector in 0..8u8 {
        let mut ctx = machine(&[]);
        ctx.registers.pc = 0x1234;
        assert_eq!(jumps::rst(&mut ctx, 0xC7 | (vector << 3)), Ok(()));
        assert_eq!(ctx.registers.pc, 8 * vector as u16);
        assert_eq!(ctx.registers.sp, 0xFFFC);
        assert_eq!(ctx.memory.hram[0x7D], 0x12);
        assert_eq!(ctx.memory.hram[0x7C], 0x34);
        assert_eq!(ctx.clock.t_cycles, 12);
    }
}

#[test]
fn ld_r8_r8_and_ld_r8_n8() {
    let mut ctx = machine(&[0x77, 0x88]);
    ctx.registers.c = 0x42;
    assert_eq!(loads::load8(&mut ctx, 0x41), Ok(()));
    assert_eq!(ctx.registers.b, 0x42);
    assert_eq!(ctx.clock.t_cycles, 0);
    assert_eq!(loads::load8(&mut ctx, 0x3E), Ok(()));
    assert_eq!(ctx.registers.a, 0x77);
    assert_eq!(ctx.clock.t_cycles, 4);
    ctx.registers.h = 0xC0;
    ctx.registers.l = 0x10;
    assert_eq!(loads::load8(&mut ctx, 0x36), Ok(()));
    assert_eq!(ctx.memory.wram[0x10], 0x88);
    assert_eq!(ctx.clock.t_cycles, 12);
    assert_eq!(loads::load8(&mut ctx, 0x56), Ok(()));
    assert_eq!(ctx.registers.d, 0x88);
    assert_eq!(loads::load8(&mut ctx, 0x70), Ok(()));
    assert_eq!(ctx.memory.wram[0x10], 0x42);
    assert_eq!(ctx.registers.f, 0xB0);
}

#[test]
fn ld_r16_n16() {
    let mut ctx = machine(&[0x34, 0x12, 0x78, 0x56]);
    assert_eq!(loads_16::load_r16_imm16(&mut ctx, 0x21), Ok(()));
    assert_eq!((ctx.registers.h, ctx.registers.l), (0x12, 0x34));
    assert_eq!(loads_16::load_r16_imm16(&mut ctx, 0x31), Ok(()));
    assert_eq!(ctx.registers.sp, 0x5678);
    assert_eq!(ctx.registers.pc, 0x104);
    assert_eq!(ctx.clock.t_cycles, 16);
}

#[test]
fn loads_through_hl_move_hl_afterwards() {
    let mut ctx = machine(&[]);
    ctx.registers.a = 0x5A;
    ctx.registers.h = 0xC0;
    ctx.registers.l = 0xFF;
    assert_eq!(loads_16::load_r16mem_a(0x22, &mut ctx), Ok(()));
    assert_eq!(ctx.memory.wram[0xFF], 0x5A);
    assert_eq!((ctx.registers.h, ctx.registers.l), (0xC1, 0x00));
    assert_eq!(loads_16::load_r16mem_a(0x32, &mut ctx), Ok(()));
    assert_eq!(ctx.memory.wram[0x100], 0x5A);
    assert_eq!((ctx.registers.h, ctx.registers.l), (0xC0, 0xFF));
    ctx.registers.a = 0;
    assert_eq!(loads_16::load_a_r16mem(0x2A, &mut ctx), Ok(()));
    assert_eq!(ctx.registers.a, 0x5A);
    assert_eq!((ctx.registers.h, ctx.registers.l), (0xC1, 0x00));
    ctx.memory.wram[0x100] = 0x6B;
    assert_eq!(loads_16::load_a_r16mem(0x3A, &mut ctx), Ok(()));
    assert_eq!(ctx.registers.a, 0x6B);
    assert_eq!((ctx.registers.h, ctx.registers.l), (0xC0, 0xFF));
    ctx.registers.b = 0xC0;
    ctx.registers.c = 0x02;
    assert_eq!(loads_16::load_r16mem_a(0x02, &mut ctx), Ok(()));
    assert_eq!(ctx.memory.wram[2], 0x6B);
    assert_eq!((ctx.registers.b, ctx.registers.c), (0xC0, 0x02));
    ctx.registers.d = 0xC0;
    ctx.registers.e = 0xFF;
    assert_eq!(loads_16::load_a_r16mem(0x1A, &mut ctx), Ok(()));
    assert_eq!(ctx.registers.a, 0x5A);
    assert_eq!(ctx.clock.t_cycles, 24);
}

#[test]
fn a_store_through_hl_into_rom_leaves_hl() {
    let mut ctx = machine(&[]);
    ctx.registers.h = 0x20;
    ctx.registers.l = 0x00;
    assert_eq!(loads_16::load_r16mem_a(0x22, &mut ctx), Err(GBError::ReadOnlyAddress(0x2000)));
    assert_eq!((ctx.registers.h, ctx.registers.l), (0x20, 0x00));
}

#[test]
fn ld_n16_sp_stores_sp_for_a_load_to_read_back() {
    let mut ctx = machine(&[0x00, 0xC1]);
    ctx.registers.sp = 0xBEEF;
    assert_eq!(loads_16::ld_n16_sp(&mut ctx), Ok(()));
    assert_eq!(ctx.memory.wram[0x100], 0xEF);
    assert_eq!(ctx.memory.wram[0x101], 0xBE);
    assert_eq!(ctx.clock.t_cycles, 16);
    let lo = ctx.read(0xC100).unwrap();
    let hi = ctx.read(0xC101).unwrap();
    assert_eq!(redgb::cpu::alu::read_u16(&lo, &hi), 0xBEEF);
    assert_eq!(ctx.registers.sp, 0xBEEF);
}

#[test]
fn ld_n16_a_and_ld_a_n16() {
    let mut ctx = machine(&[0x00, 0xC2, 0x00, 0xC2]);
    ctx.registers.a = 0x99;
    assert_eq!(loads_16::ld_n16_a(&mut ctx), Ok(()));
    assert_eq!(ctx.memory.wram[0x200], 0x99);
    assert_eq!(ctx.clock.t_cycles, 12);
    ctx.registers.a = 0x00;
    assert_eq!(loads_16::ld_a_n16(&mut ctx), Ok(()));
    assert_eq!(ctx.registers.a, 0x99);
    assert_eq!(ctx.clock.t_cycles, 24);
}

#[test]
fn push_and_pop() {
    let mut ctx = machine(&[]);
    ctx.registers.b = 0x12;
    ctx.registers.c = 0x34;
    assert_eq!(loads_16::push(0xC5, &mut ctx), Ok(()));
    assert_eq!(ctx.registers.sp, 0xFFFC);
    assert_eq!(ctx.memory.hram[0x7D], 0x12);
    assert_eq!(ctx.memory.hram[0x7C], 0x34);
    assert_eq!(ctx.clock.t_cycles, 12);
    assert_eq!(loads_16::pop(0xD1, &mut ctx), Ok(()));
    assert_eq!((ctx.registers.d, ctx.registers.e), (0x12, 0x34));
    assert_eq!(ctx.registers.sp, 0xFFFE);
    assert_eq!(ctx.clock.t_cycles, 20);
}

#[test]
fn pop_af_then_push_af_clears_the_low_nibble_of_the_stacked_word() {
    let mut ctx = machine(&[]);
    ctx.registers.sp = 0xC000;
    ctx.memory.wram[0] = 0xFF;
    ctx.memory.wram[1] = 0x12;
    assert_eq!(loads_16::pop(0xF1, &mut ctx), Ok(()));
    assert_eq!((ctx.registers.a, ctx.registers.f), (0x12, 0xF0));
    assert_eq!(ctx.registers.sp, 0xC002);
    assert_eq!(loads_16::push(0xF5, &mut ctx), Ok(()));
    assert_eq!(ctx.registers.sp, 0xC000);
    assert_eq!(ctx.memory.wram[0], 0xF0);
    assert_eq!(ctx.memory.wram[1], 0x12);
}

#[test]
fn the_stack_pointer_wraps() {
    let mut ctx = machine(&[]);
    ctx.registers.sp = 0x0000;
    ctx.registers.b = 0xAB;
    ctx.registers.c = 0xCD;
    assert_eq!(loads_16::push(0xC5, &mut ctx), Ok(()));
    assert_eq!(ctx.registers.sp, 0xFFFE);
    assert_eq!(ctx.memory.ie, 0xAB);
    assert_eq!(ctx.memory.hram[0x7E], 0xCD);
    assert_eq!(loads_16::pop(0xE1, &mut ctx), Ok(()));
    assert_eq!(ctx.registers.sp, 0x0000);
    assert_eq!((ctx.registers.h, ctx.registers.l), (0xAB, 0xCD));
}
