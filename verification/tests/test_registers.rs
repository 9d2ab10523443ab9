use rustboy_lib::cpu::instructions::{BitPosition, RegisterTarget};
use rustboy_lib::cpu::registers::{FlagsRegister, Registers};
use rustboy_lib::cpu::CPU;

fn flags(zero: bool, subtract: bool, half_carry: bool, carry: bool) -> FlagsRegister {
    FlagsRegister { zero, subtract, half_carry, carry }
}

fn sample_registers() -> Registers {
    Registers { a: 1, b: 2, c: 3, d: 4, e: 5, f: flags(false, false, false, false), h: 6, l: 7 }
}

const TARGETS: [RegisterTarget; 7] = [
    RegisterTarget::A,
    RegisterTarget::B,
    RegisterTarget::C,
    RegisterTarget::D,
    RegisterTarget::E,
    RegisterTarget::H,
    RegisterTarget::L,
];

#[test]
fn flags_new_is_clear() {
    let f = FlagsRegister::new();
    assert_eq!(f, flags(false, false, false, false));
    assert_eq!(u8::from(f), 0);
}

#[test]
fn registers_new_is_all_zero() {
    let r = Registers::new();
    assert_eq!(
        r,
        Registers { a: 0, b: 0, c: 0, d: 0, e: 0, f: flags(false, false, false, false), h: 0, l: 0 }
    );
}

#[test]
fn cpu_new_is_all_zero() {
    let cpu = CPU::new();
    assert_eq!(cpu.registers, Registers::new());
    assert_eq!(cpu.registers.get_af(), 0);
    assert_eq!(cpu.registers.get_bc(), 0);
    assert_eq!(cpu.registers.get_de(), 0);
    assert_eq!(cpu.registers.get_hl(), 0);
}

#[test]
fn flags_pack_each_flag_into_its_bit() {
    assert_eq!(u8::from(flags(true, false, false, false)), 0x80);
    assert_eq!(u8::from(flags(false, true, false, false)), 0x40);
    assert_eq!(u8::from(flags(false, false, true, false)), 0x20);
    assert_eq!(u8::from(flags(false, false, false, true)), 0x10);
    assert_eq!(u8::from(flags(true, true, true, true)), 0xF0);
    assert_eq!(u8::from(flags(true, false, false, true)), 0x90);
}

#[test]
fn flags_unpack_ignores_low_nibble() {
    assert_eq!(FlagsRegister::from(0xFF), flags(true, true, true, true));
    assert_eq!(FlagsRegister::from(0x0F), flags(false, false, false, false));
    assert_eq!(FlagsRegister::from(0x90), flags(true, false, false, true));
    assert_eq!(FlagsRegister::from(0x6A), flags(false, true, true, false));
    assert_eq!(FlagsRegister::from(0x00), flags(false, false, false, false));
}

#[test]
fn flags_round_trip_for_every_combination() {
    for bits in 0..16u8 {
        let f = flags(bits & 8 != 0, bits & 4 != 0, bits & 2 != 0, bits & 1 != 0);
        let byte = u8::from(f);
        assert_eq!(byte & 0x0F, 0);
        assert_eq!(byte, bits << 4);
        assert_eq!(FlagsRegister::from(byte), f);
    }
}

#[test]
fn byte_round_trip_drops_low_nibble() {
    for byte in 0..=255u8 {
        assert_eq!(u8::from(FlagsRegister::from(byte)), byte & 0xF0);
    }
}

#[test]
fn pairs_read_high_byte_first() {
    let mut r = sample_registers();
    assert_eq!(r.get_bc(), 0x0203);
    assert_eq!(r.get_de(), 0x0405);
    assert_eq!(r.get_hl(), 0x0607);
    assert_eq!(r.get_af(), 0x0100);
    r.f = flags(true, false, false, true);
    assert_eq!(r.get_af(), 0x0190);
    r.a = 0xFF;
    r.f = flags(true, true, true, true);
    assert_eq!(r.get_af(), 0xFFF0);
}

#[test]
fn set_bc_writes_only_b_and_c() {
    let mut r = sample_registers();
    r.set_bc(0xABCD);
    assert_eq!(r, Registers { b: 0xAB, c: 0xCD, ..sample_registers() });
    assert_eq!(r.get_bc(), 0xABCD);
}

#[test]
fn set_de_writes_only_d_and_e() {
    let mut r = sample_registers();
    r.set_de(0x00FF);
    assert_eq!(r, Registers { d: 0x00, e: 0xFF, ..sample_registers() });
    assert_eq!(r.get_de(), 0x00FF);
}

#[test]
fn set_hl_writes_only_h_and_l() {
    let mut r = sample_registers();
    r.set_hl(0xFF00);
    assert_eq!(r, Registers { h: 0xFF, l: 0x00, ..sample_registers() });
    assert_eq!(r.get_hl(), 0xFF00);
}

#[test]
fn set_af_masks_the_low_nibble() {
    let mut r = sample_registers();
    r.set_af(0x12FF);
    assert_eq!(r, Registers { a: 0x12, f: flags(true, true, true, true), ..sample_registers() });
    assert_eq!(r.get_af(), 0x12F0);
    r.set_af(0x340F);
    assert_eq!(r.a, 0x34);
    assert_eq!(r.f, flags(false, false, false, false));
    assert_eq!(r.get_af(), 0x3400);
    r.set_af(0x0050);
    assert_eq!(r.a, 0);
    assert_eq!(r.f, flags(false, true, false, true));
}

#[test]
fn pairs_round_trip_for_every_value() {
    let mut r = sample_registers();
    for value in 0..=0xFFFFu16 {
        r.set_bc(value);
        assert_eq!(r.get_bc(), value);
        r.set_de(value);
        assert_eq!(r.get_de(), value);
        r.set_hl(value);
        assert_eq!(r.get_hl(), value);
        r.set_af(value);
        assert_eq!(r.get_af(), value & 0xFFF0);
    }
    assert_eq!(r.a, 0xFF);
}

#[test]
fn bit_position_converts_to_its_index() {
    assert_eq!(u8::from(BitPosition::B0), 0);
    assert_eq!(u8::from(BitPosition::B1), 1);
    assert_eq!(u8::from(BitPosition::B2), 2);
    assert_eq!(u8::from(BitPosition::B3), 3);
    assert_eq!(u8::from(BitPosition::B4), 4);
    assert_eq!(u8::from(BitPosition::B5), 5);
    assert_eq!(u8::from(BitPosition::B6), 6);
    assert_eq!(u8::from(BitPosition::B7), 7);
}

#[test]
fn target_registers_are_read_by_name() {
    let cpu = CPU { registers: sample_registers() };
    let expected: [u8; 7] = [1, 2, 3, 4, 5, 6, 7];
    for (target, value) in TARGETS.iter().zip(expected.iter()) {
        assert_eq!(cpu.get_target_register(target), *value);
    }
}

#[test]
fn target_registers_are_written_one_at_a_time() {
    let expected: [Registers; 7] = [
        Registers { a: 0x99, ..sample_registers() },
        Registers { b: 0x99, ..sample_registers() },
        Registers { c: 0x99, ..sample_registers() },
        Registers { d: 0x99, ..sample_registers() },
        Registers { e: 0x99, ..sample_registers() },
        Registers { h: 0x99, ..sample_registers() },
        Registers { l: 0x99, ..sample_registers() },
    ];
    for (target, after) in TARGETS.iter().zip(expected.iter()) {
        let mut cpu = CPU { registers: sample_registers() };
        cpu.set_target_register(*target, 0x99);
        assert_eq!(cpu.registers, *after);
        assert_eq!(cpu.get_target_register(target), 0x99);
    }
}

#[test]
fn set_flags_register_takes_zero_subtract_carry_half_carry() {
    let mut cpu = CPU { registers: sample_registers() };
    cpu.set_flags_register(true, false, false, false);
    assert_eq!(cpu.registers, Registers { f: flags(true, false, false, false), ..sample_registers() });
    cpu.set_flags_register(false, true, false, false);
    assert_eq!(cpu.registers.f, flags(false, true, false, false));
    cpu.set_flags_register(false, false, true, false);
    assert_eq!(cpu.registers.f, flags(false, false, false, true));
    assert_eq!(u8::from(cpu.registers.f), 0x10);
    cpu.set_flags_register(false, false, false, true);
    assert_eq!(cpu.registers.f, flags(false, false, true, false));
    assert_eq!(u8::from(cpu.registers.f), 0x20);
}
