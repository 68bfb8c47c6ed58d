use gameboy::cpu::alu;
use gameboy::cpu::register::Flags;

fn flags(z: bool, n: bool, h: bool, c: bool) -> Flags {
    Flags { z, n, h, c }
}

#[test]
fn add_and_adc_against_an_oracle() {
    for a in 0..=255u8 {
        for n in 0..=255u8 {
            for carry in [false, true] {
                let wide = a as u32 + n as u32 + carry as u32;
                let result = wide as u8;
                let expected = flags(
                    result == 0,
                    false,
                    (a ^ n ^ result) & 0x10 != 0,
                    wide & 0x100 != 0,
                );
                assert_eq!(alu::add_bytes(a, n, carry), (result, expected));
            }
        }
    }
}

#[test]
fn sub_and_sbc_against_an_oracle() {
    for a in 0..=255u8 {
        for n in 0..=255u8 {
            for carry in [false, true] {
                let wide = (a as i32) - (n as i32) - (carry as i32);
                let result = wide as u8;
                let expected = flags(result == 0, true, (a ^ n ^ result) & 0x10 != 0, wide < 0);
                assert_eq!(alu::subtract_bytes(a, n, carry), (result, expected));
            }
        }
    }
}

#[test]
fn add_examples() {
    assert_eq!(alu::add_bytes(0x0F, 0x01, false), (0x10, flags(false, false, true, false)));
    assert_eq!(alu::add_bytes(0xFF, 0x01, false), (0x00, flags(true, false, true, true)));
    assert_eq!(alu::add_bytes(0xFF, 0x00, true), (0x00, flags(true, false, true, true)));
    assert_eq!(alu::add_bytes(0x00, 0x00, false), (0x00, flags(true, false, false, false)));
    assert_eq!(alu::add_bytes(0x80, 0x80, false), (0x00, flags(true, false, false, true)));
    assert_eq!(alu::add_bytes(0x0E, 0x01, true), (0x10, flags(false, false, true, false)));
}

#[test]
fn subtract_examples() {
    assert_eq!(alu::subtract_bytes(0x10, 0x01, false), (0x0F, flags(false, true, true, false)));
    assert_eq!(alu::subtract_bytes(0x00, 0x01, false), (0xFF, flags(false, true, true, true)));
    assert_eq!(alu::subtract_bytes(0x42, 0x42, false), (0x00, flags(true, true, false, false)));
    assert_eq!(alu::subtract_bytes(0x00, 0x00, true), (0xFF, flags(false, true, true, true)));
    assert_eq!(alu::subtract_bytes(0x10, 0x0F, true), (0x00, flags(true, true, true, false)));
    assert_eq!(alu::subtract_bytes(0x00, 0xFF, true), (0x00, flags(true, true, true, true)));
}

#[test]
fn logic_operations() {
    for a in 0..=255u8 {
        for n in [0x00u8, 0xFF, 0x0F, 0xF0, 0x55, 0xAA, a, !a] {
            assert_eq!(alu::and_bytes(a, n), (a & n, flags(a & n == 0, false, true, false)));
            assert_eq!(alu::or_bytes(a, n), (a | n, flags(a | n == 0, false, false, false)));
            assert_eq!(alu::xor_bytes(a, n), (a ^ n, flags(a ^ n == 0, false, false, false)));
        }
    }
}

#[test]
fn increment_and_decrement_keep_carry() {
    for value in 0..=255u8 {
        for carry in [false, true] {
            let before = flags(true, true, true, carry);
            let up = value.wrapping_add(1);
            let down = value.wrapping_sub(1);
            assert_eq!(
                alu::increment(value, before),
                (up, flags(up == 0, false, value & 0x0F == 0x0F, carry))
            );
            assert_eq!(
                alu::decrement(value, before),
                (down, flags(down == 0, true, value & 0x0F == 0x00, carry))
            );
        }
    }
}

#[test]
fn wide_add_against_an_oracle() {
    let mut state: u64 = 0x1234_5678_9ABC_DEF0;
    for _ in 0..200_000 {
        state = state.wrapping_mul(6_364_136_223_846_793_005).wrapping_add(1_442_695_040_888_963_407);
        let a = (state >> 16) as u16;
        let n = (state >> 40) as u16;
        let z = state & 1 != 0;
        let wide = a as u32 + n as u32;
        let expected = flags(z, false, (a ^ n ^ wide as u16) & 0x1000 != 0, wide > 0xFFFF);
        assert_eq!(alu::add_wide(a, n, flags(z, true, false, false)), (wide as u16, expected));
    }
    assert_eq!(
        alu::add_wide(0x0FFF, 0x0001, flags(false, true, false, true)),
        (0x1000, flags(false, false, true, false))
    );
    assert_eq!(
        alu::add_wide(0xFFFF, 0x0001, flags(true, false, false, false)),
        (0x0000, flags(true, false, true, true))
    );
}

#[test]
fn signed_add_against_an_oracle() {
    for sp in [0x0000u16, 0x0001, 0x000F, 0x0010, 0x00FF, 0x0100, 0x7FFF, 0x8000, 0xFFF0, 0xFFFF] {
        for e8 in 0..=255u8 {
            let result = sp.wrapping_add(e8 as i8 as i16 as u16);
            let low = (sp & 0xFF) + e8 as u16;
            let expected = flags(false, false, (sp & 0xF) + (e8 as u16 & 0xF) > 0xF, low > 0xFF);
            assert_eq!(alu::add_signed(sp, e8), (result, expected));
        }
    }
}

#[test]
fn rotates_and_shifts_against_the_machine_operations() {
    for value in 0..=255u8 {
        for carry in [false, true] {
            for zero in [false, true] {
                let expect = |result: u8, out: bool| {
                    (result, flags(zero && result == 0, false, false, out))
                };
                assert_eq!(
                    alu::rotate_left(value, zero),
                    expect(value.rotate_left(1), value & 0x80 != 0)
                );
                assert_eq!(
                    alu::rotate_right(value, zero),
                    expect(value.rotate_right(1), value & 1 != 0)
                );
                assert_eq!(
                    alu::rotate_left_through(value, carry, zero),
                    expect((value << 1) | carry as u8, value & 0x80 != 0)
                );
                assert_eq!(
                    alu::rotate_right_through(value, carry, zero),
                    expect((value >> 1) | ((carry as u8) << 7), value & 1 != 0)
                );
            }
        }
        let shifted = |result: u8, out: bool| (result, flags(result == 0, false, false, out));
        assert_eq!(alu::shift_left(value), shifted(value << 1, value & 0x80 != 0));
        assert_eq!(
            alu::shift_right_arithmetic(value),
            shifted(((value as i8) >> 1) as u8, value & 1 != 0)
        );
        assert_eq!(alu::shift_right_logical(value), shifted(value >> 1, value & 1 != 0));
        assert_eq!(alu::swap_nibbles(value), shifted(value.rotate_left(4), false));
    }
}

#[test]
fn bit_operations() {
    for value in 0..=255u8 {
        for index in 0..8u8 {
            for carry in [false, true] {
                assert_eq!(
                    alu::test_bit(value, index, flags(false, true, false, carry)),
                    flags(value & (1 << index) == 0, false, true, carry)
                );
            }
            let set = alu::set_bit(value, index);
            let reset = alu::reset_bit(value, index);
            assert_eq!(set, value | (1 << index));
            assert_eq!(reset, value & !(1 << index));
            assert_eq!(alu::reset_bit(set, index), reset);
            assert_eq!(alu::set_bit(reset, index), set);
            assert_eq!(if value & (1 << index) != 0 { set } else { reset }, value);
        }
    }
}

fn bcd(value: u8) -> u8 {
    ((value / 10) << 4) | (value % 10)
}

#[test]
fn decimal_adjust_makes_decimal_sums_and_differences() {
    for a in 0..100u8 {
        for b in 0..100u8 {
            for carry in [false, true] {
                let (sum, added) = alu::add_bytes(bcd(a), bcd(b), carry);
                let total = a as u16 + b as u16 + carry as u16;
                assert_eq!(
                    alu::decimal_adjust(sum, added),
                    (
                        bcd((total % 100) as u8),
                        flags(total % 100 == 0, false, false, total >= 100)
                    ),
                    "{} + {} + {}",
                    a,
                    b,
                    carry
                );
                let (difference, subtracted) = alu::subtract_bytes(bcd(a), bcd(b), carry);
                let rest = 100 + a as i16 - b as i16 - carry as i16;
                assert_eq!(
                    alu::decimal_adjust(difference, subtracted),
                    (
                        bcd((rest % 100) as u8),
                        flags(rest % 100 == 0, true, false, rest < 100)
                    ),
                    "{} - {} - {}",
                    a,
                    b,
                    carry
                );
            }
        }
    }
}

#[test]
fn decimal_adjust_examples() {
    assert_eq!(
        alu::decimal_adjust(0x7D, flags(false, false, false, false)),
        (0x83, flags(false, false, false, false))
    );
    assert_eq!(
        alu::decimal_adjust(0x9A, flags(false, false, false, false)),
        (0x00, flags(true, false, false, true))
    );
    assert_eq!(
        alu::decimal_adjust(0x00, flags(false, true, true, true)),
        (0x9A, flags(false, true, false, true))
    );
}

#[test]
fn complement_and_carry_flags() {
    let before = flags(true, false, false, false);
    assert_eq!(alu::complement(0x35, before), (0xCA, flags(true, true, true, false)));
    assert_eq!(alu::complement(0x00, before), (0xFF, flags(true, true, true, false)));
    assert_eq!(alu::set_carry(flags(true, true, true, false)), flags(true, false, false, true));
    assert_eq!(
        alu::complement_carry(flags(false, true, true, true)),
        flags(false, false, false, false)
    );
    assert_eq!(
        alu::complement_carry(flags(true, true, true, false)),
        flags(true, false, false, true)
    );
}
