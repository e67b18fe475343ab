use int_traits::IntTraits;

#[test]
fn unsigned_sqrt_overall() {
    assert_eq!(63_u8.sqrt(), 7);
    assert_eq!(63_u16.sqrt(), 7);
    assert_eq!(63_u32.sqrt(), 7);
    assert_eq!(63_u64.sqrt(), 7);
    assert_eq!(63_usize.sqrt(), 7);
}

#[test]
fn signed_sqrt_overall() {
    assert_eq!(63_i8.sqrt(), 7);
    assert_eq!(63_i16.sqrt(), 7);
    assert_eq!(63_i32.sqrt(), 7);
    assert_eq!(63_i64.sqrt(), 7);
    assert_eq!(63_isize.sqrt(), 7);
}

#[test]
fn unsigned_cbrt_overall() {
    assert_eq!(247_u8.cbrt(), 6);
    assert_eq!(891_u16.cbrt(), 9);
    assert_eq!(891_u32.cbrt(), 9);
    assert_eq!(891_u64.cbrt(), 9);
    assert_eq!(891_usize.cbrt(), 9);
}

#[test]
fn signed_cbrt_overall() {
    assert_eq!(113_i8.cbrt(), 4);
    assert_eq!(891_i16.cbrt(), 9);
    assert_eq!(891_i32.cbrt(), 9);
    assert_eq!(891_i64.cbrt(), 9);
    assert_eq!(891_isize.cbrt(), 9);
}

#[test]
fn zero_sqrt() {
    assert_eq!(0.sqrt(), 0);
}

#[test]
fn zero_cbrt() {
    assert_eq!(0.cbrt(), 0);
}

#[test]
fn log10_of_1000() {
    assert_eq!(1000_u16.log10(), 3);
    assert_eq!(1000_u32.log10(), 3);
    assert_eq!(1000_u64.log10(), 3);
    assert_eq!(1000_usize.log10(), 3);
    assert_eq!(1000_i16.log10(), 3);
    assert_eq!(1000_i32.log10(), 3);
    assert_eq!(1000_i64.log10(), 3);
    assert_eq!(1000_isize.log10(), 3);
}

#[test]
fn log2_of_1024() {
    assert_eq!(1024_u16.log2(), 10);
    assert_eq!(1024_u32.log2(), 10);
    assert_eq!(1024_u64.log2(), 10);
    assert_eq!(1024_usize.log2(), 10);
    assert_eq!(1024_i16.log2(), 10);
    assert_eq!(1024_i32.log2(), 10);
    assert_eq!(1024_i64.log2(), 10);
    assert_eq!(1024_isize.log2(), 10);
}

#[test]
fn sqrt_floor_property_small_range() {
    for x in 0_u64..2000 {
        let r = x.sqrt();
        assert!(r * r <= x);
        assert!(x < (r + 1) * (r + 1));
    }
}

#[test]
fn cbrt_floor_property_small_range() {
    for x in 0_u64..2000 {
        let r = x.cbrt();
        assert!(r * r * r <= x);
        assert!(x < (r + 1) * (r + 1) * (r + 1));
    }
}

#[test]
fn log_floor_property_small_range() {
    for base in 2_u64..12 {
        for x in 1_u64..2000 {
            let r = x.log(base);
            assert!(base.pow(r as u32) <= x);
            assert!(x < base.pow(r as u32 + 1));
        }
    }
}

#[test]
fn sqrt_of_largest_operands() {
    assert_eq!(u64::MAX.sqrt(), 4294967295);
    assert_eq!(u8::MAX.sqrt(), 15);
    assert_eq!(i8::MAX.sqrt(), 11);
    assert_eq!(i64::MAX.sqrt(), 3037000499);
}

#[test]
fn cbrt_of_largest_operands() {
    assert_eq!(u64::MAX.cbrt(), 2642245);
    assert_eq!(u8::MAX.cbrt(), 6);
    assert_eq!(i8::MAX.cbrt(), 5);
    assert_eq!(i64::MAX.cbrt(), 2097151);
}

#[test]
fn log_of_largest_operands() {
    assert_eq!(u64::MAX.log2(), 63);
    assert_eq!(u64::MAX.log10(), 19);
    assert_eq!(i64::MAX.log2(), 62);
    assert_eq!(u8::MAX.log2(), 7);
}

#[test]
fn sqrt_around_perfect_squares() {
    assert_eq!(64_u32.sqrt(), 8);
    assert_eq!(65_u32.sqrt(), 8);
    assert_eq!(80_u32.sqrt(), 8);
    assert_eq!(81_u32.sqrt(), 9);
    assert_eq!(1_u32.sqrt(), 1);
    assert_eq!(2_u32.sqrt(), 1);
    assert_eq!(3_u32.sqrt(), 1);
    assert_eq!(4_u32.sqrt(), 2);
}

#[test]
fn cbrt_around_perfect_cubes() {
    assert_eq!(26_u32.cbrt(), 2);
    assert_eq!(27_u32.cbrt(), 3);
    assert_eq!(28_u32.cbrt(), 3);
    assert_eq!(1_u32.cbrt(), 1);
    assert_eq!(7_u32.cbrt(), 1);
    assert_eq!(8_u32.cbrt(), 2);
}

#[test]
fn log_around_exact_powers() {
    assert_eq!(1_u32.log(5), 0);
    assert_eq!(4_u32.log(5), 0);
    assert_eq!(5_u32.log(5), 1);
    assert_eq!(24_u32.log(5), 1);
    assert_eq!(25_u32.log(5), 2);
    assert_eq!(1023_u64.log2(), 9);
    assert_eq!(1025_u64.log2(), 10);
    assert_eq!(999_u64.log10(), 2);
    assert_eq!(1001_u64.log10(), 3);
}

#[test]
fn results_exact_beyond_float_precision() {
    // One below a perfect square whose root needs more bits than a 64-bit
    // float's mantissa holds: the floored root is still the exact one.
    assert_eq!(4503599761588224_u64.sqrt(), 67108864);
    assert_eq!(4503599761588225_u64.sqrt(), 67108865);
    // An exact power of ten at the edge of float precision.
    assert_eq!(1000000000000000_u64.log10(), 15);
    assert_eq!(999999999999999_u64.log10(), 14);
    // An exact power of three close to the top of the 64-bit range.
    assert_eq!(4052555153018976267_u64.log(3), 39);
    assert_eq!(4052555153018976266_u64.log(3), 38);
}

#[test]
fn log_conveniences_agree_with_log() {
    for x in 1_u64..3000 {
        assert_eq!(x.log10(), x.log(10));
        assert_eq!(x.log2(), x.log(2));
    }
    assert_eq!(u64::MAX.log10(), u64::MAX.log(10));
    assert_eq!(u64::MAX.log2(), u64::MAX.log(2));
    for x in 1_i32..3000 {
        assert_eq!(x.log10(), x.log(10));
        assert_eq!(x.log2(), x.log(2));
    }
    assert_eq!(100_u8.log10(), 100_u8.log(10));
    assert_eq!(100_u8.log2(), 100_u8.log(2));
    assert_eq!(100_i16.log10(), 100_i16.log(10));
    assert_eq!(100_i16.log2(), 100_i16.log(2));
}
