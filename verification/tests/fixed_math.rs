use uno_no_mercy_video::fixed::Fixed;

fn fx(raw: i64) -> Fixed {
    Fixed::millionths(raw)
}

#[test]
fn whole_numbers_scale_by_a_million() {
    assert_eq!(Fixed::from_int(3).raw, 3_000_000);
    assert_eq!(Fixed::from_int(-7).raw, -7_000_000);
    assert_eq!(Fixed::zero().raw, 0);
    assert_eq!(Fixed::one().raw, 1_000_000);
}

#[test]
fn from_int_saturates() {
    assert_eq!(Fixed::from_int(i64::MAX).raw, i64::MAX);
    assert_eq!(Fixed::from_int(i64::MIN).raw, i64::MIN);
}

#[test]
fn sums_and_differences_saturate() {
    assert_eq!(fx(1_500_000).plus(fx(2_250_000)).raw, 3_750_000);
    assert_eq!(fx(1_500_000).minus(fx(2_250_000)).raw, -750_000);
    assert_eq!(fx(i64::MAX).plus(fx(1)).raw, i64::MAX);
    assert_eq!(fx(i64::MIN).minus(fx(1)).raw, i64::MIN);
}

#[test]
fn products_round_toward_zero() {
    assert_eq!(fx(1_500_000).times(fx(2_500_000)).raw, 3_750_000);
    assert_eq!(fx(333_333).times(fx(3_000_000)).raw, 999_999);
    assert_eq!(fx(-333_333).times(fx(333_333)).raw, -111_110);
    assert_eq!(fx(i64::MAX).times(fx(2_000_000)).raw, i64::MAX);
    assert_eq!(fx(i64::MIN).times(fx(2_000_000)).raw, i64::MIN);
}

#[test]
fn quotients_round_toward_zero() {
    assert_eq!(Fixed::one().over(Fixed::from_int(3)).raw, 333_333);
    assert_eq!(Fixed::one().negated().over(Fixed::from_int(3)).raw, -333_333);
    assert_eq!(Fixed::one().over(Fixed::from_int(-4)).raw, -250_000);
    assert_eq!(Fixed::ratio(1, 8).raw, 125_000);
    assert_eq!(Fixed::ratio(1080, 2).raw, 540_000_000);
}

#[test]
fn division_by_zero_is_total() {
    assert_eq!(Fixed::one().over(Fixed::zero()).raw, i64::MAX);
    assert_eq!(Fixed::one().negated().over(Fixed::zero()).raw, i64::MIN);
    assert_eq!(Fixed::zero().over(Fixed::zero()).raw, 0);
}

#[test]
fn remainder_keeps_the_sign_of_the_dividend() {
    assert_eq!(fx(5_500_000).remainder(Fixed::from_int(2)).raw, 1_500_000);
    assert_eq!(fx(-5_500_000).remainder(Fixed::from_int(2)).raw, -1_500_000);
    assert_eq!(fx(5_500_000).remainder(Fixed::zero()).raw, 0);
}

#[test]
fn square_roots_round_down() {
    assert_eq!(Fixed::from_int(4).root().raw, 2_000_000);
    assert_eq!(Fixed::from_int(2).root().raw, 1_414_213);
    assert_eq!(Fixed::zero().root().raw, 0);
    assert_eq!(Fixed::from_int(-9).root().raw, 0);
    assert_eq!(fx(250_000).root().raw, 500_000);
}

#[test]
fn square_root_of_the_largest_number() {
    let r = fx(i64::MAX).root().raw as i128;
    let n = (i64::MAX as i128) * 1_000_000;
    assert!(r * r <= n);
    assert!((r + 1) * (r + 1) > n);
}

#[test]
fn rounding_to_whole_numbers() {
    assert_eq!(fx(2_999_999).whole(), 2);
    assert_eq!(fx(-2_999_999).whole(), -2);
    assert_eq!(fx(2_500_000).nearest(), 3);
    assert_eq!(fx(-2_500_000).nearest(), -3);
    assert_eq!(fx(2_499_999).nearest(), 2);
    assert_eq!(fx(2_000_001).ceiling(), 3);
    assert_eq!(fx(2_000_000).ceiling(), 2);
    assert_eq!(fx(-2_500_000).ceiling(), -2);
}

#[test]
fn casts_to_pixels_clamp() {
    assert_eq!(fx(300_000_000).channel(), 255);
    assert_eq!(fx(-5_000_000).channel(), 0);
    assert_eq!(fx(127_900_000).channel(), 127);
    assert_eq!(fx(i64::MAX).pixels(), i32::MAX);
    assert_eq!(fx(i64::MIN).pixels(), i32::MIN);
    assert_eq!(fx(-1_500_000).pixels(), -1);
    assert_eq!(fx(-1_500_000).extent(), 0);
    assert_eq!(fx(i64::MAX).extent(), u32::MAX);
}

#[test]
fn clamping_and_ordering() {
    assert_eq!(fx(1_500_000).unit().raw, 1_000_000);
    assert_eq!(fx(-500_000).unit().raw, 0);
    assert_eq!(fx(400_000).unit().raw, 400_000);
    assert_eq!(fx(1).lower(fx(2)).raw, 1);
    assert_eq!(fx(1).upper(fx(2)).raw, 2);
    assert_eq!(fx(-3).magnitude().raw, 3);
    assert_eq!(fx(i64::MIN).magnitude().raw, i64::MAX);
    assert!(fx(1).below(fx(2)));
    assert!(!fx(2).below(fx(2)));
    assert!(fx(2).at_most(fx(2)));
}

#[test]
fn sine_follows_the_arch() {
    assert_eq!(Fixed::zero().sine().raw, 0);
    assert_eq!(fx(1_570_796).sine().raw, 1_000_000);
    assert_eq!(Fixed::one().sine().raw, 840_218);
    assert_eq!(Fixed::one().negated().sine().raw, -840_218);
    assert_eq!(fx(3_141_593).sine().raw, 0);
    assert_eq!(Fixed::from_int(3).sine().raw, 142_636);
}

#[test]
fn sine_is_close_to_the_true_sine() {
    let mut a: i64 = -20_000_000;
    while a <= 20_000_000 {
        let got = fx(a).sine().raw as f64 / 1e6;
        let want = (a as f64 / 1e6).sin();
        assert!((got - want).abs() < 0.002, "sine of {} is {} and not {}", a, got, want);
        let got = fx(a).cosine().raw as f64 / 1e6;
        let want = (a as f64 / 1e6).cos();
        assert!((got - want).abs() < 0.002, "cosine of {} is {} and not {}", a, got, want);
        a += 37_311;
    }
}

#[test]
fn sine_stays_within_one() {
    let mut a: i64 = i64::MIN;
    let mut steps: u32 = 0;
    while steps < 2000 {
        let s = fx(a).sine().raw;
        assert!(-1_000_000 <= s && s <= 1_000_000);
        let c = fx(a).cosine().raw;
        assert!(-1_000_000 <= c && c <= 1_000_000);
        a = a.wrapping_add(9_223_372_036_854_775);
        steps += 1;
    }
}

#[test]
fn cosine_is_the_sine_a_quarter_turn_on() {
    assert_eq!(Fixed::zero().cosine().raw, 1_000_000);
    assert_eq!(Fixed::one().cosine().raw, 540_002);
    assert_eq!(fx(1_000_000).cosine().raw, fx(2_570_796).sine().raw);
}

#[test]
fn powers_of_two() {
    assert_eq!(Fixed::zero().exp2().raw, 1_000_000);
    assert_eq!(Fixed::one().exp2().raw, 2_000_000);
    assert_eq!(Fixed::one().negated().exp2().raw, 500_000);
    assert_eq!(fx(500_000).exp2().raw, 1_414_000);
    assert_eq!(fx(-2_500_000).exp2().raw, 176_750);
    assert_eq!(Fixed::from_int(41).exp2().raw, i64::MAX);
    assert_eq!(Fixed::from_int(-41).exp2().raw, 0);
    assert_eq!(Fixed::from_int(10).exp2().raw, 1_024_000_000);
}
