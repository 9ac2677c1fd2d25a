use isomap::fx::{fx_mul, fx_scale_div, isqrt, FX_ONE};

#[test]
fn products_scale_back_down() {
    assert_eq!(fx_mul(FX_ONE, FX_ONE), FX_ONE);
    assert_eq!(fx_mul(2 * FX_ONE, 3 * FX_ONE), 6 * FX_ONE);
    assert_eq!(fx_mul(FX_ONE / 2, FX_ONE / 2), FX_ONE / 4);
    assert_eq!(fx_mul(0, 12345), 0);
}

#[test]
fn products_round_toward_zero() {
    // 1/65536 of a unit squared rounds down to zero, from either sign.
    assert_eq!(fx_mul(1, 1), 0);
    assert_eq!(fx_mul(-1, 1), 0);
    assert_eq!(fx_mul(-3 * FX_ONE, 2 * FX_ONE), -6 * FX_ONE);
    assert_eq!(fx_mul(-(FX_ONE + 1), FX_ONE + 1), -(FX_ONE + 2));
}

#[test]
fn square_roots_round_down() {
    assert_eq!(isqrt(0), 0);
    assert_eq!(isqrt(1), 1);
    assert_eq!(isqrt(48), 6);
    assert_eq!(isqrt(49), 7);
    assert_eq!(isqrt(50), 7);
    assert_eq!(isqrt((1u128 << 64) - 1), (1u64 << 32) - 1);
}

#[test]
fn scaled_division_normalizes() {
    assert_eq!(fx_scale_div(5, 5), FX_ONE);
    assert_eq!(fx_scale_div(-5, 5), -FX_ONE);
    assert_eq!(fx_scale_div(1, 2), FX_ONE / 2);
    assert_eq!(fx_scale_div(0, 9), 0);
}
