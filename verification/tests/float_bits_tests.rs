use cellular_textures::float_bits::f64_lt;
use cellular_textures::float_bits::f64_max;
use cellular_textures::float_bits::f64_min;
use cellular_textures::float_bits::from_u32_bits;
use cellular_textures::sqrt::sqrt_bits;
use cellular_textures::texture::gray_of_bits;

/// A simple linear congruential generator, for a deterministic sweep over
/// varied bit patterns.
fn lcg_stream(n: usize) -> Vec<u64> {
    let mut state: u64 = 0x5DEE_CE66_D153_2DA9;
    let mut out = Vec::with_capacity(n);
    for _ in 0..n {
        state = state.wrapping_mul(6364136223846793005).wrapping_add(1442695040888963407);
        out.push(state);
    }
    out
}

fn interesting_patterns() -> Vec<u64> {
    let mut v = vec![
        0.0_f64.to_bits(),
        (-0.0_f64).to_bits(),
        1.0_f64.to_bits(),
        (-1.0_f64).to_bits(),
        0.5_f64.to_bits(),
        255.0_f64.to_bits(),
        255.5_f64.to_bits(),
        256.0_f64.to_bits(),
        f64::INFINITY.to_bits(),
        f64::NEG_INFINITY.to_bits(),
        f64::NAN.to_bits(),
        f64::MIN_POSITIVE.to_bits(),
        5e-324_f64.to_bits(),
        f64::MAX.to_bits(),
    ];
    v.extend(lcg_stream(4000));
    v
}

#[test]
fn from_u32_bits_matches_binary64_conversion() {
    for v in 0..10_000u32 {
        assert_eq!(from_u32_bits(v), f64::from(v).to_bits(), "conversion of {v}");
    }
    for v in [u32::MAX, u32::MAX - 1, 1 << 31, (1 << 31) - 1, 32767, 32768] {
        assert_eq!(from_u32_bits(v), f64::from(v).to_bits(), "conversion of {v}");
    }
}

#[test]
fn sqrt_bits_matches_binary64_square_root_widely() {
    for bits in interesting_patterns() {
        let x = f64::from_bits(bits);
        let want = x.sqrt();
        let got = f64::from_bits(sqrt_bits(bits));
        if want.is_nan() {
            assert!(got.is_nan(), "square root of {x}");
        } else {
            assert_eq!(got.to_bits(), want.to_bits(), "square root of {x}");
        }
    }
    // Positive finite values from the generator, to exercise the rounding.
    for bits in lcg_stream(4000) {
        let positive = bits & 0x7FFF_FFFF_FFFF_FFFF;
        let x = f64::from_bits(positive);
        if !x.is_finite() {
            continue;
        }
        assert_eq!(
            f64::from_bits(sqrt_bits(positive)).to_bits(),
            x.sqrt().to_bits(),
            "square root of {x}"
        );
    }
}

#[test]
fn f64_lt_matches_binary64_ordering() {
    let pats = interesting_patterns();
    for &a in pats.iter().take(120) {
        for &b in pats.iter().take(120) {
            let fa = f64::from_bits(a);
            let fb = f64::from_bits(b);
            assert_eq!(f64_lt(a, b), fa < fb, "{fa} < {fb}");
        }
    }
}

#[test]
fn f64_min_max_match_binary64_selection() {
    let pats = interesting_patterns();
    for &a in pats.iter().take(120) {
        for &b in pats.iter().take(120) {
            let fa = f64::from_bits(a);
            let fb = f64::from_bits(b);
            let mn = f64::from_bits(f64_min(a, b));
            let mx = f64::from_bits(f64_max(a, b));
            let want_mn = fa.min(fb);
            let want_mx = fa.max(fb);
            if want_mn.is_nan() {
                assert!(mn.is_nan());
            } else {
                assert_eq!(mn, want_mn, "min of {fa} and {fb}");
            }
            if want_mx.is_nan() {
                assert!(mx.is_nan());
            } else {
                assert_eq!(mx, want_mx, "max of {fa} and {fb}");
            }
        }
    }
}

#[test]
fn gray_of_bits_matches_integer_narrowing() {
    for bits in interesting_patterns() {
        let x = f64::from_bits(bits);
        // A non-finite intensity is not representable; otherwise the value
        // narrows as the integer conversion does.
        let want = if x.is_nan() { None } else { u8::try_from(x as i64).ok() };
        assert_eq!(gray_of_bits(bits), want, "narrowing of {x}");
    }
    for whole in 0..300i64 {
        let bits = (whole as f64).to_bits();
        let want = u8::try_from(whole).ok();
        assert_eq!(gray_of_bits(bits), want, "narrowing of {whole}");
    }
}
