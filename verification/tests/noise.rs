use lau_camera::easing::Easing;
use lau_camera::noise::pseudo_noise_bits;

const TWO_POW_53: u64 = 1u64 << 53;

#[test]
fn noise_bits_zero_seed_zero_channel() {
    assert_eq!(pseudo_noise_bits(0, 0), 0);
}

#[test]
fn noise_bits_known_values() {
    assert_eq!(pseudo_noise_bits(0, 1), 3045933958955360);
    assert_eq!(pseudo_noise_bits(1, 0), 7956156453446585);
    assert_eq!(pseudo_noise_bits(1, 1), 5103132997656651);
    assert_eq!(pseudo_noise_bits(500, 0), 2252925622038493);
    assert_eq!(pseudo_noise_bits(500, 1), 8628483803209135);
    assert_eq!(pseudo_noise_bits(12345, 7), 544673612448061);
}

#[test]
fn noise_bits_wraps_at_the_top_of_the_range() {
    assert_eq!(pseudo_noise_bits(u64::MAX, u64::MAX), 7812351325084172);
}

#[test]
fn noise_bits_below_two_pow_53() {
    for seed in 0..2000u64 {
        for channel in 0..2u64 {
            assert!(pseudo_noise_bits(seed, channel) < TWO_POW_53);
        }
    }
    assert!(pseudo_noise_bits(u64::MAX, 0) < TWO_POW_53);
}

#[test]
fn noise_bits_deterministic() {
    for seed in [0u64, 1, 42, 999, 1_000_000] {
        assert_eq!(pseudo_noise_bits(seed, 0), pseudo_noise_bits(seed, 0));
        assert_eq!(pseudo_noise_bits(seed, 1), pseudo_noise_bits(seed, 1));
    }
}

#[test]
fn noise_value_in_unit_interval() {
    let v = pseudo_noise_bits(500, 1) as f64 / TWO_POW_53 as f64;
    assert!(v >= 0.0 && v < 1.0);
    assert!((v - 0.957954138592802).abs() < 1e-12);
}

#[test]
fn easing_variants_distinct() {
    let all = [Easing::Linear, Easing::EaseIn, Easing::EaseOut, Easing::EaseInOut];
    for i in 0..all.len() {
        for j in 0..all.len() {
            assert_eq!(all[i] == all[j], i == j);
        }
    }
    let e = Easing::EaseOut;
    let copy = e;
    assert_eq!(copy, Easing::EaseOut);
}
