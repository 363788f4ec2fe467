//! The uniform sampler and the Laplace noise primitive against the real
//! pseudorandom generator.

use rand::SeedableRng;
use rand_chacha::ChaChaRng;
use secret_data_tools::fixed::WideFixed;
use secret_data_tools::laplace::{laplace, laplace_from_logs};
use secret_data_tools::random::{random_unit_interval, unit_interval_from_draw};

fn wide_one() -> WideFixed {
    WideFixed::from_raw(1i64 << 32)
}

#[test]
fn unit_interval_from_draw_is_the_draw_over_two_to_the_32() {
    assert_eq!(unit_interval_from_draw(0).raw(), 0);
    assert_eq!(unit_interval_from_draw(1).raw(), 1);
    assert_eq!(unit_interval_from_draw(u32::MAX).raw(), u32::MAX as i64);
    // half of the draw space is exactly 0.5
    assert_eq!(unit_interval_from_draw(1 << 31).raw(), 1i64 << 31);
}

#[test]
fn random_unit_interval_stays_in_the_unit_interval() {
    let mut rng = ChaChaRng::from_seed([11u8; 32]);
    for _ in 0..1000 {
        let u = random_unit_interval(&mut rng);
        assert!(0 <= u.raw() && u.raw() < (1i64 << 32));
    }
}

#[test]
fn same_seed_gives_identical_draws() {
    let mut rng1 = ChaChaRng::from_seed([12u8; 32]);
    let mut rng2 = ChaChaRng::from_seed([12u8; 32]);
    for _ in 0..16 {
        assert_eq!(random_unit_interval(&mut rng1).raw(), random_unit_interval(&mut rng2).raw());
    }
    let n1 = laplace(&mut rng1, wide_one()).unwrap();
    let n2 = laplace(&mut rng2, wide_one()).unwrap();
    assert_eq!(n1.raw(), n2.raw());
}

#[test]
fn laplace_from_logs_combines_exactly() {
    // scale 2, logs -1 and -3: noise = (-2)*(-1) - (-2)*(-3) = 2 - 6 = -4
    let scale = WideFixed::from_raw(2i64 << 32);
    let l1 = WideFixed::from_raw(-(1i64 << 32));
    let l2 = WideFixed::from_raw(-(3i64 << 32));
    let noise = laplace_from_logs(&scale, &l1, &l2).unwrap();
    assert_eq!(noise.raw(), -(4i64 << 32));
    // with equal logs the two exponentials cancel
    let zero = laplace_from_logs(&scale, &l1, &l1).unwrap();
    assert_eq!(zero.raw(), 0);
    // exchanging the draws negates the sample exactly
    let swapped = laplace_from_logs(&scale, &l2, &l1).unwrap();
    assert_eq!(swapped.raw(), -noise.raw());
}

#[test]
fn laplace_zero_scale_gives_zero_noise() {
    let mut rng = ChaChaRng::from_seed([13u8; 32]);
    let noise = laplace(&mut rng, WideFixed::from_raw(0)).unwrap();
    assert_eq!(noise.raw(), 0);
}

#[test]
fn laplace_matches_its_distribution_statistically() {
    // sample mean near 0 and sample variance near 2*scale^2 for scale 1;
    // this also rules out a logarithm that handed its operand back, whose
    // difference of uniforms would have variance near 1/6
    let mut rng = ChaChaRng::from_seed([14u8; 32]);
    let n = 4000usize;
    let mut sum = 0.0f64;
    let mut sum_sq = 0.0f64;
    for _ in 0..n {
        let sample = laplace(&mut rng, wide_one()).unwrap();
        let v = sample.raw() as f64 / 4294967296.0;
        sum += v;
        sum_sq += v * v;
    }
    let mean = sum / n as f64;
    let variance = sum_sq / n as f64 - mean * mean;
    assert!(mean.abs() < 0.3, "sample mean {mean} too far from 0");
    assert!((variance - 2.0).abs() < 0.7, "sample variance {variance} too far from 2");
}

#[test]
fn laplace_scale_stretches_the_noise() {
    // the same random stream under a doubled scale doubles the sample
    let mut rng1 = ChaChaRng::from_seed([15u8; 32]);
    let mut rng2 = ChaChaRng::from_seed([15u8; 32]);
    let n1 = laplace(&mut rng1, wide_one()).unwrap();
    let n2 = laplace(&mut rng2, WideFixed::from_raw(2i64 << 32)).unwrap();
    // up to one truncation step per multiplication
    assert!((n2.raw() - 2 * n1.raw()).abs() <= 2);
}
