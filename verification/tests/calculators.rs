//! Per-calculator tests with exactly representable expected values, plus the
//! generator-driven entry points.

use entest::chisqr::{self, ChiSquareCalculation};
use entest::{
    copy_from_slice, error_ratio, Dec, Entest, MeanCalculation, MonteCarloCalculation,
    SerialCorrelationCoefficientCalculation, ShannonCalculation,
};

fn dec(s: &str) -> fastnum2::D256 {
    fastnum2::D256::parse_str(s, fastnum2::decimal::Context::default())
}

#[test]
fn mean_of_small_streams() {
    assert_eq!(MeanCalculation::test(&[0, 255]).raw(), &dec("127.5"));
    assert_eq!(MeanCalculation::test(&[1, 2, 3]).raw(), &dec("2"));
    assert!(MeanCalculation::test(&[]).is_nan());

    let mut calc = MeanCalculation::new();
    calc.update(&[10]);
    calc.update(&[20, 30]);
    assert_eq!(calc.samples(), 3);
    assert_eq!(calc.finalize().raw(), &dec("20"));
}

#[test]
fn shannon_of_small_streams() {
    assert_eq!(ShannonCalculation::test(&[7, 7, 7, 7]).raw(), &dec("0.0"));
    assert!(ShannonCalculation::test(&[]).is_nan());
    assert_eq!(ShannonCalculation::test(&[0, 0, 1, 1]).raw(), &dec("1.0"));

    let mut calc = ShannonCalculation::new();
    calc.update(&[5, 5]);
    assert_eq!(calc.samples(), 2);
    assert_eq!(calc.finalize().raw(), &dec("0.0"));
}

#[test]
fn chi_square_of_uniform_data_is_zero() {
    let mut each_value_once = [0u8; 256];
    for (i, b) in each_value_once.iter_mut().enumerate() {
        *b = i as u8;
    }
    let (chi, chi_prob) = ChiSquareCalculation::test(&each_value_once);
    assert_eq!(chi.raw(), &dec("0.0"));
    // A statistic at or below zero has tail probability one.
    assert_eq!(chi_prob.raw(), &dec("1.0"));

    let mut calc = ChiSquareCalculation::new();
    calc.update(&each_value_once);
    assert_eq!(calc.samples(), 256);
    assert_eq!(calc.finalize().raw(), &dec("0.0"));
    assert!(ChiSquareCalculation::new().finalize().is_nan());
}

#[test]
fn chi_statistic_of_one_bucket() {
    // 512 zero bytes: bucket 0 holds 512, expected 2 everywhere.
    // (512 - 2)^2 / 2 + 255 * (0 - 2)^2 / 2 = 130050 + 510.
    let buckets: Vec<u64> = (0..256).map(|i| if i == 0 { 512u64 } else { 0 }).collect();
    let chi = chisqr::chi_statistic(&buckets, 512);
    assert_eq!(chi.raw(), &dec("130560"));
    assert!(chisqr::chi_statistic(&buckets, 0).is_nan());
}

#[test]
fn normal_tail_midpoint_and_degenerate_probability() {
    assert_eq!(chisqr::poz(Dec::from_u64(0)).raw(), &dec("0.5"));
    assert_eq!(chisqr::ex(Dec::from_u64(0)).raw(), &dec("1.0"));
    // A statistic at or below zero has tail probability one.
    let prob = chisqr::probability_chi_sq(Dec::from_u64(0), 127);
    assert_eq!(prob.raw(), &dec("1.0"));
    assert!(chisqr::probability_chi_sq(Dec::nan(), 127).is_nan());
}

#[test]
fn probability_small_statistic_branch() {
    // All values once, except that one duplicate replaces one value: the
    // statistic is (2-1)^2 + (0-1)^2 = 2, putting the series on its
    // small-statistic branch and the normal tail on its near-zero polynomial.
    let mut data = [0u8; 256];
    for (i, b) in data.iter_mut().enumerate() {
        *b = i as u8;
    }
    data[255] = 0;
    let (chi, prob) = ChiSquareCalculation::test(&data);
    assert_eq!(chi.raw(), &dec("2"));
    assert!(prob.raw().gt(&dec("0.9")));
    assert!(prob.raw().le(&dec("1.5")));
}

#[test]
fn probability_middle_polynomial_branch() {
    // Four zero bytes and one byte of each value 1..=252: the statistic is
    // (4-1)^2 + 3 * (0-1)^2 = 12, whose square root halved falls in the
    // normal tail's middle polynomial range.
    let mut data: Vec<u8> = vec![0u8; 4];
    for v in 1..=252u16 {
        data.push(v as u8);
    }
    let (chi, prob) = ChiSquareCalculation::test(&data);
    assert_eq!(chi.raw(), &dec("12"));
    assert!(prob.raw().gt(&dec("0.9")));
    assert!(prob.raw().le(&dec("1.5")));
}

#[test]
fn probability_large_statistic_branch() {
    // Eleven zero bytes and one byte of each value 1..=245: the statistic is
    // (11-1)^2 + 10 * (0-1)^2 = 110, putting the series on its logarithmic
    // large-statistic branch with a probability strictly inside (0, 1).
    let mut data: Vec<u8> = vec![0u8; 11];
    for v in 1..=245u16 {
        data.push(v as u8);
    }
    let (chi, prob) = ChiSquareCalculation::test(&data);
    assert_eq!(chi.raw(), &dec("110"));
    assert!(prob.raw().gt(&dec("0.5")));
    assert!(prob.raw().lt(&dec("1.0")));
}

#[test]
fn monte_carlo_inside_and_outside_points() {
    // Six zero bytes: the point (0, 0) lies inside the radius.
    assert_eq!(MonteCarloCalculation::test(&[0; 6]).raw(), &dec("4.0"));
    // Six 0xFF bytes: the corner point lies exactly on the squared radius.
    assert_eq!(MonteCarloCalculation::test(&[0xFF; 6]).raw(), &dec("0.0"));
    // One group in, one group out: 4 * 1/2.
    let mut calc = MonteCarloCalculation::new();
    calc.update(&[0, 0, 0]);
    calc.update(&[0, 0, 0, 0xFF, 0xFF, 0xFF]);
    calc.update(&[0xFF, 0xFF, 0xFF]);
    assert_eq!(calc.finalize().raw(), &dec("2.0"));
    // Fewer than six bytes: no complete group.
    assert!(MonteCarloCalculation::test(&[1, 2, 3, 4, 5]).is_nan());
}

#[test]
fn serial_correlation_of_small_streams() {
    // For [0, 1]: t1 closes to 1*0 + 0 = 0, t2 = 1, t3 = 1, n = 2, so
    // scc = (2*0 - 1) / (2*1 - 1) = -1.
    assert_eq!(SerialCorrelationCoefficientCalculation::test(&[0, 1]).raw(), &dec("-1"));
    assert!(SerialCorrelationCoefficientCalculation::test(&[]).is_nan());
    assert!(SerialCorrelationCoefficientCalculation::test(&[9, 9, 9, 9]).is_nan());

    let mut calc = SerialCorrelationCoefficientCalculation::new();
    calc.update(&[3, 3]);
    assert!(calc.all_equals());
    calc.update(&[4]);
    assert!(!calc.all_equals());
    assert!(!calc.finalize().is_nan());
}

#[test]
fn error_ratio_of_exact_values() {
    let r = error_ratio(Dec::from_u64(4), Dec::from_u64(5));
    assert_eq!(r.raw(), &dec("0.25"));
    assert!(!r.is_nan());
    assert!(error_ratio(Dec::nan(), Dec::from_u64(5)).is_nan());
    assert!(error_ratio(Dec::from_u64(4), Dec::nan()).is_nan());
}

#[test]
fn copy_from_slice_copies_prefixes() {
    let mut dst = vec![0u8; 4];
    assert_eq!(copy_from_slice(&mut dst, &[1, 2]), Ok(2));
    assert_eq!(dst, vec![1, 2, 0, 0]);
    assert_eq!(copy_from_slice(&mut dst, &[7, 8, 9, 10]), Ok(4));
    assert_eq!(dst, vec![7, 8, 9, 10]);
    assert_eq!(copy_from_slice(&mut dst, &[1, 2, 3, 4, 5]), Err(()));
    assert_eq!(dst, vec![7, 8, 9, 10]);
}

fn run_test<T: entest::EntropyTest + Default>(data: &[u8]) -> entest::Dec {
    let mut t = T::default();
    t.update(data);
    t.finalize()
}

#[test]
fn the_entropy_test_capability() {
    assert_eq!(run_test::<MeanCalculation>(&[0, 255]).raw(), &dec("127.5"));
    // One zero byte: expected count 1/256 per bucket, so the statistic is
    // (1 - 1/256)^2 * 256 + 255 * (1/256) = 255 exactly.
    assert_eq!(run_test::<ChiSquareCalculation>(&[0]).raw(), &dec("255"));
    assert!(run_test::<SerialCorrelationCoefficientCalculation>(&[5, 5]).is_nan());
    assert!(run_test::<MonteCarloCalculation>(&[1, 2, 3, 4, 5]).is_nan());
    assert_eq!(run_test::<ShannonCalculation>(&[9]).raw(), &dec("0.0"));
}

struct DummyRng;

impl rand_core::RngCore for DummyRng {
    fn next_u32(&mut self) -> u32 {
        12345678
    }

    fn next_u64(&mut self) -> u64 {
        12345678
    }

    fn fill_bytes(&mut self, b: &mut [u8]) {
        if !b.is_empty() {
            b[0] = 1;
        }
    }
}

#[test]
fn test_rng_stack_must_not_overflow_if_buf_size_too_large() {
    let mut rng = DummyRng;
    let ret = Entest::test_rng_stack::<104857600, DummyRng>(&mut rng, 118435101);
    println!("samples: {}, chi: {:?}", ret.samples(), ret.chi().raw());
}

#[test]
fn test_rng_feeds_the_requested_size() {
    let mut rng = DummyRng;
    let ret = Entest::test_rng_heap(&mut rng, 100);
    assert_eq!(ret.samples(), 100);
    assert!(!ret.sc().is_nan());

    let mut buf = vec![0u8; 7];
    let ret = Entest::test_rng(&mut rng, 20, &mut buf);
    assert_eq!(ret.samples(), 20);

    let ret = Entest::test_rng_heap(&mut rng, 0);
    assert_eq!(ret.samples(), 0);
    assert!(ret.chi().is_nan());
}
