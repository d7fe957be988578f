//! Whole-suite tests: the pinned all-zero scenario, degenerate inputs, chunk
//! invariance, and idempotent finalize.

use entest::{Entest, EntestResult};

use std::collections::hash_map::RandomState;
use std::hash::{BuildHasher, Hasher};

const LEN: usize = 10240;

fn dec(s: &str) -> fastnum2::D256 {
    fastnum2::D256::parse_str(s, fastnum2::decimal::Context::default())
}

#[test]
fn zero_data() {
    let all_zero_buf = [0u8; LEN];
    let ret = Entest::test(&all_zero_buf);
    assert_eq!(ret.samples(), LEN as u64);
    assert_eq!(ret.chi().raw(), &dec("2611200.0"));
    assert_eq!(ret.chi_prob().raw(), &dec("0.0"));
    assert_eq!(ret.mc().raw(), &dec("4.0"));
    assert_eq!(ret.mean().raw(), &dec("0.0"));
    assert!(ret.sc().is_nan());
    assert_eq!(ret.shannon().raw(), &dec("0.0"));
}

#[test]
fn std_random_state() {
    let mut std_random_state_buf = [0u8; LEN];
    let mut b;
    for chunk in std_random_state_buf.chunks_mut(8) {
        b = RandomState::new().build_hasher().finish().to_ne_bytes();
        chunk[..b.len()].copy_from_slice(&b);
    }
    let ret = Entest::test(&std_random_state_buf);
    assert_eq!(ret.samples(), LEN as u64);
}

/// A fixed, easily reproduced byte pattern with all values present.
fn pattern(len: usize) -> Vec<u8> {
    let mut state: u64 = 0x243F6A8885A308D3;
    let mut out = Vec::with_capacity(len);
    for _ in 0..len {
        state = state.wrapping_mul(6364136223846793005).wrapping_add(1442695040888963407);
        out.push((state >> 33) as u8);
    }
    out
}

fn results_equal(a: &EntestResult, b: &EntestResult) -> bool {
    a.samples() == b.samples()
        && a.chi().is_nan() == b.chi().is_nan()
        && a.chi_prob().is_nan() == b.chi_prob().is_nan()
        && a.mc().is_nan() == b.mc().is_nan()
        && a.mean().is_nan() == b.mean().is_nan()
        && a.sc().is_nan() == b.sc().is_nan()
        && a.shannon().is_nan() == b.shannon().is_nan()
        && (a.chi().is_nan() || a.chi().raw() == b.chi().raw())
        && (a.chi_prob().is_nan() || a.chi_prob().raw() == b.chi_prob().raw())
        && (a.mc().is_nan() || a.mc().raw() == b.mc().raw())
        && (a.mean().is_nan() || a.mean().raw() == b.mean().raw())
        && (a.sc().is_nan() || a.sc().raw() == b.sc().raw())
        && (a.shannon().is_nan() || a.shannon().raw() == b.shannon().raw())
}

#[test]
fn chunk_invariance_exact_results() {
    let data = pattern(LEN);
    let whole = Entest::test(&data);

    for chunk_len in [1usize, 7, 997, 8192, LEN] {
        let mut suite = Entest::new();
        for chunk in data.chunks(chunk_len) {
            suite.update(chunk);
        }
        let split = suite.finalize();
        assert!(results_equal(&whole, &split), "chunk length {chunk_len} changed the result");
    }
}

#[test]
fn finalize_is_idempotent() {
    let data = pattern(4096);
    let mut suite = Entest::new();
    suite.update(&data);
    let first = suite.finalize();
    let second = suite.finalize();
    assert!(results_equal(&first, &second));

    let empty_suite = Entest::new();
    let first = empty_suite.finalize();
    let second = empty_suite.finalize();
    assert!(results_equal(&first, &second));
}

#[test]
fn empty_stream_is_all_undefined() {
    let suite = Entest::new();
    let ret = suite.finalize();
    assert_eq!(ret.samples(), 0);
    assert!(ret.chi().is_nan());
    assert!(ret.chi_prob().is_nan());
    assert!(ret.mc().is_nan());
    assert!(ret.mean().is_nan());
    assert!(ret.sc().is_nan());
    assert!(ret.shannon().is_nan());
}

#[test]
fn constant_streams_have_undefined_correlation() {
    for len in [1usize, 2, 64, 10240] {
        let buf = vec![0xABu8; len];
        let ret = Entest::test(&buf);
        assert!(ret.sc().is_nan(), "constant stream of length {len}");
        assert!(!ret.mean().is_nan());
    }
    // Two distinct values: the correlation is defined.
    let ret = Entest::test(&[1u8, 2, 1, 2, 1, 2, 1, 2]);
    assert!(!ret.sc().is_nan());
}

#[test]
fn fewer_than_six_bytes_give_undefined_pi() {
    for len in [1usize, 2, 3, 4, 5] {
        let buf = pattern(len);
        let ret = Entest::test(&buf);
        assert!(ret.mc().is_nan(), "length {len}");
    }
    let ret = Entest::test(&pattern(6));
    assert!(!ret.mc().is_nan());
}

#[test]
fn shannon_stays_within_its_bounds() {
    for len in [6usize, 100, 4096] {
        let ret = Entest::test(&pattern(len));
        let shannon = *ret.shannon().raw();
        assert!(shannon.ge(&dec("0.0")), "length {len}");
        assert!(shannon.le(&dec("8.0")), "length {len}");
    }
    // A non-uniform, non-constant stream sits strictly between the bounds.
    let ret = Entest::test(&[0u8, 0, 0, 1, 2, 3]);
    let shannon = *ret.shannon().raw();
    assert!(shannon.gt(&dec("0.0")));
    assert!(shannon.lt(&dec("8.0")));
}
