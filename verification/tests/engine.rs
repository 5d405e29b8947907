// Exercises of the structural engine on concrete data. Samples cross the
// boundary as IEEE-754 bit codes, so the tests build them with to_bits and
// read them back with from_bits.

use oddity::decomp::{column_chunks, resolve_period, tile, trend_window, PeriodChoice};
use oddity::kernel::Kernels;
use oddity::matrix::{inversion_result, Matrix};
use oddity::outliers::select_outliers;
use oddity::series::{sliding_windows, zip_same_len, TimeSeries};
use oddity::spectral::{next_pow2, pad_to_pow2, split_even_odd};
use oddity::EngineError;

fn code(x: f64) -> u64 {
    x.to_bits()
}

fn decode(c: u64) -> f64 {
    f64::from_bits(c)
}

fn codes(xs: &[f64]) -> Vec<u64> {
    xs.iter().map(|x| x.to_bits()).collect()
}

#[test]
fn series_construction_and_append() {
    let mut s = TimeSeries::empty();
    assert_eq!(s.len(), 0);
    s.push(code(1.5));
    s.push(code(-2.0));
    assert_eq!(s.len(), 2);
    assert_eq!(s.as_flat_vec(), vec![code(1.5), code(-2.0)]);

    let t = TimeSeries::new(codes(&[3.0, 4.0]));
    assert_eq!(t.len(), 2);
    assert_eq!(decode(t.as_flat_vec()[1]), 4.0);
}

#[test]
fn empty_series_statistics_are_refused() {
    let s = TimeSeries::empty();
    assert_eq!(s.check_not_empty(), Err(EngineError::EmptySeries));
    let t = TimeSeries::new(codes(&[1.0]));
    assert_eq!(t.check_not_empty(), Ok(1));
}

#[test]
fn elementwise_pairing_on_equal_lengths() {
    let a = TimeSeries::new(codes(&[1.0, 2.0, 3.0]));
    let b = TimeSeries::new(codes(&[4.0, 5.0, 6.0]));
    let pairs = zip_same_len(&a, &b).unwrap();
    assert_eq!(pairs.len(), 3);
    assert_eq!(pairs[0], (code(1.0), code(4.0)));
    assert_eq!(pairs[2], (code(3.0), code(6.0)));
    // The pairing carries elementwise arithmetic: subtraction here.
    let diff: Vec<f64> = pairs.iter().map(|(x, y)| decode(*x) - decode(*y)).collect();
    assert_eq!(diff, vec![-3.0, -3.0, -3.0]);
}

#[test]
fn mismatched_lengths_fail_with_length_mismatch() {
    let a = TimeSeries::new(codes(&[1.0, 2.0, 3.0]));
    let b = TimeSeries::new(codes(&[4.0, 5.0]));
    assert_eq!(zip_same_len(&a, &b), Err(EngineError::LengthMismatch));
    assert_eq!(zip_same_len(&b, &a), Err(EngineError::LengthMismatch));
}

#[test]
fn moving_average_windows_and_values() {
    let s = TimeSeries::new(codes(&[1.0, 2.0, 3.0, 4.0, 5.0]));
    let windows = sliding_windows(&s, 3).unwrap();
    assert_eq!(windows.len(), 3);
    assert_eq!(windows[0], codes(&[1.0, 2.0, 3.0]));
    assert_eq!(windows[1], codes(&[2.0, 3.0, 4.0]));
    assert_eq!(windows[2], codes(&[3.0, 4.0, 5.0]));
    let sma: Vec<f64> = windows
        .iter()
        .map(|w| w.iter().map(|c| decode(*c)).sum::<f64>() / 3.0)
        .collect();
    assert_eq!(sma, vec![2.0, 3.0, 4.0]);
}

#[test]
fn invalid_windows_are_refused() {
    let s = TimeSeries::new(codes(&[1.0, 2.0, 3.0]));
    assert_eq!(sliding_windows(&s, 0), Err(EngineError::InvalidWindow));
    assert_eq!(sliding_windows(&s, 4), Err(EngineError::InvalidWindow));
    assert!(sliding_windows(&s, 3).is_ok());
}

#[test]
fn trend_window_is_a_fifth_of_the_length() {
    assert_eq!(trend_window(0), 0);
    assert_eq!(trend_window(4), 0);
    assert_eq!(trend_window(5), 1);
    assert_eq!(trend_window(14), 2);
    assert_eq!(trend_window(100), 20);
}

#[test]
fn transform_length_is_next_power_of_two() {
    assert_eq!(next_pow2(0), 1);
    assert_eq!(next_pow2(1), 1);
    assert_eq!(next_pow2(2), 2);
    assert_eq!(next_pow2(5), 8);
    assert_eq!(next_pow2(8), 8);
    assert_eq!(next_pow2(9), 16);
}

#[test]
fn padding_keeps_prefix_and_fills_zeros() {
    let v = codes(&[1.0, 2.0, 3.0, 4.0, 5.0]);
    let padded = pad_to_pow2(&v, code(0.0));
    assert_eq!(padded.len(), 8);
    assert_eq!(&padded[..5], &v[..]);
    assert!(padded[5..].iter().all(|c| decode(*c) == 0.0));

    // An impulse of power-of-two length is unchanged.
    let impulse = codes(&[1.0, 0.0, 0.0, 0.0]);
    assert_eq!(pad_to_pow2(&impulse, code(0.0)), impulse);
}

#[test]
fn decimation_splits_even_and_odd_positions() {
    let v = codes(&[10.0, 11.0, 12.0, 13.0, 14.0]);
    let (evens, odds) = split_even_odd(&v);
    assert_eq!(evens, codes(&[10.0, 12.0, 14.0]));
    assert_eq!(odds, codes(&[11.0, 13.0]));
}

#[test]
fn period_resolution_and_range_errors() {
    assert_eq!(resolve_period(PeriodChoice::Explicit(3), 0, 9), Ok(3));
    assert_eq!(resolve_period(PeriodChoice::Auto, 4, 9), Ok(4));
    assert_eq!(
        resolve_period(PeriodChoice::Explicit(0), 7, 9),
        Err(EngineError::InvalidPeriod)
    );
    assert_eq!(
        resolve_period(PeriodChoice::Auto, 0, 9),
        Err(EngineError::InvalidPeriod)
    );
    assert_eq!(
        resolve_period(PeriodChoice::Explicit(10), 0, 9),
        Err(EngineError::InvalidPeriod)
    );
}

#[test]
fn chunk_columns_discard_incomplete_tail() {
    let v = codes(&[1.0, 2.0, 3.0, 4.0, 5.0, 6.0, 7.0]);
    let cols = column_chunks(&v, 2);
    assert_eq!(cols.len(), 2);
    assert_eq!(cols[0], codes(&[1.0, 3.0, 5.0]));
    assert_eq!(cols[1], codes(&[2.0, 4.0, 6.0]));
}

#[test]
fn seasonal_profile_tiles_with_truncation() {
    let profile = codes(&[7.0, 8.0, 9.0]);
    let tiled = tile(&profile, 7);
    assert_eq!(tiled, codes(&[7.0, 8.0, 9.0, 7.0, 8.0, 9.0, 7.0]));
}

#[test]
fn matrix_layout_and_transpose() {
    let m = Matrix::new(2, 3, codes(&[1.0, 2.0, 3.0, 4.0, 5.0, 6.0]));
    assert_eq!(decode(m.get(0, 2)), 3.0);
    assert_eq!(decode(m.get(1, 0)), 4.0);
    let t = m.transpose();
    assert_eq!((t.rows, t.cols), (3, 2));
    assert_eq!(t.data, codes(&[1.0, 4.0, 2.0, 5.0, 3.0, 6.0]));
}

#[test]
fn inversion_outcome_maps_to_the_error_taxonomy() {
    let m = Matrix::new(1, 1, codes(&[2.0]));
    let kept = inversion_result(Some(m)).unwrap();
    assert_eq!(kept.data, codes(&[2.0]));
    match inversion_result(None) {
        Err(EngineError::NotInvertible) => {}
        _ => panic!("a missing inverse must be reported as NotInvertible"),
    }
}

#[test]
fn singular_matrix_fails_with_not_invertible() {
    // The all-zero matrix has no inverse: the numeric routine yields no
    // result, and the library reports it as NotInvertible.
    let zero = nalgebra::DMatrix::<f64>::zeros(2, 2);
    let outcome = zero
        .try_inverse()
        .map(|inv| Matrix::new(2, 2, codes(&[inv[(0, 0)], inv[(0, 1)], inv[(1, 0)], inv[(1, 1)]])));
    assert_eq!(inversion_result(outcome).err(), Some(EngineError::NotInvertible));
}

#[test]
fn inverting_twice_recovers_a_well_conditioned_matrix() {
    let a = nalgebra::DMatrix::<f64>::from_row_slice(2, 2, &[4.0, 7.0, 2.0, 6.0]);
    let inv = a.clone().try_inverse().expect("well-conditioned");
    let back = inv.try_inverse().expect("well-conditioned");
    for i in 0..2 {
        for j in 0..2 {
            assert!((back[(i, j)] - a[(i, j)]).abs() < 1e-9);
        }
    }
}

#[test]
fn three_sigma_outlier_is_reported_with_its_index() {
    let values = vec![1.0, 1.0, 1.0, 1.0, 1.0, 1.0, 1.0, 1.0, 1.0, 100.0];
    let n = values.len() as f64;
    let mean = values.iter().sum::<f64>() / n;
    let std = (values.iter().map(|x| (x - mean) * (x - mean)).sum::<f64>() / n).sqrt();
    let upper = mean + 3.0 * std;
    let lower = mean - 3.0 * std;
    let flags: Vec<bool> = values.iter().map(|v| *v >= upper || *v <= lower).collect();
    let series = codes(&values);
    let report = select_outliers(&series, &flags);
    assert_eq!(report, vec![(9usize, code(100.0))]);
}

#[test]
fn no_outliers_in_a_flat_series() {
    let values = vec![5.0; 8];
    let flags = vec![false; 8];
    let report = select_outliers(&codes(&values), &flags);
    assert!(report.is_empty());
}

#[test]
fn prefix_drops_the_trailing_edge() {
    let s = TimeSeries::new(codes(&[1.0, 2.0, 3.0, 4.0]));
    let head = s.prefix(2);
    assert_eq!(head.as_flat_vec(), codes(&[1.0, 2.0]));
    assert_eq!(s.prefix(0).len(), 0);
    assert_eq!(s.prefix(4).as_flat_vec(), s.as_flat_vec());
}

#[test]
fn one_chunk_per_period_spanning_the_whole_series() {
    let v = codes(&[1.0, 2.0, 3.0]);
    let cols = column_chunks(&v, 3);
    assert_eq!(cols.len(), 3);
    assert_eq!(cols[0], codes(&[1.0]));
    assert_eq!(cols[1], codes(&[2.0]));
    assert_eq!(cols[2], codes(&[3.0]));
}

#[test]
fn detrended_is_seasonal_plus_residual() {
    // A decomposition step on concrete data: seasonal profile by column
    // means over complete chunks, tiled back over the series; the residual
    // is what subtraction leaves, so adding the parts recovers the series
    // exactly here.
    let detrended = vec![1.0, 2.0, 3.0, 4.0, 5.0, 6.0, 7.0];
    let p = 3usize;
    let cols = column_chunks(&codes(&detrended), p);
    let profile: Vec<f64> = cols
        .iter()
        .map(|col| col.iter().map(|c| decode(*c)).sum::<f64>() / col.len() as f64)
        .collect();
    assert_eq!(profile, vec![2.5, 3.5, 4.5]);
    let seasonal: Vec<f64> = tile(&codes(&profile), detrended.len())
        .iter()
        .map(|c| decode(*c))
        .collect();
    let residual: Vec<f64> =
        detrended.iter().zip(seasonal.iter()).map(|(d, s)| d - s).collect();
    for i in 0..detrended.len() {
        assert_eq!(seasonal[i] + residual[i], detrended[i]);
    }
}

#[test]
fn gram_pairs_enumerate_the_cartesian_product() {
    let x = codes(&[0.0, 1.0]);
    let y = codes(&[10.0, 20.0, 30.0]);
    let pairs = Kernels::pairs(&x, &y);
    assert_eq!(pairs.len(), 6);
    assert_eq!(pairs[0], (code(0.0), code(10.0)));
    assert_eq!(pairs[2], (code(0.0), code(30.0)));
    assert_eq!(pairs[3], (code(1.0), code(10.0)));
    assert_eq!(pairs[5], (code(1.0), code(30.0)));
}
