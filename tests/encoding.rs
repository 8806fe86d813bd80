use geohashr::batch::{encode, encode_par, BatchError};
use geohashr::cell::{encode_single_gh, CellPoint, EncodeError, MAX_K, UNIT};

// Fixed-point forms (2^30 parts per axis) of a few places.
// San Francisco: longitude -122.419416, latitude 37.774929.
const SF: CellPoint = CellPoint { x: 171740781, y: 762207140 };
// Longitude -5.6, latitude 42.6.
const EZS: CellPoint = CellPoint { x: 520168261, y: 790989810 };
// The origin: longitude 0, latitude 0.
const ORIGIN: CellPoint = CellPoint { x: 536870912, y: 536870912 };

fn code(pt: CellPoint, k: usize) -> String {
    encode_single_gh(pt, k).unwrap()
}

#[test]
fn san_francisco_starts_with_nine() {
    let g = code(SF, 7);
    assert_eq!(g.len(), 7);
    assert!(g.starts_with('9'));
    assert_eq!(g, "9q8yyk8");
}

#[test]
fn known_cell_ezs42() {
    assert_eq!(code(EZS, 5), "ezs42");
}

#[test]
fn origin_single_character() {
    assert_eq!(code(ORIGIN, 1), "s");
    assert_eq!(code(ORIGIN, 12), "s00000000000");
    let r = encode(&vec![Some(ORIGIN.x)], &vec![Some(ORIGIN.y)], 1).unwrap();
    assert_eq!(r, vec![Some("s".to_string())]);
}

#[test]
fn corners_of_the_grid() {
    assert_eq!(code(CellPoint { x: 0, y: 0 }, 12), "000000000000");
    assert_eq!(code(CellPoint { x: UNIT - 1, y: UNIT - 1 }, 12), "zzzzzzzzzzzz");
    // Longitude 179.9999, latitude 89.9999.
    assert_eq!(code(CellPoint { x: 1073741525, y: 1073741227 }, 12), "zzzzzzzzmtm7");
    // Longitude -180, latitude -89.9999.
    assert_eq!(code(CellPoint { x: 0, y: 596 }, 12), "00000000848h");
}

#[test]
fn same_input_same_output() {
    for k in 1..=MAX_K {
        assert_eq!(code(SF, k), code(SF, k));
    }
}

#[test]
fn length_matches_precision() {
    for k in 1..=MAX_K {
        assert_eq!(code(SF, k).len(), k);
        assert_eq!(code(CellPoint { x: 0, y: 0 }, k).len(), k);
    }
}

#[test]
fn longer_codes_refine_shorter_ones() {
    for k in 1..MAX_K {
        let short = code(EZS, k);
        let long = code(EZS, k + 1);
        assert!(long.starts_with(&short));
    }
}

#[test]
fn whole_turns_of_longitude_wrap() {
    // Longitude 181 and -179 both lie 1/360 of a turn east of the antimeridian.
    let east = CellPoint { x: UNIT + 2982616, y: ORIGIN.y };
    let west = CellPoint { x: 2982616, y: ORIGIN.y };
    assert_eq!(code(east, 5), code(west, 5));
    assert_eq!(code(west, 5), "8008n");
    assert_eq!(code(CellPoint { x: SF.x + 3 * UNIT, y: SF.y }, 9), code(SF, 9));
}

#[test]
fn latitude_at_north_pole_is_rejected() {
    assert_eq!(
        encode_single_gh(CellPoint { x: 0, y: UNIT }, 5),
        Err(EncodeError::LatitudeOutOfRange)
    );
    assert_eq!(
        encode_single_gh(CellPoint { x: 0, y: u64::MAX }, 13),
        Err(EncodeError::LatitudeOutOfRange)
    );
}

#[test]
fn precision_outside_range_is_rejected() {
    assert_eq!(encode_single_gh(SF, 0), Err(EncodeError::PrecisionOutOfRange));
    assert_eq!(encode_single_gh(SF, 13), Err(EncodeError::PrecisionOutOfRange));
}

#[test]
fn batch_rejects_bad_precision() {
    let xs = vec![Some(SF.x)];
    let ys = vec![Some(SF.y)];
    assert_eq!(encode(&xs, &ys, 0), Err(BatchError::PrecisionOutOfRange));
    assert_eq!(encode(&xs, &ys, 13), Err(BatchError::PrecisionOutOfRange));
    assert_eq!(encode_par(&xs, &ys, -1), Err(BatchError::PrecisionOutOfRange));
}

#[test]
fn batch_rejects_length_mismatch() {
    let xs = vec![Some(SF.x), Some(EZS.x)];
    let ys = vec![Some(SF.y)];
    assert_eq!(encode(&xs, &ys, 5), Err(BatchError::LengthMismatch));
    assert_eq!(encode_par(&xs, &ys, 5), Err(BatchError::LengthMismatch));
}

#[test]
fn batch_marks_bad_elements_missing() {
    let xs = vec![Some(SF.x), None, Some(EZS.x), Some(0)];
    let ys = vec![Some(SF.y), Some(0), Some(EZS.y), Some(UNIT)];
    let expected = vec![Some("9q8yyk8".to_string()), None, Some("ezs42e4".to_string()), None];
    assert_eq!(encode(&xs, &ys, 7).unwrap(), expected);
    assert_eq!(encode_par(&xs, &ys, 7).unwrap(), expected);
}

#[test]
fn empty_batch() {
    assert_eq!(encode(&vec![], &vec![], 4).unwrap(), Vec::<Option<String>>::new());
    assert_eq!(encode_par(&vec![], &vec![], 4).unwrap(), Vec::<Option<String>>::new());
}

#[test]
fn strategies_agree_on_a_large_batch() {
    let n = 100_000;
    let mut state: u64 = 0x2545f4914f6cdd1d;
    let mut xs = Vec::with_capacity(n);
    let mut ys = Vec::with_capacity(n);
    for _ in 0..n {
        state = state.wrapping_mul(6364136223846793005).wrapping_add(1442695040888963407);
        xs.push(Some(state >> 33));
        state = state.wrapping_mul(6364136223846793005).wrapping_add(1442695040888963407);
        ys.push(Some((state >> 34) % UNIT));
    }
    let seq = encode(&xs, &ys, 9).unwrap();
    let par = encode_par(&xs, &ys, 9).unwrap();
    assert_eq!(seq.len(), n);
    assert_eq!(seq, par);
    for i in [0usize, 1, 4095, 4096, 50_000, n - 1] {
        let pt = CellPoint { x: xs[i].unwrap(), y: ys[i].unwrap() };
        assert_eq!(seq[i], Some(code(pt, 9)));
    }
}
