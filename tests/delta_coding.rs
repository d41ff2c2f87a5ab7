use osm_to_parquet::delta::{delta_decode, delta_encode};

#[test]
fn delta_decode_gives_running_sums() {
    assert_eq!(delta_decode(&[5, -2, 10, 0, -13]), Some(vec![5, 3, 13, 13, 0]));
}

#[test]
fn delta_decode_empty_stream() {
    assert_eq!(delta_decode(&[]), Some(vec![]));
}

#[test]
fn delta_round_trip_reproduces_input() {
    let deltas = vec![100, -7, 3, i64::MAX - 96, -5];
    let values = delta_decode(&deltas).unwrap();
    assert_eq!(delta_encode(&values), Some(deltas));
}

#[test]
fn delta_encode_then_decode() {
    let values = vec![-4, 17, 17, 2, 900];
    let deltas = delta_encode(&values).unwrap();
    assert_eq!(deltas, vec![-4, 21, 0, -15, 898]);
    assert_eq!(delta_decode(&deltas), Some(values));
}

#[test]
fn delta_decode_rejects_overflowing_sum() {
    assert_eq!(delta_decode(&[i64::MAX, 1]), None);
    assert_eq!(delta_decode(&[i64::MIN, -1]), None);
}

#[test]
fn delta_encode_rejects_overflowing_difference() {
    assert_eq!(delta_encode(&[i64::MIN, i64::MAX]), None);
}
