use xla::error::Error;
use xla::reduce::reduced_dims;
use xla::rows::row_major;
use xla::status::{checked_size, collect_fetched, handle_status};

#[test]
fn malformed_mat() {
    let bad_mat = [
        [1.0f32, 2.0f32, 3.0f32].as_slice(),
        [4.0f32, 5.0f32, 6.0f32].as_slice(),
        [7.0f32, 8.0f32].as_slice(),
    ];
    assert!(row_major(&bad_mat).is_none());

    let good_mat = [
        [1.0f32, 2.0f32, 3.0f32].as_slice(),
        [4.0f32, 5.0f32, 6.0f32].as_slice(),
        [7.0f32, 8.0f32, 9.0f32].as_slice(),
    ];
    let (cols, data) = row_major(&good_mat).unwrap();
    assert_eq!(cols, 3);
    assert_eq!(data, [1., 2., 3., 4., 5., 6., 7., 8., 9.]);
}

#[test]
fn row_major_edge_cases() {
    let empty: [&[i32]; 0] = [];
    assert_eq!(row_major(&empty), Some((0, vec![])));
    let one = [[5i32, 6].as_slice()];
    assert_eq!(row_major(&one), Some((2, vec![5, 6])));
    let zero_cols = [[].as_slice(), [].as_slice()];
    assert_eq!(row_major::<i32>(&zero_cols), Some((0, vec![])));
    let ragged = [[1i32].as_slice(), [].as_slice()];
    assert_eq!(row_major(&ragged), None);
}

#[test]
fn reduce_keeps_or_drops_axes() {
    assert_eq!(reduced_dims(&[2], &[0], false), Vec::<i64>::new());
    assert_eq!(reduced_dims(&[2], &[0], true), vec![1]);
    assert_eq!(reduced_dims(&[2], &[], false), vec![2]);
    assert_eq!(reduced_dims(&[2], &[], true), vec![2]);
    assert_eq!(reduced_dims(&[2, 3, 4], &[1], false), vec![2, 4]);
    assert_eq!(reduced_dims(&[2, 3, 4], &[2, 0], true), vec![1, 3, 1]);
    assert_eq!(reduced_dims(&[2, 3, 4], &[0, 1, 2], false), Vec::<i64>::new());
    assert_eq!(reduced_dims(&[-2], &[0], true), vec![1]);
}

#[test]
fn status_bridge() {
    assert_eq!(handle_status(None), Ok(()));
    match handle_status(Some("bad graph".to_string())) {
        Err(Error::XlaError { msg, .. }) => assert_eq!(msg, "bad graph"),
        other => panic!("unexpected {other:?}"),
    }
}

#[test]
fn sizes_from_status() {
    assert_eq!(checked_size(None, 7), Ok(7));
    assert_eq!(checked_size(None, 0), Ok(0));
    match checked_size(Some("no module".to_string()), -1) {
        Err(Error::XlaError { msg, .. }) => assert_eq!(msg, "no module"),
        other => panic!("unexpected {other:?}"),
    }
}

#[test]
fn fetched_handles_are_all_kept() {
    let handles = vec![10u64, 20, 30];
    let (items, status) = collect_fetched(&handles, |h: u64| (h, h + 1), None);
    assert_eq!(items, vec![(10, 11), (20, 21), (30, 31)]);
    assert_eq!(status, Ok(()));
    let (items, status) = collect_fetched(&handles, |h: u64| h * 2, Some("partial".to_string()));
    assert_eq!(items, vec![20, 40, 60]);
    assert!(matches!(status, Err(Error::XlaError { msg, .. }) if msg == "partial"));
}
