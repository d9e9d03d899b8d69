use matmul_flat::layout::{index_of, matrix_len, CapacityOverflow};

#[test]
fn matrix_len_squares_the_dimension() {
    assert_eq!(matrix_len(0), Ok(0));
    assert_eq!(matrix_len(1), Ok(1));
    assert_eq!(matrix_len(2), Ok(4));
    assert_eq!(matrix_len(1000), Ok(1_000_000));
}

#[test]
fn matrix_len_reports_overflow() {
    assert_eq!(matrix_len(usize::MAX), Err(CapacityOverflow { dimension: usize::MAX }));
    let n: usize = 1 << (usize::BITS / 2);
    assert_eq!(matrix_len(n), Err(CapacityOverflow { dimension: n }));
    assert_eq!(matrix_len(n - 1), Ok((n - 1) * (n - 1)));
}

#[test]
fn index_is_row_major() {
    assert_eq!(index_of(1, 0, 0), 0);
    assert_eq!(index_of(2, 0, 1), 1);
    assert_eq!(index_of(2, 1, 0), 2);
    assert_eq!(index_of(3, 2, 2), 8);
    assert_eq!(index_of(1000, 999, 999), 999_999);
    assert_eq!(index_of(1000, 3, 7), 3007);
}

#[test]
fn indices_enumerate_the_buffer_in_order() {
    for n in [1usize, 2, 3, 10] {
        let mut expected = 0;
        for i in 0..n {
            for j in 0..n {
                assert_eq!(index_of(n, i, j), expected);
                expected += 1;
            }
        }
        assert_eq!(Ok(expected), matrix_len(n));
    }
}

#[test]
fn rows_cover_the_buffer_without_overlap_or_gap() {
    for n in [1usize, 2, 3, 7, 32] {
        let len = matrix_len(n).unwrap();
        let mut owners = vec![0usize; len];
        let mut previous_end = 0;
        for i in 0..n {
            let start = index_of(n, i, 0);
            let end = index_of(n, i, n - 1) + 1;
            assert_eq!(start, previous_end);
            assert_eq!(end - start, n);
            for p in start..end {
                owners[p] += 1;
                assert_eq!(p / n, i);
            }
            previous_end = end;
        }
        assert_eq!(previous_end, len);
        assert!(owners.iter().all(|&count| count == 1));
    }
}
