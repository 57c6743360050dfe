use contract_enclave::median::median_positions;

#[test]
fn odd_count_has_one_middle_position() {
    assert_eq!(median_positions(7), (3, 3));
    assert_eq!(median_positions(1), (0, 0));
    assert_eq!(median_positions(usize::MAX), (usize::MAX / 2, usize::MAX / 2));
}

#[test]
fn even_count_has_two_middle_positions() {
    assert_eq!(median_positions(8), (3, 4));
    assert_eq!(median_positions(2), (0, 1));
}

#[test]
fn median_of_sorted_floats() {
    let odd: Vec<f32> = vec![1.0, 2.0, 3.0, 6.0, 8.0, 9.0, 10.0];
    let (i, j) = median_positions(odd.len());
    assert_eq!((odd[i] + odd[j]) / 2.0, 6.0);
    let even: Vec<f32> = vec![1.0, 2.0, 3.0, 4.0, 5.0, 6.0, 7.0, 8.0];
    let (i, j) = median_positions(even.len());
    assert_eq!((even[i] + even[j]) / 2.0, 4.5);
}
