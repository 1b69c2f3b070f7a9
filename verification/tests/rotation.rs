use phase_transplant::rotate::rotate_left;

#[test]
fn rotation_wraps_the_head_to_the_end() {
    let buf: Vec<u32> = vec![1, 2, 3, 4, 5];
    assert_eq!(rotate_left(&buf, 2), vec![3, 4, 5, 1, 2]);
}

#[test]
fn rotation_preserves_length() {
    let buf: Vec<u32> = (0..17).collect();
    for k in 0..=17usize {
        assert_eq!(rotate_left(&buf, k).len(), buf.len());
    }
}

#[test]
fn rotation_round_trip_restores_the_buffer() {
    let buf: Vec<u32> = (0..13).map(|i| i * 31 + 7).collect();
    for k in 0..13usize {
        let once = rotate_left(&buf, k);
        let back = rotate_left(&once, buf.len() - k);
        assert_eq!(back, buf);
    }
}

#[test]
fn rotation_by_zero_and_by_length_are_identity() {
    let buf: Vec<u32> = vec![9, 8, 7];
    assert_eq!(rotate_left(&buf, 0), buf);
    assert_eq!(rotate_left(&buf, 3), buf);
}

#[test]
fn rotation_of_empty_buffer() {
    let buf: Vec<u32> = Vec::new();
    assert_eq!(rotate_left(&buf, 0), buf);
}
