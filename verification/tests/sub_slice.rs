use lpm013m126::sub_slice::SubSlice;

#[test]
fn window_spans_new_buffer() {
    let data = SubSlice::new(vec![1, 2, 3]);
    assert_eq!(data.len(), 3);
    assert_eq!(data.capacity(), 3);
    assert_eq!(data.as_slice(), &[1, 2, 3]);
}

#[test]
fn slices_count_from_the_window() {
    let mut data = SubSlice::new(vec![0, 1, 2, 3, 4, 5]);
    data.slice(1, 5);
    assert_eq!(data.as_slice(), &[1, 2, 3, 4]);
    data.slice(2, 3);
    assert_eq!(data.as_slice(), &[3]);
    assert_eq!(data.len(), 1);
    assert_eq!(data.capacity(), 6);
}

#[test]
fn reset_and_take_give_everything() {
    let mut data = SubSlice::new(vec![7, 8, 9]);
    data.slice(1, 1);
    assert_eq!(data.len(), 0);
    data.reset();
    assert_eq!(data.as_slice(), &[7, 8, 9]);
    data.slice(2, 3);
    assert_eq!(data.take(), vec![7, 8, 9]);
}
