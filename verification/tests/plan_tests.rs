use asciiview::plan::plan;

fn ceil_div(a: usize, b: usize) -> usize {
    (a - 1) / b + 1
}

#[test]
fn strides_are_positive_and_fit() {
    let cases = [
        (1usize, 1usize, 1usize, 1usize),
        (100, 100, 80, 24),
        (1920, 1080, 80, 24),
        (2, 2, 2, 2),
        (7, 13, 3, 5),
        (10, 10, 1000, 1000),
        (1, 1000000, 1, 7),
    ];
    for &(w, h, cols, rows) in cases.iter() {
        let st = plan(w, h, cols, rows);
        assert!(st.stride_x >= 1);
        assert!(st.stride_y >= 1);
        assert_eq!(st.stride_x, ceil_div(w, cols));
        assert_eq!(st.stride_y, ceil_div(h, rows));
        assert!(ceil_div(w, st.stride_x) <= cols);
        assert!(ceil_div(h, st.stride_y) <= rows);
    }
}

#[test]
fn small_image_keeps_native_resolution() {
    // image smaller than the terminal: stride 1, every pixel sampled
    let st = plan(10, 5, 80, 24);
    assert_eq!(st.stride_x, 1);
    assert_eq!(st.stride_y, 1);
}

#[test]
fn hundred_square_against_80x24() {
    let st = plan(100, 100, 80, 24);
    assert_eq!(st.stride_x, 2);
    assert_eq!(st.stride_y, 5);
    assert_eq!(ceil_div(100, st.stride_x), 50);
    assert_eq!(ceil_div(100, st.stride_y), 20);
}
