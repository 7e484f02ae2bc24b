use asciiview::driver::{Mode, parse_mode, lex_le_bytes, sort_names};

#[test]
fn parse_mode_recognizes_the_two_words() {
    assert_eq!(parse_mode(&b"image".to_vec()), Some(Mode::Image));
    assert_eq!(parse_mode(&b"video".to_vec()), Some(Mode::Video));
    assert_eq!(parse_mode(&b"Image".to_vec()), None);
    assert_eq!(parse_mode(&b"images".to_vec()), None);
    assert_eq!(parse_mode(&b"imag".to_vec()), None);
    assert_eq!(parse_mode(&b"".to_vec()), None);
    assert_eq!(parse_mode(&b"gif".to_vec()), None);
}

#[test]
fn lex_compare_bytes() {
    assert!(lex_le_bytes(&b"a".to_vec(), &b"b".to_vec()));
    assert!(!lex_le_bytes(&b"b".to_vec(), &b"a".to_vec()));
    assert!(lex_le_bytes(&b"abc".to_vec(), &b"abc".to_vec()));
    assert!(lex_le_bytes(&b"ab".to_vec(), &b"abc".to_vec()));
    assert!(!lex_le_bytes(&b"abc".to_vec(), &b"ab".to_vec()));
    // lexicographic, not numeric: "10" sorts before "2"
    assert!(lex_le_bytes(&b"10.png".to_vec(), &b"2.png".to_vec()));
}

#[test]
fn zero_padded_frames_replay_in_temporal_order() {
    let names = vec![
        b"00000010.png".to_vec(),
        b"00000001.png".to_vec(),
        b"00000002.png".to_vec(),
    ];
    let sorted = sort_names(names);
    assert_eq!(
        sorted,
        vec![
            b"00000001.png".to_vec(),
            b"00000002.png".to_vec(),
            b"00000010.png".to_vec(),
        ]
    );
}

#[test]
fn unpadded_frames_sort_lexicographically_not_numerically() {
    let names = vec![b"2.png".to_vec(), b"10.png".to_vec(), b"1.png".to_vec()];
    let sorted = sort_names(names);
    assert_eq!(
        sorted,
        vec![b"1.png".to_vec(), b"10.png".to_vec(), b"2.png".to_vec()]
    );
}

#[test]
fn sort_keeps_duplicates() {
    let names = vec![b"b".to_vec(), b"a".to_vec(), b"b".to_vec(), b"a".to_vec()];
    let sorted = sort_names(names);
    assert_eq!(
        sorted,
        vec![b"a".to_vec(), b"a".to_vec(), b"b".to_vec(), b"b".to_vec()]
    );
}
