use asciiview::classify::nearest_index;
use asciiview::classify::luminance_glyph;
use asciiview::palette::lum_at;

fn table() -> Vec<u64> {
    let mut t = Vec::new();
    let mut i = 0usize;
    while i < 92 {
        t.push(lum_at(i) as u64);
        i += 1;
    }
    t
}

fn dist(entry: u64, num: u64, den: u64) -> u64 {
    let v = entry * den;
    let t = num * 10000;
    if v >= t {
        v - t
    } else {
        t - v
    }
}

#[test]
fn table_is_ascending() {
    let t = table();
    for i in 0..91 {
        assert!(t[i] <= t[i + 1]);
    }
}

#[test]
fn nearest_matches_linear_scan_oracle() {
    let t = table();
    // every pixel-sum luminance s/765
    for s in 0u64..=765 {
        let idx = nearest_index(s, 765);
        let best = (0..92).map(|i| dist(t[i], s, 765)).min().unwrap();
        assert_eq!(dist(t[idx], s, 765), best, "sum {}", s);
    }
    // a spread of other rationals in [0, 1]
    for n in (0u64..=10000).step_by(37) {
        let idx = nearest_index(n, 10000);
        let best = (0..92).map(|i| dist(t[i], n, 10000)).min().unwrap();
        assert_eq!(dist(t[idx], n, 10000), best, "num {}", n);
    }
}

#[test]
fn boundary_darkest_and_brightest() {
    assert_eq!(nearest_index(0, 765), 0);
    assert_eq!(luminance_glyph(0, 765), ' ');
    assert_eq!(nearest_index(765, 765), 91);
    assert_eq!(luminance_glyph(765, 765), '@');
    // luminance 0.9999 and above maps to the last glyph
    assert_eq!(nearest_index(9999, 10000), 91);
    assert_eq!(luminance_glyph(9999, 10000), '@');
    assert_eq!(nearest_index(10000, 10000), 91);
}

#[test]
fn classification_is_monotonic() {
    let t = table();
    let mut prev = nearest_index(0, 765);
    for s in 1u64..=765 {
        let cur = nearest_index(s, 765);
        if t[cur] != t[prev] {
            assert!(prev < cur, "sum {}: index {} then {}", s, prev, cur);
        }
        prev = cur;
    }
}

#[test]
fn known_glyphs() {
    // channel sums and the glyphs their luminances classify to
    assert_eq!(luminance_glyph(96, 765), '\'');
    assert_eq!(luminance_glyph(384, 765), 'S');
    assert_eq!(luminance_glyph(600, 765), '%');
    assert_eq!(luminance_glyph(429, 765), 'h');
}
