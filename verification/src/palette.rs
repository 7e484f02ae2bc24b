//! The fixed luminance table and glyph palette.
//!
//! Ninety-two reference luminance values, ascending, each scaled by
//! 10000 so that a value `v` stands for the luminance `v / 10000`.
//! The glyph palette is aligned positionally with the table, ordered
//! from the sparsest-appearing character to the densest.

use vstd::prelude::*;

verus! {

/// Number of entries in the luminance table and the glyph palette.
pub open spec fn table_len() -> int {
    92
}

/// The reference luminance at index `i`, scaled by 10000.
/// Out-of-range indices take the boundary values.
pub open spec fn lum(i: int) -> int {
    if i <= 0 {
        0
    } else if i == 1 {
        751
    } else if i == 2 {
        829
    } else if i == 3 {
        848
    } else if i == 4 {
        1227
    } else if i == 5 {
        1403
    } else if i == 6 {
        1559
    } else if i == 7 {
        1850
    } else if i == 8 {
        2183
    } else if i == 9 {
        2417
    } else if i == 10 {
        2571
    } else if i == 11 {
        2852
    } else if i == 12 {
        2902
    } else if i == 13 {
        2919
    } else if i == 14 {
        3099
    } else if i == 15 {
        3192
    } else if i == 16 {
        3232
    } else if i == 17 {
        3294
    } else if i == 18 {
        3384
    } else if i == 19 {
        3609
    } else if i == 20 {
        3619
    } else if i == 21 {
        3667
    } else if i == 22 {
        3737
    } else if i == 23 {
        3747
    } else if i == 24 {
        3838
    } else if i == 25 {
        3921
    } else if i == 26 {
        3960
    } else if i == 27 {
        3984
    } else if i == 28 {
        3993
    } else if i == 29 {
        4075
    } else if i == 30 {
        4091
    } else if i == 31 {
        4101
    } else if i == 32 {
        4200
    } else if i == 33 {
        4230
    } else if i == 34 {
        4247
    } else if i == 35 {
        4274
    } else if i == 36 {
        4293
    } else if i == 37 {
        4328
    } else if i == 38 {
        4382
    } else if i == 39 {
        4385
    } else if i == 40 {
        4420
    } else if i == 41 {
        4473
    } else if i == 42 {
        4477
    } else if i == 43 {
        4503
    } else if i == 44 {
        4562
    } else if i == 45 {
        4580
    } else if i == 46 {
        4610
    } else if i == 47 {
        4638
    } else if i == 48 {
        4667
    } else if i == 49 {
        4686
    } else if i == 50 {
        4693
    } else if i == 51 {
        4703
    } else if i == 52 {
        4833
    } else if i == 53 {
        4881
    } else if i == 54 {
        4944
    } else if i == 55 {
        4953
    } else if i == 56 {
        4992
    } else if i == 57 {
        5509
    } else if i == 58 {
        5567
    } else if i == 59 {
        5569
    } else if i == 60 {
        5591
    } else if i == 61 {
        5602
    } else if i == 62 {
        5602
    } else if i == 63 {
        5650
    } else if i == 64 {
        5776
    } else if i == 65 {
        5777
    } else if i == 66 {
        5818
    } else if i == 67 {
        5870
    } else if i == 68 {
        5972
    } else if i == 69 {
        5999
    } else if i == 70 {
        6043
    } else if i == 71 {
        6049
    } else if i == 72 {
        6093
    } else if i == 73 {
        6099
    } else if i == 74 {
        6465
    } else if i == 75 {
        6561
    } else if i == 76 {
        6595
    } else if i == 77 {
        6631
    } else if i == 78 {
        6714
    } else if i == 79 {
        6759
    } else if i == 80 {
        6809
    } else if i == 81 {
        6816
    } else if i == 82 {
        6925
    } else if i == 83 {
        7039
    } else if i == 84 {
        7086
    } else if i == 85 {
        7235
    } else if i == 86 {
        7302
    } else if i == 87 {
        7332
    } else if i == 88 {
        7602
    } else if i == 89 {
        7834
    } else if i == 90 {
        8037
    } else {
        9999
    }
}

/// The glyph at index `i` of the palette, aligned with `lum`.
/// Out-of-range indices take the boundary glyphs.
pub open spec fn glyph(i: int) -> char {
    if i <= 0 {
        ' '
    } else if i == 1 {
        '`'
    } else if i == 2 {
        '.'
    } else if i == 3 {
        '-'
    } else if i == 4 {
        '\''
    } else if i == 5 {
        ':'
    } else if i == 6 {
        '_'
    } else if i == 7 {
        ','
    } else if i == 8 {
        '^'
    } else if i == 9 {
        '='
    } else if i == 10 {
        ';'
    } else if i == 11 {
        '>'
    } else if i == 12 {
        '<'
    } else if i == 13 {
        '+'
    } else if i == 14 {
        '!'
    } else if i == 15 {
        'r'
    } else if i == 16 {
        'c'
    } else if i == 17 {
        '*'
    } else if i == 18 {
        '/'
    } else if i == 19 {
        'z'
    } else if i == 20 {
        '?'
    } else if i == 21 {
        's'
    } else if i == 22 {
        'L'
    } else if i == 23 {
        'T'
    } else if i == 24 {
        'v'
    } else if i == 25 {
        ')'
    } else if i == 26 {
        'J'
    } else if i == 27 {
        '7'
    } else if i == 28 {
        '('
    } else if i == 29 {
        '|'
    } else if i == 30 {
        'F'
    } else if i == 31 {
        'i'
    } else if i == 32 {
        '{'
    } else if i == 33 {
        'C'
    } else if i == 34 {
        '}'
    } else if i == 35 {
        'f'
    } else if i == 36 {
        'I'
    } else if i == 37 {
        '3'
    } else if i == 38 {
        '1'
    } else if i == 39 {
        't'
    } else if i == 40 {
        'l'
    } else if i == 41 {
        'u'
    } else if i == 42 {
        '['
    } else if i == 43 {
        'n'
    } else if i == 44 {
        'e'
    } else if i == 45 {
        'o'
    } else if i == 46 {
        'Z'
    } else if i == 47 {
        '5'
    } else if i == 48 {
        'Y'
    } else if i == 49 {
        'x'
    } else if i == 50 {
        'j'
    } else if i == 51 {
        'y'
    } else if i == 52 {
        'a'
    } else if i == 53 {
        ']'
    } else if i == 54 {
        '2'
    } else if i == 55 {
        'E'
    } else if i == 56 {
        'S'
    } else if i == 57 {
        'w'
    } else if i == 58 {
        'q'
    } else if i == 59 {
        'k'
    } else if i == 60 {
        'P'
    } else if i == 61 {
        '6'
    } else if i == 62 {
        'h'
    } else if i == 63 {
        '9'
    } else if i == 64 {
        'd'
    } else if i == 65 {
        '4'
    } else if i == 66 {
        'V'
    } else if i == 67 {
        'p'
    } else if i == 68 {
        'O'
    } else if i == 69 {
        'G'
    } else if i == 70 {
        'b'
    } else if i == 71 {
        'U'
    } else if i == 72 {
        'A'
    } else if i == 73 {
        'K'
    } else if i == 74 {
        'X'
    } else if i == 75 {
        'H'
    } else if i == 76 {
        'm'
    } else if i == 77 {
        '8'
    } else if i == 78 {
        'R'
    } else if i == 79 {
        'D'
    } else if i == 80 {
        '#'
    } else if i == 81 {
        '$'
    } else if i == 82 {
        'B'
    } else if i == 83 {
        'g'
    } else if i == 84 {
        '0'
    } else if i == 85 {
        'M'
    } else if i == 86 {
        'N'
    } else if i == 87 {
        'W'
    } else if i == 88 {
        'Q'
    } else if i == 89 {
        '%'
    } else if i == 90 {
        '&'
    } else {
        '@'
    }
}

/// Reads the scaled luminance table at `i`.
pub fn lum_at(i: usize) -> (r: u32)
    requires
        i < 92,
    ensures
        r as int == lum(i as int),
{
    match i {
        0 => 0,
        1 => 751,
        2 => 829,
        3 => 848,
        4 => 1227,
        5 => 1403,
        6 => 1559,
        7 => 1850,
        8 => 2183,
        9 => 2417,
        10 => 2571,
        11 => 2852,
        12 => 2902,
        13 => 2919,
        14 => 3099,
        15 => 3192,
        16 => 3232,
        17 => 3294,
        18 => 3384,
        19 => 3609,
        20 => 3619,
        21 => 3667,
        22 => 3737,
        23 => 3747,
        24 => 3838,
        25 => 3921,
        26 => 3960,
        27 => 3984,
        28 => 3993,
        29 => 4075,
        30 => 4091,
        31 => 4101,
        32 => 4200,
        33 => 4230,
        34 => 4247,
        35 => 4274,
        36 => 4293,
        37 => 4328,
        38 => 4382,
        39 => 4385,
        40 => 4420,
        41 => 4473,
        42 => 4477,
        43 => 4503,
        44 => 4562,
        45 => 4580,
        46 => 4610,
        47 => 4638,
        48 => 4667,
        49 => 4686,
        50 => 4693,
        51 => 4703,
        52 => 4833,
        53 => 4881,
        54 => 4944,
        55 => 4953,
        56 => 4992,
        57 => 5509,
        58 => 5567,
        59 => 5569,
        60 => 5591,
        61 => 5602,
        62 => 5602,
        63 => 5650,
        64 => 5776,
        65 => 5777,
        66 => 5818,
        67 => 5870,
        68 => 5972,
        69 => 5999,
        70 => 6043,
        71 => 6049,
        72 => 6093,
        73 => 6099,
        74 => 6465,
        75 => 6561,
        76 => 6595,
        77 => 6631,
        78 => 6714,
        79 => 6759,
        80 => 6809,
        81 => 6816,
        82 => 6925,
        83 => 7039,
        84 => 7086,
        85 => 7235,
        86 => 7302,
        87 => 7332,
        88 => 7602,
        89 => 7834,
        90 => 8037,
        91 => 9999,
        _ => 0,
    }
}

/// Reads the glyph palette at `i`.
pub fn glyph_at(i: usize) -> (r: char)
    requires
        i < 92,
    ensures
        r == glyph(i as int),
{
    match i {
        0 => ' ',
        1 => '`',
        2 => '.',
        3 => '-',
        4 => '\'',
        5 => ':',
        6 => '_',
        7 => ',',
        8 => '^',
        9 => '=',
        10 => ';',
        11 => '>',
        12 => '<',
        13 => '+',
        14 => '!',
        15 => 'r',
        16 => 'c',
        17 => '*',
        18 => '/',
        19 => 'z',
        20 => '?',
        21 => 's',
        22 => 'L',
        23 => 'T',
        24 => 'v',
        25 => ')',
        26 => 'J',
        27 => '7',
        28 => '(',
        29 => '|',
        30 => 'F',
        31 => 'i',
        32 => '{',
        33 => 'C',
        34 => '}',
        35 => 'f',
        36 => 'I',
        37 => '3',
        38 => '1',
        39 => 't',
        40 => 'l',
        41 => 'u',
        42 => '[',
        43 => 'n',
        44 => 'e',
        45 => 'o',
        46 => 'Z',
        47 => '5',
        48 => 'Y',
        49 => 'x',
        50 => 'j',
        51 => 'y',
        52 => 'a',
        53 => ']',
        54 => '2',
        55 => 'E',
        56 => 'S',
        57 => 'w',
        58 => 'q',
        59 => 'k',
        60 => 'P',
        61 => '6',
        62 => 'h',
        63 => '9',
        64 => 'd',
        65 => '4',
        66 => 'V',
        67 => 'p',
        68 => 'O',
        69 => 'G',
        70 => 'b',
        71 => 'U',
        72 => 'A',
        73 => 'K',
        74 => 'X',
        75 => 'H',
        76 => 'm',
        77 => '8',
        78 => 'R',
        79 => 'D',
        80 => '#',
        81 => '$',
        82 => 'B',
        83 => 'g',
        84 => '0',
        85 => 'M',
        86 => 'N',
        87 => 'W',
        88 => 'Q',
        89 => '%',
        90 => '&',
        91 => '@',
        _ => ' ',
    }
}

/// The table is ascending up to index `n - 1`.
pub open spec fn lum_sorted_upto(n: int) -> bool
    decreases n,
{
    if n <= 1 {
        true
    } else {
        lum_sorted_upto(n - 1) && lum(n - 2) <= lum(n - 1)
    }
}

proof fn lemma_adjacent(n: int, k: int)
    requires
        lum_sorted_upto(n),
        0 <= k,
        k + 2 <= n,
    ensures
        lum(k) <= lum(k + 1),
    decreases n,
{
    if k + 2 < n {
        lemma_adjacent(n - 1, k);
    }
}

proof fn lemma_pair(i: int, j: int)
    requires
        lum_sorted_upto(92),
        0 <= i <= j < 92,
    ensures
        lum(i) <= lum(j),
    decreases j - i,
{
    if i < j {
        lemma_pair(i, j - 1);
        lemma_adjacent(92, j - 1);
    }
}

/// The luminance table is ascending: later entries are never smaller.
pub proof fn lemma_lum_sorted()
    ensures
        forall|i: int, j: int| 0 <= i <= j < 92 ==> lum(i) <= lum(j),
{
    assert(lum_sorted_upto(1));
    assert(lum_sorted_upto(2));
    assert(lum_sorted_upto(3));
    assert(lum_sorted_upto(4));
    assert(lum_sorted_upto(5));
    assert(lum_sorted_upto(6));
    assert(lum_sorted_upto(7));
    assert(lum_sorted_upto(8));
    assert(lum_sorted_upto(9));
    assert(lum_sorted_upto(10));
    assert(lum_sorted_upto(11));
    assert(lum_sorted_upto(12));
    assert(lum_sorted_upto(13));
    assert(lum_sorted_upto(14));
    assert(lum_sorted_upto(15));
    assert(lum_sorted_upto(16));
    assert(lum_sorted_upto(17));
    assert(lum_sorted_upto(18));
    assert(lum_sorted_upto(19));
    assert(lum_sorted_upto(20));
    assert(lum_sorted_upto(21));
    assert(lum_sorted_upto(22));
    assert(lum_sorted_upto(23));
    assert(lum_sorted_upto(24));
    assert(lum_sorted_upto(25));
    assert(lum_sorted_upto(26));
    assert(lum_sorted_upto(27));
    assert(lum_sorted_upto(28));
    assert(lum_sorted_upto(29));
    assert(lum_sorted_upto(30));
    assert(lum_sorted_upto(31));
    assert(lum_sorted_upto(32));
    assert(lum_sorted_upto(33));
    assert(lum_sorted_upto(34));
    assert(lum_sorted_upto(35));
    assert(lum_sorted_upto(36));
    assert(lum_sorted_upto(37));
    assert(lum_sorted_upto(38));
    assert(lum_sorted_upto(39));
    assert(lum_sorted_upto(40));
    assert(lum_sorted_upto(41));
    assert(lum_sorted_upto(42));
    assert(lum_sorted_upto(43));
    assert(lum_sorted_upto(44));
    assert(lum_sorted_upto(45));
    assert(lum_sorted_upto(46));
    assert(lum_sorted_upto(47));
    assert(lum_sorted_upto(48));
    assert(lum_sorted_upto(49));
    assert(lum_sorted_upto(50));
    assert(lum_sorted_upto(51));
    assert(lum_sorted_upto(52));
    assert(lum_sorted_upto(53));
    assert(lum_sorted_upto(54));
    assert(lum_sorted_upto(55));
    assert(lum_sorted_upto(56));
    assert(lum_sorted_upto(57));
    assert(lum_sorted_upto(58));
    assert(lum_sorted_upto(59));
    assert(lum_sorted_upto(60));
    assert(lum_sorted_upto(61));
    assert(lum_sorted_upto(62));
    assert(lum_sorted_upto(63));
    assert(lum_sorted_upto(64));
    assert(lum_sorted_upto(65));
    assert(lum_sorted_upto(66));
    assert(lum_sorted_upto(67));
    assert(lum_sorted_upto(68));
    assert(lum_sorted_upto(69));
    assert(lum_sorted_upto(70));
    assert(lum_sorted_upto(71));
    assert(lum_sorted_upto(72));
    assert(lum_sorted_upto(73));
    assert(lum_sorted_upto(74));
    assert(lum_sorted_upto(75));
    assert(lum_sorted_upto(76));
    assert(lum_sorted_upto(77));
    assert(lum_sorted_upto(78));
    assert(lum_sorted_upto(79));
    assert(lum_sorted_upto(80));
    assert(lum_sorted_upto(81));
    assert(lum_sorted_upto(82));
    assert(lum_sorted_upto(83));
    assert(lum_sorted_upto(84));
    assert(lum_sorted_upto(85));
    assert(lum_sorted_upto(86));
    assert(lum_sorted_upto(87));
    assert(lum_sorted_upto(88));
    assert(lum_sorted_upto(89));
    assert(lum_sorted_upto(90));
    assert(lum_sorted_upto(91));
    assert(lum_sorted_upto(92));
    assert forall|i: int, j: int| 0 <= i <= j < 92 implies lum(i) <= lum(j) by {
        lemma_pair(i, j);
    }
}

/// Every entry lies in the scaled range `[0, 9999]`, the first entry is
/// exactly 0, the last exactly 9999, the second 751 and the
/// second-to-last 8037.
pub proof fn lemma_lum_bounds()
    ensures
        lum(0) == 0,
        lum(1) == 751,
        lum(90) == 8037,
        lum(91) == 9999,
        forall|i: int| 0 <= i < 92 ==> 0 <= #[trigger] lum(i) <= 9999,
        forall|i: int| 1 <= i < 92 ==> #[trigger] lum(i) >= 751,
        forall|i: int| 0 <= i < 91 ==> #[trigger] lum(i) <= 8037,
{
    lemma_lum_sorted();
    assert forall|i: int| 0 <= i < 92 implies 0 <= #[trigger] lum(i) <= 9999 by {
        assert(lum(0) <= lum(i) <= lum(91));
    }
    assert forall|i: int| 1 <= i < 92 implies #[trigger] lum(i) >= 751 by {
        assert(lum(1) <= lum(i));
    }
    assert forall|i: int| 0 <= i < 91 implies #[trigger] lum(i) <= 8037 by {
        assert(lum(i) <= lum(90));
    }
}

} // verus!
