//! Playback driver decisions: selecting the run mode from the
//! command-line argument, and ordering frame files by name.
//!
//! Frame files extracted from a video are replayed in the lexicographic
//! order of their names; with zero-padded sequence numbers that order
//! equals temporal order.

use vstd::prelude::*;

verus! {

/// The two run modes: render one image, or replay extracted frames.
#[derive(Clone, Copy, PartialEq, Eq, Structural, Debug)]
pub enum Mode {
    Image,
    Video,
}

/// The bytes of the word "image".
pub open spec fn image_word() -> Seq<u8> {
    seq![105u8, 109u8, 97u8, 103u8, 101u8]
}

/// The bytes of the word "video".
pub open spec fn video_word() -> Seq<u8> {
    seq![118u8, 105u8, 100u8, 101u8, 111u8]
}

/// Selects the run mode from the mode argument's bytes: `Some(Image)`
/// exactly for "image", `Some(Video)` exactly for "video", `None` for
/// anything else.
pub fn parse_mode(arg: &Vec<u8>) -> (m: Option<Mode>)
    ensures
        (m == Some(Mode::Image)) <==> arg@ == image_word(),
        (m == Some(Mode::Video)) <==> arg@ == video_word(),
        (m is None) <==> (arg@ != image_word() && arg@ != video_word()),
{
    if arg.len() == 5 {
        if arg[0] == 105 && arg[1] == 109 && arg[2] == 97 && arg[3] == 103 && arg[4] == 101 {
            proof {
                assert(arg@ =~= image_word());
            }
            return Some(Mode::Image);
        }
        if arg[0] == 118 && arg[1] == 105 && arg[2] == 100 && arg[3] == 101 && arg[4] == 111 {
            proof {
                assert(arg@ =~= video_word());
            }
            return Some(Mode::Video);
        }
    }
    proof {
        assert(arg@ != image_word());
        assert(arg@ != video_word());
    }
    None
}

/// Lexicographic byte order: `a` sorts at or before `b`.
pub open spec fn lex_le(a: Seq<u8>, b: Seq<u8>) -> bool
    decreases a.len(),
{
    if a.len() == 0 {
        true
    } else if b.len() == 0 {
        false
    } else if a[0] < b[0] {
        true
    } else if a[0] > b[0] {
        false
    } else {
        lex_le(a.drop_first(), b.drop_first())
    }
}

/// The order is total: one of the two directions always holds.
pub proof fn lemma_lex_le_total(a: Seq<u8>, b: Seq<u8>)
    ensures
        lex_le(a, b) || lex_le(b, a),
    decreases a.len(),
{
    if a.len() > 0 && b.len() > 0 && a[0] == b[0] {
        lemma_lex_le_total(a.drop_first(), b.drop_first());
    }
}

/// The order is transitive.
pub proof fn lemma_lex_le_trans(a: Seq<u8>, b: Seq<u8>, c: Seq<u8>)
    requires
        lex_le(a, b),
        lex_le(b, c),
    ensures
        lex_le(a, c),
    decreases a.len(),
{
    if a.len() > 0 && b.len() > 0 && c.len() > 0 && a[0] == b[0] && b[0] == c[0] {
        lemma_lex_le_trans(a.drop_first(), b.drop_first(), c.drop_first());
    }
}

/// Compares two byte names in lexicographic order.
pub fn lex_le_bytes(a: &Vec<u8>, b: &Vec<u8>) -> (r: bool)
    ensures
        r == lex_le(a@, b@),
{
    let mut i: usize = 0;
    proof {
        assert(a@.skip(0) =~= a@);
        assert(b@.skip(0) =~= b@);
    }
    while i < a.len() && i < b.len()
        invariant
            i <= a.len(),
            i <= b.len(),
            lex_le(a@, b@) == lex_le(a@.skip(i as int), b@.skip(i as int)),
        decreases a.len() - i,
    {
        if a[i] < b[i] {
            proof {
                assert(a@.skip(i as int)[0] == a@[i as int]);
                assert(b@.skip(i as int)[0] == b@[i as int]);
                assert(lex_le(a@.skip(i as int), b@.skip(i as int)));
            }
            return true;
        }
        if a[i] > b[i] {
            proof {
                assert(a@.skip(i as int)[0] == a@[i as int]);
                assert(b@.skip(i as int)[0] == b@[i as int]);
                assert(!lex_le(a@.skip(i as int), b@.skip(i as int)));
            }
            return false;
        }
        proof {
            assert(a@.skip(i as int)[0] == a@[i as int]);
            assert(b@.skip(i as int)[0] == b@[i as int]);
            assert(a@.skip(i as int).drop_first() =~= a@.skip(i as int + 1));
            assert(b@.skip(i as int).drop_first() =~= b@.skip(i as int + 1));
        }
        i = i + 1;
    }
    proof {
        if a@.len() <= b@.len() {
            assert(a@.skip(i as int).len() == 0);
            assert(lex_le(a@.skip(i as int), b@.skip(i as int)));
        } else {
            assert(b@.skip(i as int).len() == 0);
            assert(a@.skip(i as int).len() > 0);
            assert(!lex_le(a@.skip(i as int), b@.skip(i as int)));
        }
    }
    a.len() <= b.len()
}

/// Sorts frame names into lexicographic order.  The result holds
/// exactly the input names, rearranged ascending.
pub fn sort_names(names: Vec<Vec<u8>>) -> (out: Vec<Vec<u8>>)
    ensures
        out@.len() == names@.len(),
        forall|i: int, j: int| 0 <= i <= j < out@.len() ==> lex_le(#[trigger] out@[i]@, #[trigger] out@[j]@),
        out@.to_multiset() == names@.to_multiset(),
{
    let mut rest = names;
    let mut out: Vec<Vec<u8>> = Vec::new();
    proof {
        out@.to_multiset_ensures();
        rest@.to_multiset_ensures();
        assert(out@.to_multiset().len() == 0);
        assert(out@.to_multiset().add(rest@.to_multiset()) =~= names@.to_multiset());
    }
    while rest.len() > 0
        invariant
            out@.len() + rest@.len() == names@.len(),
            out@.to_multiset().add(rest@.to_multiset()) == names@.to_multiset(),
            forall|i: int, j: int|
                0 <= i <= j < out@.len() ==> lex_le(#[trigger] out@[i]@, #[trigger] out@[j]@),
            forall|i: int, j: int|
                0 <= i < out@.len() && 0 <= j < rest@.len() ==> lex_le(
                    #[trigger] out@[i]@,
                    #[trigger] rest@[j]@,
                ),
        decreases rest@.len(),
    {
        let mut m: usize = 0;
        let mut k: usize = 1;
        proof {
            lemma_lex_le_total(rest@[0]@, rest@[0]@);
        }
        while k < rest.len()
            invariant
                0 < rest@.len(),
                m < k,
                k <= rest@.len(),
                m < rest@.len(),
                forall|t: int| 0 <= t < k ==> lex_le(rest@[m as int]@, #[trigger] rest@[t]@),
            decreases rest@.len() - k,
        {
            if lex_le_bytes(&rest[k], &rest[m]) {
                proof {
                    lemma_lex_le_total(rest@[k as int]@, rest@[k as int]@);
                    assert forall|t: int| 0 <= t < k + 1 implies lex_le(
                        rest@[k as int]@,
                        #[trigger] rest@[t]@,
                    ) by {
                        if t < k {
                            lemma_lex_le_trans(rest@[k as int]@, rest@[m as int]@, rest@[t]@);
                        }
                    }
                }
                m = k;
            } else {
                proof {
                    lemma_lex_le_total(rest@[k as int]@, rest@[m as int]@);
                }
            }
            k = k + 1;
        }
        let ghost out0 = out@;
        let ghost rest0 = rest@;
        let v = rest.remove(m);
        out.push(v);
        proof {
            vstd::seq_lib::to_multiset_remove(rest0, m as int);
            vstd::seq_lib::to_multiset_build(out0, v);
            rest0.to_multiset_ensures();
            assert(rest0.to_multiset().count(v) > 0);
            assert(out@.to_multiset().add(rest@.to_multiset()) =~= names@.to_multiset());
            assert forall|j: int| 0 <= j < rest@.len() implies lex_le(v@, #[trigger] rest@[j]@) by {
                if j < m {
                    assert(rest@[j] == rest0[j]);
                } else {
                    assert(rest@[j] == rest0[j + 1]);
                }
            }
        }
    }
    proof {
        rest@.to_multiset_ensures();
        assert(rest@.to_multiset() =~= vstd::multiset::Multiset::empty());
        assert(out@.to_multiset() =~= names@.to_multiset());
    }
    out
}

} // verus!
