//! The order of constant labels: by key, comparing the keys' UTF-8 bytes, as
//! `str`'s own ordering does.

use vstd::prelude::*;
use vstd::seq_lib::lemma_multiset_commutative;
use vstd::utf8::encode_utf8;

verus! {

/// Lexicographic order on byte strings (a prefix comes first).
pub open spec fn lex_le(a: Seq<u8>, b: Seq<u8>) -> bool
    decreases a.len(),
{
    if a.len() == 0 {
        true
    } else if b.len() == 0 {
        false
    } else if a[0] != b[0] {
        a[0] < b[0]
    } else {
        lex_le(a.drop_first(), b.drop_first())
    }
}

proof fn lex_le_total(a: Seq<u8>, b: Seq<u8>)
    ensures
        lex_le(a, b) || lex_le(b, a),
    decreases a.len(),
{
    if a.len() > 0 && b.len() > 0 && a[0] == b[0] {
        lex_le_total(a.drop_first(), b.drop_first());
    }
}

proof fn lex_le_transitive(a: Seq<u8>, b: Seq<u8>, c: Seq<u8>)
    requires
        lex_le(a, b),
        lex_le(b, c),
    ensures
        lex_le(a, c),
    decreases a.len(),
{
    if a.len() > 0 && b.len() > 0 && c.len() > 0 && a[0] == b[0] && b[0] == c[0] {
        lex_le_transitive(a.drop_first(), b.drop_first(), c.drop_first());
    }
}

/// The bytes by which a label is ordered: those of its key.
pub open spec fn key_bytes(label: (Seq<char>, Seq<char>)) -> Seq<u8> {
    encode_utf8(label.0)
}

/// Whether labels stand in order of their keys.
pub open spec fn sorted_by_key(s: Seq<(Seq<char>, Seq<char>)>) -> bool {
    forall|i: int, j: int| 0 <= i < j < s.len() ==> lex_le(key_bytes(s[i]), key_bytes(s[j]))
}

/// Compares two byte strings lexicographically.
fn bytes_le(a: &[u8], b: &[u8]) -> (r: bool)
    ensures
        r == lex_le(a@, b@),
{
    let mut i: usize = 0;
    assert(a@.skip(0) =~= a@);
    assert(b@.skip(0) =~= b@);
    while i < a.len() && i < b.len()
        invariant
            i <= a.len(),
            i <= b.len(),
            lex_le(a@, b@) == lex_le(a@.skip(i as int), b@.skip(i as int)),
        decreases a.len() - i,
    {
        if a[i] != b[i] {
            return a[i] < b[i];
        }
        assert(a@.skip(i as int).drop_first() =~= a@.skip(i as int + 1));
        assert(b@.skip(i as int).drop_first() =~= b@.skip(i as int + 1));
        i = i + 1;
    }
    i == a.len()
}

proof fn multiset_of_insert<A>(s: Seq<A>, i: int, x: A)
    requires
        0 <= i <= s.len(),
    ensures
        s.insert(i, x).to_multiset() =~= s.to_multiset().insert(x),
{
    broadcast use vstd::multiset::group_multiset_axioms, vstd::seq_lib::to_multiset_build;

    let front = s.subrange(0, i);
    let back = s.subrange(i, s.len() as int);
    assert(s =~= front + back);
    lemma_multiset_commutative(front, back);
    lemma_multiset_commutative(front.push(x), back);
}

/// The labels sorted by key; the result holds the same labels.
pub fn sort_by_key(labels: &Vec<(String, String)>) -> (r: Vec<(String, String)>)
    ensures
        sorted_by_key(r.deep_view()),
        r.deep_view().to_multiset() == labels.deep_view().to_multiset(),
{
    broadcast use vstd::seq_lib::to_multiset_build;

    let mut out: Vec<(String, String)> = Vec::new();
    let mut i: usize = 0;
    assert(labels.deep_view().take(0) =~= out.deep_view());
    while i < labels.len()
        invariant
            i <= labels.len(),
            sorted_by_key(out.deep_view()),
            out.deep_view().to_multiset() == labels.deep_view().take(i as int).to_multiset(),
        decreases labels.len() - i,
    {
        let key = labels[i].0.clone();
        let value = labels[i].1.clone();
        let ghost x = (key@, value@);
        assert(x == labels.deep_view()[i as int]);
        let mut j: usize = out.len();
        loop
            invariant
                j <= out.len(),
                key@ == x.0,
                forall|k: int| j <= k < out.len() ==> !lex_le(key_bytes(#[trigger] out.deep_view()[k]), key_bytes(x)),
            ensures
                j <= out.len(),
                j > 0 ==> lex_le(key_bytes(out.deep_view()[j - 1]), key_bytes(x)),
                forall|k: int| j <= k < out.len() ==> !lex_le(key_bytes(#[trigger] out.deep_view()[k]), key_bytes(x)),
            decreases j,
        {
            if j == 0 {
                break;
            }
            let kb = out[j - 1].0.as_str().as_bytes();
            let xb = key.as_str().as_bytes();
            let le = bytes_le(kb, xb);
            assert(kb@ == key_bytes(out.deep_view()[j - 1]));
            assert(xb@ == key_bytes(x));
            if le {
                break;
            }
            j = j - 1;
        }
        let ghost before = out.deep_view();
        proof {
            if j > 0 {
                assert(lex_le(key_bytes(before[j - 1]), key_bytes(x)));
                assert forall|k: int| 0 <= k < j implies lex_le(key_bytes(#[trigger] before[k]), key_bytes(x)) by {
                    if k < j - 1 {
                        lex_le_transitive(key_bytes(before[k]), key_bytes(before[j - 1]), key_bytes(x));
                    }
                }
            }
            assert forall|k: int| j <= k < before.len() implies lex_le(key_bytes(x), key_bytes(#[trigger] before[k])) by {
                lex_le_total(key_bytes(x), key_bytes(before[k]));
            }
        }
        out.insert(j, (key, value));
        proof {
            let after = out.deep_view();
            assert(after =~= before.insert(j as int, x));
            multiset_of_insert(before, j as int, x);
            assert(labels.deep_view().take(i as int + 1) =~= labels.deep_view().take(i as int).push(x));
            vstd::seq_lib::to_multiset_build(labels.deep_view().take(i as int), x);
            assert forall|a: int, b: int| 0 <= a < b < after.len() implies lex_le(
                key_bytes(after[a]),
                key_bytes(after[b]),
            ) by {
                if b < j {
                } else if b == j {
                } else if a < j {
                    lex_le_transitive(key_bytes(before[a]), key_bytes(x), key_bytes(before[b - 1]));
                } else if a == j {
                } else {
                }
            }
        }
        i = i + 1;
    }
    assert(labels.deep_view().take(labels.len() as int) =~= labels.deep_view());
    out
}

} // verus!
