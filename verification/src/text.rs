//! Small operations on strings.

use vstd::prelude::*;
use vstd::utf8::{encode_utf8, encode_utf8_decode_utf8};

verus! {

/// The characters of each string of `v`.
pub open spec fn words(v: Seq<String>) -> Seq<Seq<char>> {
    Seq::new(v.len(), |i: int| v[i]@)
}

/// The characters of an optional string.
pub open spec fn opt_view(s: Option<String>) -> Option<Seq<char>> {
    match s {
        Some(v) => Some(v@),
        None => None,
    }
}

/// Whether `a` and `b` hold the same characters.
pub fn str_eq(a: &str, b: &str) -> (same: bool)
    ensures
        same == (a@ == b@),
{
    let x = a.as_bytes();
    let y = b.as_bytes();
    proof {
        encode_utf8_decode_utf8(a@);
        encode_utf8_decode_utf8(b@);
    }
    if x.len() != y.len() {
        return false;
    }
    let n: usize = x.len();
    let mut i: usize = 0;
    while i < n
        invariant
            n == x@.len(),
            n == y@.len(),
            i <= n,
            x@ == encode_utf8(a@),
            y@ == encode_utf8(b@),
            forall|j: int| 0 <= j < i ==> x@[j] == y@[j],
        decreases n - i,
    {
        if x[i] != y[i] {
            return false;
        }
        i = i + 1;
    }
    assert(x@ =~= y@);
    true
}

/// `s` without the white space at its start and at its end, as
/// `str::trim` of the standard library removes it.
pub uninterp spec fn trimmed(s: Seq<char>) -> Seq<char>;

/// `str::trim`: the slice of `s` that is left when leading and trailing
/// white space is removed, copied into a string.
#[verifier::external_body]
pub(crate) fn trim(s: &str) -> (t: String)
    ensures
        t@ == trimmed(s@),
{
    s.trim().to_string()
}

/// `a` followed by `b`.
pub fn concat_str(a: &str, b: &str) -> (s: String)
    ensures
        s@ == a@ + b@,
{
    let mut s = String::from_str(a);
    s.append(b);
    s
}

/// The words of a concatenation are the concatenation of the words.
pub proof fn lemma_words_concat(a: Seq<String>, b: Seq<String>)
    ensures
        words(a + b) == words(a) + words(b),
{
    assert(words(a + b) =~= words(a) + words(b));
}

/// Copies of the strings of `v` from position `from` on; none where `v`
/// is shorter.
pub fn clone_from(v: &Vec<String>, from: usize) -> (r: Vec<String>)
    ensures
        from <= v@.len() ==> words(r@) == words(v@).skip(from as int),
        from > v@.len() ==> r@.len() == 0,
{
    let mut r: Vec<String> = Vec::new();
    if from > v.len() {
        return r;
    }
    let mut i: usize = from;
    while i < v.len()
        invariant
            from <= i <= v@.len(),
            words(r@) == words(v@).subrange(from as int, i as int),
        decreases v@.len() - i,
    {
        let ghost before = r@;
        let copy = v[i].clone();
        r.push(copy);
        proof {
            let target = words(v@).subrange(from as int, i + 1);
            assert(words(before).len() == before.len());
            assert forall|k: int| 0 <= k < target.len() implies words(r@)[k] == target[k] by {
                if k < before.len() {
                    assert(words(before)[k] == words(v@).subrange(from as int, i as int)[k]);
                }
            }
            assert(words(r@) =~= target);
        }
        i = i + 1;
    }
    assert(words(v@).subrange(from as int, v@.len() as int) =~= words(v@).skip(from as int));
    r
}

/// The strings of `a` followed by those of `b`.
pub fn join_words(a: Vec<String>, b: Vec<String>) -> (r: Vec<String>)
    ensures
        words(r@) == words(a@) + words(b@),
{
    let mut r = a;
    let mut tail = b;
    proof {
        lemma_words_concat(r@, tail@);
    }
    r.append(&mut tail);
    r
}

/// The encoding of a concatenation is the concatenation of the
/// encodings.
pub proof fn lemma_encode_concat(a: Seq<char>, b: Seq<char>)
    ensures
        encode_utf8(a + b) == encode_utf8(a) + encode_utf8(b),
    decreases a.len(),
{
    if a.len() == 0 {
        assert(a + b =~= b);
        assert(encode_utf8(a) + encode_utf8(b) =~= encode_utf8(b));
    } else {
        lemma_encode_concat(a.drop_first(), b);
        assert((a + b).drop_first() =~= a.drop_first() + b);
        assert((a + b)[0] == a[0]);
        assert(encode_utf8(a + b) =~= encode_utf8(a) + encode_utf8(b));
    }
}

} // verus!
