//! Text helpers: equality and the key order of sorted maps.
//!
//! Keys are ordered as their UTF-8 encodings are ordered byte by byte, which
//! is the order `str` itself has.

use vstd::prelude::*;
use vstd::utf8::*;

verus! {

/// `a` comes before `b`, and position `k` shows it: the two agree before
/// `k`, and at `k` either `a` has ended or holds the smaller byte.
pub open spec fn bytes_lt_at(a: Seq<u8>, b: Seq<u8>, k: int) -> bool {
    &&& 0 <= k <= a.len()
    &&& k < b.len()
    &&& forall|j: int| 0 <= j < k ==> a[j] == b[j]
    &&& (k < a.len() ==> a[k] < b[k])
}

/// Lexicographic order on byte sequences.
pub open spec fn bytes_lt(a: Seq<u8>, b: Seq<u8>) -> bool {
    exists|k: int| bytes_lt_at(a, b, k)
}

/// The order of map keys.
pub open spec fn key_lt(a: Seq<char>, b: Seq<char>) -> bool {
    bytes_lt(encode_utf8(a), encode_utf8(b))
}

/// How one key stands to another.
#[derive(Clone, Copy, Debug, PartialEq, Eq)]
pub enum KeyOrder {
    Before,
    Same,
    After,
}

/// No byte sequence comes before itself.
pub proof fn lemma_bytes_lt_irreflexive(a: Seq<u8>)
    ensures
        !bytes_lt(a, a),
{
}

/// The order on byte sequences is transitive.
pub proof fn lemma_bytes_lt_transitive(a: Seq<u8>, b: Seq<u8>, c: Seq<u8>)
    requires
        bytes_lt(a, b),
        bytes_lt(b, c),
    ensures
        bytes_lt(a, c),
{
    let k1 = choose|k: int| bytes_lt_at(a, b, k);
    let k2 = choose|k: int| bytes_lt_at(b, c, k);
    if k1 <= k2 {
        assert(bytes_lt_at(a, c, k1));
    } else {
        assert(bytes_lt_at(a, c, k2));
    }
}

/// Two texts with the same encoding are the same text.
pub proof fn lemma_encoding_injective(a: Seq<char>, b: Seq<char>)
    requires
        encode_utf8(a) == encode_utf8(b),
    ensures
        a == b,
{
    encode_utf8_decode_utf8(a);
    encode_utf8_decode_utf8(b);
}

/// No key comes before itself.
pub proof fn lemma_key_lt_irreflexive(a: Seq<char>)
    ensures
        !key_lt(a, a),
{
    lemma_bytes_lt_irreflexive(encode_utf8(a));
}

/// The key order is transitive.
pub proof fn lemma_key_lt_transitive(a: Seq<char>, b: Seq<char>, c: Seq<char>)
    requires
        key_lt(a, b),
        key_lt(b, c),
    ensures
        key_lt(a, c),
{
    lemma_bytes_lt_transitive(encode_utf8(a), encode_utf8(b), encode_utf8(c));
}

/// Places `a` relative to `b` in the key order.
pub fn key_order(a: &str, b: &str) -> (order: KeyOrder)
    ensures
        order == KeyOrder::Before <==> key_lt(a@, b@),
        order == KeyOrder::Same <==> a@ == b@,
        order == KeyOrder::After <==> key_lt(b@, a@),
{
    let x = a.as_bytes();
    let y = b.as_bytes();
    let n = x.len();
    let m = y.len();
    let mut i: usize = 0;
    while i < n && i < m
        invariant
            n == x@.len(),
            m == y@.len(),
            x@ == encode_utf8(a@),
            y@ == encode_utf8(b@),
            i <= n,
            i <= m,
            forall|j: int| 0 <= j < i ==> x@[j] == y@[j],
        decreases n - i,
    {
        if x[i] < y[i] {
            proof {
                assert(bytes_lt_at(x@, y@, i as int));
                lemma_order_excludes(a@, b@);
            }
            return KeyOrder::Before;
        }
        if x[i] > y[i] {
            proof {
                assert(bytes_lt_at(y@, x@, i as int));
                lemma_order_excludes(b@, a@);
            }
            return KeyOrder::After;
        }
        i = i + 1;
    }
    if n < m {
        proof {
            assert(bytes_lt_at(x@, y@, n as int));
            lemma_order_excludes(a@, b@);
        }
        KeyOrder::Before
    } else if m < n {
        proof {
            assert(bytes_lt_at(y@, x@, m as int));
            lemma_order_excludes(b@, a@);
        }
        KeyOrder::After
    } else {
        proof {
            assert(x@ =~= y@);
            lemma_encoding_injective(a@, b@);
            lemma_key_lt_irreflexive(a@);
        }
        KeyOrder::Same
    }
}

/// A key that comes before another is neither equal to it nor after it.
pub proof fn lemma_order_excludes(a: Seq<char>, b: Seq<char>)
    requires
        key_lt(a, b),
    ensures
        a != b,
        !key_lt(b, a),
{
    lemma_key_lt_irreflexive(a);
    if key_lt(b, a) {
        lemma_key_lt_transitive(a, b, a);
    }
}

/// Whether two texts are the same.
pub fn same_text(a: &str, b: &str) -> (same: bool)
    ensures
        same == (a@ == b@),
{
    match key_order(a, b) {
        KeyOrder::Same => true,
        _ => false,
    }
}

/// The text `a` followed by `b`.
pub fn join2(a: &str, b: &str) -> (joined: String)
    ensures
        joined@ == a@ + b@,
{
    let mut s = String::from_str(a);
    s.append(b);
    s
}

/// The texts `a`, `b` and `c` one after another.
pub fn join3(a: &str, b: &str, c: &str) -> (joined: String)
    ensures
        joined@ == a@ + b@ + c@,
{
    let mut s = String::from_str(a);
    s.append(b);
    s.append(c);
    s
}

/// What `str::to_uppercase` gives for a text.
pub uninterp spec fn uppercase(text: Seq<char>) -> Seq<char>;

/// `str::to_uppercase`: the text in upper case, as the standard library
/// defines it for each character.
#[verifier::external_body]
pub(crate) fn to_upper(text: &str) -> (upper: String)
    ensures
        upper@ == uppercase(text@),
{
    text.to_uppercase()
}

/// Whether `needle` occurs in `hay` as a run of consecutive characters.
pub open spec fn is_substring(needle: Seq<char>, hay: Seq<char>) -> bool {
    exists|i: int| 0 <= i && i + needle.len() <= hay.len() && #[trigger] hay.subrange(i, i + needle.len()) == needle
}

/// `str::contains` with a text as the pattern: whether the pattern occurs
/// in the text.
#[verifier::external_body]
pub(crate) fn text_contains(hay: &str, needle: &str) -> (found: bool)
    ensures
        found == is_substring(needle@, hay@),
{
    hay.contains(needle)
}

/// What `str::lines` gives for a text: its lines, without their line ends.
pub uninterp spec fn lines_of(text: Seq<char>) -> Seq<Seq<char>>;

/// `str::lines`: the lines of a text, in order, each as a text of its own.
#[verifier::external_body]
pub(crate) fn text_lines(text: &str) -> (lines: Vec<String>)
    ensures
        lines.deep_view() == lines_of(text@),
{
    text.lines().map(|line| line.to_string()).collect()
}

/// A copy of a list of texts.
pub fn clone_strings(list: &Vec<String>) -> (copy: Vec<String>)
    ensures
        copy.deep_view() == list.deep_view(),
{
    let copy = list.clone();
    assert(copy.deep_view() =~= list.deep_view());
    copy
}

/// A copy of an optional list of texts.
pub fn clone_opt_strings(list: &Option<Vec<String>>) -> (copy: Option<Vec<String>>)
    ensures
        copy.deep_view() == list.deep_view(),
{
    match list {
        Some(inner) => Some(clone_strings(inner)),
        None => None,
    }
}

/// Whether a list holds a text.
pub fn contains_text(list: &Vec<String>, text: &str) -> (found: bool)
    ensures
        found == list.deep_view().contains(text@),
{
    let mut i: usize = 0;
    while i < list.len()
        invariant
            i <= list.len(),
            forall|j: int| 0 <= j < i ==> list.deep_view()[j] != text@,
        decreases list.len() - i,
    {
        if same_text(list[i].as_str(), text) {
            assert(list.deep_view()[i as int] == text@);
            return true;
        }
        i = i + 1;
    }
    false
}

/// A list that may be unset, as a list: the empty list when it is unset.
pub open spec fn seq_or_empty<T>(list: Option<Seq<T>>) -> Seq<T> {
    match list {
        Some(l) => l,
        None => Seq::empty(),
    }
}

/// A list that may be unset, as a list: the empty list when it is unset.
pub fn vec_or_empty<T: DeepView>(list: Option<Vec<T>>) -> (out: Vec<T>)
    ensures
        out.deep_view() == seq_or_empty(list.deep_view()),
{
    match list {
        Some(l) => l,
        None => {
            let out: Vec<T> = Vec::new();
            assert(out.deep_view() =~= Seq::<T::V>::empty());
            out
        },
    }
}

} // verus!
