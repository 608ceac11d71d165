//! Strings by their bytes: equality, and the order in which field names are
//! kept. Rust orders strings by their UTF-8 bytes; so does this module.

use vstd::prelude::*;
use vstd::string::StringSliceAdditionalSpecFns;
use vstd::utf8::{decode_utf8, encode_utf8, encode_utf8_decode_utf8};

verus! {

/// How one string stands to another in the order of field names.
#[derive(Clone, Copy, Debug, PartialEq, Eq, Structural)]
pub enum Rank {
    Before,
    Same,
    After,
}

/// Whether `a` comes strictly before `b` from index `i` on, in the
/// lexicographic order of their bytes.
pub open spec fn precedes_from(a: Seq<u8>, b: Seq<u8>, i: int) -> bool
    decreases a.len() - i,
{
    if i < 0 || i >= b.len() {
        false
    } else if i >= a.len() {
        true
    } else if a[i] != b[i] {
        a[i] < b[i]
    } else {
        precedes_from(a, b, i + 1)
    }
}

/// Whether `a` comes strictly before `b` in the lexicographic order of their
/// bytes: at the first index where they differ `a` has the smaller byte, or `a`
/// is a proper prefix of `b`.
pub open spec fn precedes(a: Seq<u8>, b: Seq<u8>) -> bool {
    precedes_from(a, b, 0)
}

/// Whether `a` and `b` hold the same bytes before index `i`.
pub open spec fn agree_before(a: Seq<u8>, b: Seq<u8>, i: int) -> bool {
    &&& 0 <= i <= a.len()
    &&& i <= b.len()
    &&& forall|k: int| 0 <= k < i ==> a[k] == b[k]
}

/// The rank of `a` against `b`.
pub open spec fn rank_of(a: Seq<u8>, b: Seq<u8>) -> Rank {
    if precedes(a, b) {
        Rank::Before
    } else if precedes(b, a) {
        Rank::After
    } else {
        Rank::Same
    }
}

proof fn lemma_not_both_from(a: Seq<u8>, b: Seq<u8>, i: int)
    requires
        0 <= i,
    ensures
        !(precedes_from(a, b, i) && precedes_from(b, a, i)),
    decreases a.len() - i,
{
    if i < a.len() && i < b.len() && a[i] == b[i] {
        lemma_not_both_from(a, b, i + 1);
    }
}

proof fn lemma_neither_from(a: Seq<u8>, b: Seq<u8>, i: int)
    requires
        agree_before(a, b, i),
        !precedes_from(a, b, i),
        !precedes_from(b, a, i),
    ensures
        a == b,
    decreases a.len() - i,
{
    if i < a.len() && i < b.len() {
        lemma_neither_from(a, b, i + 1);
    } else {
        assert(a =~= b);
    }
}

proof fn lemma_chain_from(a: Seq<u8>, b: Seq<u8>, c: Seq<u8>, i: int)
    requires
        0 <= i,
        precedes_from(a, b, i),
        precedes_from(b, c, i),
    ensures
        precedes_from(a, c, i),
    decreases a.len() - i,
{
    if i < a.len() && a[i] == b[i] && b[i] == c[i] {
        lemma_chain_from(a, b, c, i + 1);
    }
}

/// No byte string comes before itself, and of two at most one comes before the
/// other.
pub proof fn lemma_precedes_asymmetric(a: Seq<u8>, b: Seq<u8>)
    ensures
        !precedes(a, a),
        !(precedes(a, b) && precedes(b, a)),
{
    lemma_not_both_from(a, a, 0);
    lemma_not_both_from(a, b, 0);
}

/// Of two different byte strings one comes before the other.
pub proof fn lemma_precedes_total(a: Seq<u8>, b: Seq<u8>)
    ensures
        precedes(a, b) || precedes(b, a) || a == b,
{
    if !precedes(a, b) && !precedes(b, a) {
        lemma_neither_from(a, b, 0);
    }
}

/// The order is transitive.
pub proof fn lemma_precedes_transitive(a: Seq<u8>, b: Seq<u8>, c: Seq<u8>)
    requires
        precedes(a, b),
        precedes(b, c),
    ensures
        precedes(a, c),
{
    lemma_chain_from(a, b, c, 0);
}

/// Two strings hold the same characters exactly when they hold the same bytes.
pub proof fn lemma_same_bytes_same_text(a: Seq<char>, b: Seq<char>)
    ensures
        (encode_utf8(a) == encode_utf8(b)) <==> a == b,
{
    encode_utf8_decode_utf8(a);
    encode_utf8_decode_utf8(b);
    if encode_utf8(a) == encode_utf8(b) {
        assert(decode_utf8(encode_utf8(a)) == decode_utf8(encode_utf8(b)));
    }
}

/// The rank of `a` against `b` in the order of their bytes.
pub fn rank(a: &str, b: &str) -> (r: Rank)
    ensures
        r == rank_of(a.spec_bytes(), b.spec_bytes()),
        (r == Rank::Same) <==> a@ == b@,
{
    let x = a.as_bytes();
    let y = b.as_bytes();
    let mut i: usize = 0;
    let mut r = Rank::Same;
    let mut done = false;
    while !done
        invariant
            x@ == a.spec_bytes(),
            y@ == b.spec_bytes(),
            agree_before(x@, y@, i as int),
            !done ==> precedes(x@, y@) == precedes_from(x@, y@, i as int),
            !done ==> precedes(y@, x@) == precedes_from(y@, x@, i as int),
            done ==> r == rank_of(x@, y@),
        decreases x@.len() - i + (if done { 0int } else { 1int }),
    {
        if i >= y.len() {
            r = if i >= x.len() { Rank::Same } else { Rank::After };
            done = true;
        } else if i >= x.len() {
            r = Rank::Before;
            done = true;
        } else if x[i] != y[i] {
            r = if x[i] < y[i] { Rank::Before } else { Rank::After };
            done = true;
        } else {
            i = i + 1;
        }
        proof {
            lemma_not_both_from(x@, y@, i as int);
        }
    }
    proof {
        lemma_precedes_asymmetric(x@, y@);
        lemma_precedes_total(x@, y@);
        lemma_same_bytes_same_text(a@, b@);
    }
    r
}

/// Whether two strings hold the same characters.
pub fn same_text(a: &str, b: &str) -> (r: bool)
    ensures
        r == (a@ == b@),
{
    match rank(a, b) {
        Rank::Same => true,
        _ => false,
    }
}

} // verus!
