//! Ordering and shape of text, stated over UTF-8 bytes.

use vstd::prelude::*;

verus! {

/// `a` comes strictly before `b` when both are compared byte by byte:
/// at the first place where they differ `a` holds the smaller byte, or
/// `a` is a proper prefix of `b`.
pub open spec fn bytes_lt(a: Seq<u8>, b: Seq<u8>) -> bool {
    exists|k: int| #[trigger] differs_first_at(a, b, k)
}

/// `a` and `b` agree on their first `k` bytes and `a` is the smaller at
/// place `k`, where a text that has ended is smaller than one that goes on.
pub open spec fn differs_first_at(a: Seq<u8>, b: Seq<u8>, k: int) -> bool {
    &&& 0 <= k <= a.len()
    &&& k < b.len()
    &&& a.subrange(0, k) == b.subrange(0, k)
    &&& (k < a.len() ==> a[k] < b[k])
}

/// The order of two texts: that of their UTF-8 encodings, which is also
/// the order of their code points.
pub open spec fn text_lt(a: Seq<char>, b: Seq<char>) -> bool {
    bytes_lt(vstd::utf8::encode_utf8(a), vstd::utf8::encode_utf8(b))
}

/// Every text of `s` comes strictly before all the texts after it.
pub open spec fn strictly_ascending(s: Seq<Seq<char>>) -> bool {
    forall|i: int, j: int| 0 <= i < j < s.len() ==> text_lt(#[trigger] s[i], #[trigger] s[j])
}

/// The byte order is transitive.
pub proof fn lemma_bytes_lt_transitive(a: Seq<u8>, b: Seq<u8>, c: Seq<u8>)
    requires
        bytes_lt(a, b),
        bytes_lt(b, c),
    ensures
        bytes_lt(a, c),
{
    let k1 = choose|k: int| differs_first_at(a, b, k);
    let k2 = choose|k: int| differs_first_at(b, c, k);
    let k = if k1 <= k2 { k1 } else { k2 };
    assert(a.subrange(0, k) =~= c.subrange(0, k)) by {
        assert forall|i: int| 0 <= i < k implies a[i] == c[i] by {
            assert(a.subrange(0, k1)[i] == b.subrange(0, k1)[i]);
            assert(b.subrange(0, k2)[i] == c.subrange(0, k2)[i]);
        }
    }
    if k < a.len() {
        if k1 < k2 {
            assert(b.subrange(0, k2)[k1] == c.subrange(0, k2)[k1]);
        } else if k2 < k1 {
            assert(a.subrange(0, k1)[k2] == b.subrange(0, k1)[k2]);
        }
    }
    assert(differs_first_at(a, c, k));
}

/// No text comes before itself.
pub proof fn lemma_bytes_lt_irreflexive(a: Seq<u8>)
    ensures
        !bytes_lt(a, a),
{
}

/// A strictly ascending list holds no text twice.
pub proof fn lemma_strictly_ascending_no_duplicates(s: Seq<Seq<char>>)
    requires
        strictly_ascending(s),
    ensures
        forall|i: int, j: int|
            0 <= i < s.len() && 0 <= j < s.len() && i != j ==> #[trigger] s[i] != #[trigger] s[j],
{
    assert forall|i: int, j: int|
        0 <= i < s.len() && 0 <= j < s.len() && i != j implies #[trigger] s[i] != #[trigger] s[j] by {
        lemma_bytes_lt_irreflexive(vstd::utf8::encode_utf8(s[i]));
    }
}

/// Compares two byte strings.
pub fn bytes_less(a: &[u8], b: &[u8]) -> (r: bool)
    ensures
        r == bytes_lt(a@, b@),
{
    let mut i: usize = 0;
    while i < a.len() && i < b.len() && a[i] == b[i]
        invariant
            i <= a.len(),
            i <= b.len(),
            a@.subrange(0, i as int) == b@.subrange(0, i as int),
        decreases a.len() - i,
    {
        i = i + 1;
        assert(a@.subrange(0, i as int) =~= b@.subrange(0, i as int)) by {
            assert forall|j: int| 0 <= j < i implies a@[j] == b@[j] by {
                if j < i - 1 {
                    assert(a@.subrange(0, i - 1)[j] == b@.subrange(0, i - 1)[j]);
                }
            }
        }
    }
    let r = i < b.len() && (i == a.len() || a[i] < b[i]);
    proof {
        let n = i as int;
        if r {
            assert(differs_first_at(a@, b@, n));
        } else {
            assert forall|k: int| !differs_first_at(a@, b@, k) by {
                if differs_first_at(a@, b@, k) {
                    if k < n {
                        assert(a@.subrange(0, n)[k] == b@.subrange(0, n)[k]);
                    } else if k > n {
                        assert(a@.subrange(0, k)[n] == b@.subrange(0, k)[n]);
                    }
                }
            }
        }
    }
    r
}

/// Whether two texts are the same.
pub fn same_text(a: &String, b: &String) -> (r: bool)
    ensures
        r == (a@ == b@),
{
    *a == *b
}

/// Compares two texts by their UTF-8 bytes.
pub fn text_less(a: &str, b: &str) -> (r: bool)
    ensures
        r == text_lt(a@, b@),
{
    bytes_less(a.as_bytes(), b.as_bytes())
}

/// The views of a list of texts, in the list's order.
pub open spec fn text_views(list: Seq<String>) -> Seq<Seq<char>> {
    list.map_values(|s: String| s@)
}

/// Whether every text of the list comes strictly before all the texts
/// after it.
pub fn texts_ascending(list: &Vec<String>) -> (r: bool)
    ensures
        r == strictly_ascending(text_views(list@)),
{
    if list.len() < 2 {
        return true;
    }
    let ghost views = text_views(list@);
    let mut i: usize = 1;
    while i < list.len()
        invariant
            1 <= i <= list.len(),
            views == text_views(list@),
            forall|a: int, b: int|
                0 <= a < b < i ==> text_lt(#[trigger] views[a], #[trigger] views[b]),
        decreases list.len() - i,
    {
        if !text_less(list[i - 1].as_str(), list[i].as_str()) {
            assert(!text_lt(views[i - 1], views[i as int]));
            return false;
        }
        assert forall|a: int, b: int| 0 <= a < b < i + 1 implies text_lt(
            #[trigger] views[a],
            #[trigger] views[b],
        ) by {
            if b == i {
                if a < i - 1 {
                    lemma_bytes_lt_transitive(
                        vstd::utf8::encode_utf8(views[a]),
                        vstd::utf8::encode_utf8(views[i - 1]),
                        vstd::utf8::encode_utf8(views[i as int]),
                    );
                }
            }
        }
        i = i + 1;
    }
    true
}

} // verus!
