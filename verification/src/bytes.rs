//! Small verified helpers on byte strings.

use vstd::prelude::*;

verus! {

/// Whether two byte strings are equal.
pub fn bytes_equal(a: &[u8], b: &[u8]) -> (equal: bool)
    ensures
        equal == (a@ == b@),
{
    if a.len() != b.len() {
        return false;
    }
    let mut i: usize = 0;
    while i < a.len()
        invariant
            i <= a.len(),
            a.len() == b.len(),
            a@.subrange(0, i as int) == b@.subrange(0, i as int),
        decreases a.len() - i,
    {
        if a[i] != b[i] {
            return false;
        }
        i += 1;
    }
    assert(a@ == a@.subrange(0, i as int));
    assert(b@ == b@.subrange(0, i as int));
    true
}

/// Appends the bytes of `source` to `sink`.
pub fn append_bytes(sink: &mut Vec<u8>, source: &[u8])
    ensures
        final(sink)@ == old(sink)@ + source@,
{
    let mut i: usize = 0;
    while i < source.len()
        invariant
            i <= source.len(),
            sink@ == old(sink)@ + source@.subrange(0, i as int),
        decreases source.len() - i,
    {
        sink.push(source[i]);
        i += 1;
    }
}

/// How one byte string stands to another in the lexicographic order.
#[derive(Debug, Clone, Copy, PartialEq, Eq, Structural)]
pub enum Lexicographic {
    Less,
    Equal,
    Greater,
}

/// The lexicographic order on byte strings: `a` is below `b` when, at the
/// first place where they differ, `a` has ended or holds the smaller byte.
pub open spec fn lexicographic_less(a: Seq<u8>, b: Seq<u8>) -> bool {
    exists|i: int|
        {
            &&& 0 <= i <= a.len()
            &&& i < b.len()
            &&& #[trigger] a.subrange(0, i) == b.subrange(0, i)
            &&& (i == a.len() || a[i] < b[i])
        }
}

/// How `a` stands to `b`.
pub open spec fn spec_compare_bytes(a: Seq<u8>, b: Seq<u8>) -> Lexicographic {
    if a == b {
        Lexicographic::Equal
    } else if lexicographic_less(a, b) {
        Lexicographic::Less
    } else {
        Lexicographic::Greater
    }
}

/// Two byte strings that agree before `i` and differ at `i` are ordered by
/// their bytes at `i`.
pub proof fn lemma_first_difference_decides(a: Seq<u8>, b: Seq<u8>, i: int)
    requires
        0 <= i < a.len(),
        i < b.len(),
        a.subrange(0, i) == b.subrange(0, i),
        a[i] != b[i],
    ensures
        a != b,
        lexicographic_less(a, b) <==> a[i] < b[i],
        lexicographic_less(b, a) <==> b[i] < a[i],
{
    assert forall|j: int|
        0 <= j <= a.len() && j < b.len() && #[trigger] a.subrange(0, j) == b.subrange(0, j) && (j
            == a.len() || a[j] < b[j]) implies j == i && a[i] < b[i] by {
        if j < i {
            assert(a.subrange(0, i)[j] == a[j]);
            assert(b.subrange(0, i)[j] == b[j]);
        } else if j > i {
            assert(a.subrange(0, j)[i] == a[i]);
            assert(b.subrange(0, j)[i] == b[i]);
        }
    }
    assert forall|j: int|
        0 <= j <= b.len() && j < a.len() && #[trigger] b.subrange(0, j) == a.subrange(0, j) && (j
            == b.len() || b[j] < a[j]) implies j == i && b[i] < a[i] by {
        if j < i {
            assert(a.subrange(0, i)[j] == a[j]);
            assert(b.subrange(0, i)[j] == b[j]);
        } else if j > i {
            assert(a.subrange(0, j)[i] == a[i]);
            assert(b.subrange(0, j)[i] == b[i]);
        }
    }
}

/// A byte string is below every proper extension of itself and above every
/// proper prefix.
pub proof fn lemma_prefix_is_less(a: Seq<u8>, b: Seq<u8>)
    requires
        a.len() < b.len(),
        a == b.subrange(0, a.len() as int),
    ensures
        a != b,
        lexicographic_less(a, b),
        !lexicographic_less(b, a),
{
    // `a` ends where the two first differ.
    let n = a.len() as int;
    assert(a.subrange(0, n) == b.subrange(0, n));
}

/// The lexicographic order is a strict total order: no byte string is below
/// itself, of two different ones exactly one is below the other, and the
/// order is transitive.
pub proof fn lemma_lexicographic_total_order(a: Seq<u8>, b: Seq<u8>, c: Seq<u8>)
    ensures
        !lexicographic_less(a, a),
        a != b ==> (lexicographic_less(a, b) <==> !lexicographic_less(b, a)),
        lexicographic_less(a, b) && lexicographic_less(b, c) ==> lexicographic_less(a, c),
{
    if a != b {
        lemma_order_of_different(a, b);
    }
    if lexicographic_less(a, b) && lexicographic_less(b, c) {
        let i = choose|i: int|
            0 <= i <= a.len() && i < b.len() && #[trigger] a.subrange(0, i) == b.subrange(0, i) && (
            i == a.len() || a[i] < b[i]);
        let j = choose|j: int|
            0 <= j <= b.len() && j < c.len() && #[trigger] b.subrange(0, j) == c.subrange(0, j) && (
            j == b.len() || b[j] < c[j]);
        let k = if i <= j {
            i
        } else {
            j
        };
        assert(a.subrange(0, k) =~= c.subrange(0, k)) by {
            assert forall|x: int| 0 <= x < k implies a[x] == c[x] by {
                assert(a.subrange(0, i)[x] == a[x]);
                assert(b.subrange(0, i)[x] == b[x]);
                assert(b.subrange(0, j)[x] == b[x]);
                assert(c.subrange(0, j)[x] == c[x]);
            }
        }
        if k < a.len() {
            if i < j {
                assert(b.subrange(0, j)[i] == b[i]);
                assert(c.subrange(0, j)[i] == c[i]);
            } else if j < i {
                assert(a.subrange(0, i)[j] == a[j]);
                assert(b.subrange(0, i)[j] == b[j]);
            }
        }
    }
}

/// Of two different byte strings exactly one is below the other.
proof fn lemma_order_of_different(a: Seq<u8>, b: Seq<u8>)
    requires
        a != b,
    ensures
        lexicographic_less(a, b) <==> !lexicographic_less(b, a),
{
    assert(a.subrange(0, 0) =~= b.subrange(0, 0));
    lemma_first_difference(a, b, 0);
    let i = first_difference(a, b, 0);
    if i < a.len() && i < b.len() {
        lemma_first_difference_decides(a, b, i);
    } else if i == a.len() {
        assert(a =~= a.subrange(0, i));
        if i == b.len() {
            assert(b =~= b.subrange(0, i));
        }
        lemma_prefix_is_less(a, b);
    } else {
        assert(b =~= b.subrange(0, i));
        lemma_prefix_is_less(b, a);
    }
}

/// The first place from `from` on where the two differ or one of them ends.
spec fn first_difference(a: Seq<u8>, b: Seq<u8>, from: int) -> int
    decreases a.len() - from,
{
    if 0 <= from < a.len() && from < b.len() && a[from] == b[from] {
        first_difference(a, b, from + 1)
    } else {
        from
    }
}

proof fn lemma_first_difference(a: Seq<u8>, b: Seq<u8>, from: int)
    requires
        0 <= from <= a.len(),
        from <= b.len(),
        a.subrange(0, from) == b.subrange(0, from),
    ensures
        from <= first_difference(a, b, from) <= a.len(),
        first_difference(a, b, from) <= b.len(),
        a.subrange(0, first_difference(a, b, from)) == b.subrange(
            0,
            first_difference(a, b, from),
        ),
        first_difference(a, b, from) == a.len() || first_difference(a, b, from) == b.len() || a[first_difference(
            a,
            b,
            from,
        )] != b[first_difference(a, b, from)],
    decreases a.len() - from,
{
    if from < a.len() && from < b.len() && a[from] == b[from] {
        assert(a.subrange(0, from + 1) =~= a.subrange(0, from).push(a[from]));
        assert(b.subrange(0, from + 1) =~= b.subrange(0, from).push(b[from]));
        lemma_first_difference(a, b, from + 1);
    }
}

/// Compares two byte strings in the lexicographic order.
pub fn compare_bytes(a: &[u8], b: &[u8]) -> (order: Lexicographic)
    ensures
        order == spec_compare_bytes(a@, b@),
{
    let mut i: usize = 0;
    while i < a.len() && i < b.len()
        invariant
            i <= a.len(),
            i <= b.len(),
            a@.subrange(0, i as int) == b@.subrange(0, i as int),
        decreases a.len() - i,
    {
        if a[i] != b[i] {
            proof {
                lemma_first_difference_decides(a@, b@, i as int);
            }
            if a[i] < b[i] {
                return Lexicographic::Less;
            } else {
                return Lexicographic::Greater;
            }
        }
        i += 1;
    }
    if a.len() == b.len() {
        assert(a@ == a@.subrange(0, i as int));
        assert(b@ == b@.subrange(0, i as int));
        Lexicographic::Equal
    } else if a.len() < b.len() {
        proof {
            assert(a@ == a@.subrange(0, i as int));
            lemma_prefix_is_less(a@, b@);
        }
        Lexicographic::Less
    } else {
        proof {
            assert(b@ == b@.subrange(0, i as int));
            lemma_prefix_is_less(b@, a@);
        }
        Lexicographic::Greater
    }
}

} // verus!
