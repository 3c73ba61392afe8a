//! Lists of records looked up by a string key (a tunnel's uid): the first
//! record with a key, the list without the records of a key, and the facts
//! that connect them.
use vstd::prelude::*;

verus! {

/// Index of the first record whose key is `k`, or -1.
pub open spec fn index_by<A>(s: Seq<A>, key: spec_fn(A) -> Seq<char>, k: Seq<char>) -> int
    decreases s.len(),
{
    if s.len() == 0 {
        -1
    } else {
        let r = index_by(s.drop_last(), key, k);
        if r >= 0 {
            r
        } else if key(s.last()) == k {
            s.len() - 1
        } else {
            -1
        }
    }
}

/// The first record whose key is `k`, if any.
pub open spec fn find_by<A>(s: Seq<A>, key: spec_fn(A) -> Seq<char>, k: Seq<char>) -> Option<A> {
    let i = index_by(s, key, k);
    if i >= 0 {
        Some(s[i])
    } else {
        None
    }
}

/// The records whose key is not `k`, in order.
pub open spec fn without_by<A>(s: Seq<A>, key: spec_fn(A) -> Seq<char>, k: Seq<char>) -> Seq<A>
    decreases s.len(),
{
    if s.len() == 0 {
        Seq::empty()
    } else {
        let rest = without_by(s.drop_last(), key, k);
        if key(s.last()) == k {
            rest
        } else {
            rest.push(s.last())
        }
    }
}

/// What `index_by` means: it is the first index holding key `k`.
pub proof fn lemma_index_by<A>(s: Seq<A>, key: spec_fn(A) -> Seq<char>, k: Seq<char>)
    ensures
        -1 <= index_by(s, key, k) < s.len(),
        index_by(s, key, k) >= 0 ==> key(s[index_by(s, key, k)]) == k,
        forall|j: int|
            0 <= j < s.len() && (index_by(s, key, k) < 0 || j < index_by(s, key, k)) ==> #[trigger] key(s[j]) != k,
    decreases s.len(),
{
    if s.len() > 0 {
        let init = s.drop_last();
        lemma_index_by(init, key, k);
        assert forall|j: int|
            0 <= j < s.len() && (index_by(s, key, k) < 0 || j < index_by(s, key, k)) implies #[trigger] key(s[j]) != k by {
            if j < init.len() {
                assert(s[j] == init[j]);
            }
        }
        if index_by(init, key, k) >= 0 {
            assert(s[index_by(init, key, k)] == init[index_by(init, key, k)]);
        }
    }
}

/// An index holding `k` with no earlier one is `index_by`; so is -1 when none holds it.
pub proof fn lemma_index_by_is<A>(s: Seq<A>, key: spec_fn(A) -> Seq<char>, k: Seq<char>, i: int)
    requires
        -1 <= i < s.len(),
        i >= 0 ==> key(s[i]) == k,
        forall|j: int| 0 <= j < s.len() && (i < 0 || j < i) ==> #[trigger] key(s[j]) != k,
    ensures
        index_by(s, key, k) == i,
{
    lemma_index_by(s, key, k);
    let f = index_by(s, key, k);
    if f >= 0 && i >= 0 {
        if f < i {
            assert(key(s[f]) != k);
        } else if i < f {
            assert(key(s[i]) != k);
        }
    } else if f >= 0 {
        assert(key(s[f]) != k);
    } else if i >= 0 {
        assert(key(s[i]) != k);
    }
}

/// Removing the records of `k` leaves none of them, keeps the first record of
/// every other key, and keeps only records that were there.
pub proof fn lemma_without_by<A>(s: Seq<A>, key: spec_fn(A) -> Seq<char>, k: Seq<char>, other: Seq<char>)
    ensures
        forall|i: int| 0 <= i < without_by(s, key, k).len() ==> key(#[trigger] without_by(s, key, k)[i]) != k,
        forall|i: int| 0 <= i < without_by(s, key, k).len() ==> s.contains(#[trigger] without_by(s, key, k)[i]),
        without_by(s, key, k).len() <= s.len(),
        find_by(without_by(s, key, k), key, k) == None::<A>,
        other != k ==> find_by(without_by(s, key, k), key, other) == find_by(s, key, other),
    decreases s.len(),
{
    let w = without_by(s, key, k);
    if s.len() > 0 {
        let init = s.drop_last();
        lemma_without_by(init, key, k, other);
        let wi = without_by(init, key, k);
        assert forall|i: int| 0 <= i < w.len() implies s.contains(#[trigger] w[i]) by {
            if i < wi.len() {
                let j = choose|j: int| 0 <= j < init.len() && init[j] == wi[i];
                assert(s[j] == init[j]);
            } else {
                assert(s[s.len() - 1] == s.last());
            }
        }
        if key(s.last()) != k {
            assert(w.drop_last() =~= wi);
            assert(w.last() == s.last());
            if other != k {
                let iw = index_by(wi, key, other);
                let ii = index_by(init, key, other);
                lemma_index_by(wi, key, other);
                lemma_index_by(init, key, other);
                if iw >= 0 {
                    assert(w[iw] == wi[iw]);
                }
                if ii >= 0 {
                    assert(s[ii] == init[ii]);
                }
            }
        } else if other != k {
            let ii = index_by(init, key, other);
            lemma_index_by(init, key, other);
            if ii >= 0 {
                assert(s[ii] == init[ii]);
            }
        }
    }
    lemma_index_by(w, key, k);
    if index_by(w, key, k) >= 0 {
        assert(key(w[index_by(w, key, k)]) != k);
    }
}

/// Replacing the first record of key `k` by one with the same key makes it the
/// record found for `k` and leaves every other key's record as it was.
pub proof fn lemma_update_first<A>(s: Seq<A>, key: spec_fn(A) -> Seq<char>, x: A, other: Seq<char>)
    requires
        index_by(s, key, key(x)) >= 0,
    ensures
        find_by(s.update(index_by(s, key, key(x)), x), key, key(x)) == Some(x),
        other != key(x) ==> find_by(s.update(index_by(s, key, key(x)), x), key, other) == find_by(s, key, other),
{
    let k = key(x);
    let i = index_by(s, key, k);
    let t = s.update(i, x);
    lemma_index_by(s, key, k);
    lemma_index_by_is(t, key, k, i);
    lemma_index_by(s, key, other);
    if other != k {
        let io = index_by(s, key, other);
        assert forall|j: int| 0 <= j < t.len() && (io < 0 || j < io) implies #[trigger] key(t[j]) != other by {
            if j != i {
                assert(t[j] == s[j]);
            }
        }
        if io >= 0 {
            assert(io != i);
            assert(t[io] == s[io]);
        }
        lemma_index_by_is(t, key, other, io);
    }
}

/// Appending a record whose key was absent makes it the record found for its key
/// and leaves every other key's record as it was.
pub proof fn lemma_push_new<A>(s: Seq<A>, key: spec_fn(A) -> Seq<char>, x: A, other: Seq<char>)
    requires
        index_by(s, key, key(x)) < 0,
    ensures
        find_by(s.push(x), key, key(x)) == Some(x),
        other != key(x) ==> find_by(s.push(x), key, other) == find_by(s, key, other),
{
    let t = s.push(x);
    assert(t.drop_last() =~= s);
    lemma_index_by(s, key, other);
    if index_by(s, key, other) >= 0 {
        assert(t[index_by(s, key, other)] == s[index_by(s, key, other)]);
    }
}

/// Updating the record at the first index of key `k` with one of the same key
/// leaves the other keys' records as they were (for a record found by index).
pub proof fn lemma_update_at<A>(s: Seq<A>, key: spec_fn(A) -> Seq<char>, i: int, x: A, other: Seq<char>)
    requires
        0 <= i < s.len(),
        i == index_by(s, key, key(x)),
    ensures
        find_by(s.update(i, x), key, key(x)) == Some(x),
        other != key(x) ==> find_by(s.update(i, x), key, other) == find_by(s, key, other),
{
    lemma_update_first(s, key, x, other);
}

/// No two records share a key.
pub open spec fn keys_unique<A>(s: Seq<A>, key: spec_fn(A) -> Seq<char>) -> bool {
    forall|i: int, j: int|
        0 <= i < s.len() && 0 <= j < s.len() && i != j ==> key(#[trigger] s[i]) != key(#[trigger] s[j])
}

/// Removing the records of a key keeps the keys unique.
pub proof fn lemma_without_by_unique<A>(s: Seq<A>, key: spec_fn(A) -> Seq<char>, k: Seq<char>)
    requires
        keys_unique(s, key),
    ensures
        keys_unique(without_by(s, key, k), key),
    decreases s.len(),
{
    if s.len() > 0 {
        let init = s.drop_last();
        assert forall|i: int, j: int|
            0 <= i < init.len() && 0 <= j < init.len() && i != j implies key(#[trigger] init[i]) != key(
                #[trigger] init[j],
            ) by {
            assert(init[i] == s[i]);
            assert(init[j] == s[j]);
        }
        lemma_without_by_unique(init, key, k);
        let wi = without_by(init, key, k);
        if key(s.last()) != k {
            let w = wi.push(s.last());
            lemma_without_by(init, key, k, k);
            assert forall|i: int, j: int| 0 <= i < w.len() && 0 <= j < w.len() && i != j implies key(
                #[trigger] w[i],
            ) != key(#[trigger] w[j]) by {
                if i < wi.len() && j < wi.len() {
                    assert(w[i] == wi[i]);
                    assert(w[j] == wi[j]);
                } else {
                    let a = if i < wi.len() { i } else { j };
                    assert(w[a] == wi[a]);
                    assert(init.contains(wi[a]));
                    let m = choose|m: int| 0 <= m < init.len() && init[m] == wi[a];
                    assert(s[m] == init[m]);
                    assert(key(s[m]) != key(s[s.len() - 1]));
                }
            }
        }
    }
}

/// Appending a record whose key is absent keeps the keys unique.
pub proof fn lemma_push_new_unique<A>(s: Seq<A>, key: spec_fn(A) -> Seq<char>, x: A)
    requires
        keys_unique(s, key),
        index_by(s, key, key(x)) < 0,
    ensures
        keys_unique(s.push(x), key),
{
    lemma_index_by(s, key, key(x));
    let t = s.push(x);
    assert forall|i: int, j: int| 0 <= i < t.len() && 0 <= j < t.len() && i != j implies key(#[trigger] t[i])
        != key(#[trigger] t[j]) by {
        if i < s.len() {
            assert(t[i] == s[i]);
        }
        if j < s.len() {
            assert(t[j] == s[j]);
        }
    }
}

/// Replacing a record by one with the same key keeps the keys unique.
pub proof fn lemma_update_unique<A>(s: Seq<A>, key: spec_fn(A) -> Seq<char>, i: int, x: A)
    requires
        keys_unique(s, key),
        0 <= i < s.len(),
        key(x) == key(s[i]),
    ensures
        keys_unique(s.update(i, x), key),
{
    let t = s.update(i, x);
    assert forall|a: int, b: int| 0 <= a < t.len() && 0 <= b < t.len() && a != b implies key(#[trigger] t[a])
        != key(#[trigger] t[b]) by {
        assert(key(t[a]) == key(s[a]));
        assert(key(t[b]) == key(s[b]));
    }
}

} // verus!
