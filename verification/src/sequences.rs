//! Sequence operations that describe editing a list of lines at several positions
//! at once, and the facts that make one such edit undo another.
use vstd::prelude::*;

verus! {

/// Inserts `x` at `i`, or makes `x` the only element when `s` is empty.
pub open spec fn insert_or_push<T>(s: Seq<T>, i: int, x: T) -> Seq<T> {
    if s.len() == 0 {
        seq![x]
    } else {
        s.insert(i, x)
    }
}

/// Inserts `xs[0]` at `idx[0]`, then `xs[1]` at `idx[1]`, and so on (each insertion into
/// an empty sequence being a push).
pub open spec fn insert_each<T>(s: Seq<T>, idx: Seq<usize>, xs: Seq<T>) -> Seq<T>
    decreases idx.len(),
{
    if idx.len() == 0 {
        s
    } else {
        insert_or_push(insert_each(s, idx.drop_last(), xs.drop_last()), idx.last() as int, xs.last())
    }
}

/// Removes the element at the last index of `idx`, then at the one before it, and so on.
pub open spec fn remove_each_rev<T>(s: Seq<T>, idx: Seq<usize>) -> Seq<T>
    decreases idx.len(),
{
    if idx.len() == 0 {
        s
    } else {
        remove_each_rev(s.remove(idx.last() as int), idx.drop_last())
    }
}

/// Every insertion of `insert_each` into a sequence of length `len` is in bounds
/// (an insertion into an empty sequence always is).
pub open spec fn can_insert_each(len: nat, idx: Seq<usize>) -> bool {
    forall|k: int| 0 <= k < idx.len() ==> len + k == 0 || idx[k] <= len + k
}

/// Every insertion of `insert_each` into a sequence of length `len` is at a position
/// that exists at that point.
pub open spec fn inserts_in_place(len: nat, idx: Seq<usize>) -> bool {
    forall|k: int| 0 <= k < idx.len() ==> idx[k] <= len + k
}

/// Every removal of `remove_each_rev` from a sequence of length `len` is in bounds.
pub open spec fn can_remove_each_rev(len: int, idx: Seq<usize>) -> bool {
    forall|k: int| 0 <= k < idx.len() ==> idx[k] < len - (idx.len() - 1 - k)
}

/// Each index is below the next one.
pub open spec fn strictly_increasing(idx: Seq<usize>) -> bool {
    forall|a: int, b: int| 0 <= a < b < idx.len() ==> idx[a] < idx[b]
}

/// The elements of `s` at the positions `idx`, in that order.
pub open spec fn elements_at<T>(s: Seq<T>, idx: Seq<usize>) -> Seq<T> {
    idx.map_values(|i: usize| s[i as int])
}

/// The positions that hold `true`, in increasing order.
pub open spec fn true_positions(s: Seq<bool>) -> Seq<usize>
    decreases s.len(),
{
    if s.len() == 0 {
        Seq::empty()
    } else if s.last() {
        true_positions(s.drop_last()).push((s.len() - 1) as usize)
    } else {
        true_positions(s.drop_last())
    }
}

/// The elements of `s` whose flag in `flags` is `false`, in order.
pub open spec fn unflagged<T>(s: Seq<T>, flags: Seq<bool>) -> Seq<T>
    decreases s.len(),
{
    if s.len() == 0 {
        Seq::empty()
    } else if flags[s.len() - 1] {
        unflagged(s.drop_last(), flags)
    } else {
        unflagged(s.drop_last(), flags).push(s.last())
    }
}

/// A sequence of `n` copies of `b`.
pub open spec fn repeat_bool(b: bool, n: nat) -> Seq<bool> {
    Seq::new(n, |i: int| b)
}

pub proof fn lemma_insert_each_len<T>(s: Seq<T>, idx: Seq<usize>, xs: Seq<T>)
    requires
        xs.len() == idx.len(),
        can_insert_each(s.len(), idx),
    ensures
        insert_each(s, idx, xs).len() == s.len() + idx.len(),
    decreases idx.len(),
{
    if idx.len() > 0 {
        let idx2 = idx.drop_last();
        assert forall|k: int| 0 <= k < idx2.len() implies s.len() + k == 0 || idx2[k] <= s.len() + k by {
            assert(idx2[k] == idx[k]);
        }
        lemma_insert_each_len(s, idx2, xs.drop_last());
        let k = idx.len() - 1;
        assert(s.len() + k == 0 || idx[k] <= s.len() + k);
    }
}

pub proof fn lemma_remove_each_rev_len<T>(s: Seq<T>, idx: Seq<usize>)
    requires
        can_remove_each_rev(s.len() as int, idx),
    ensures
        remove_each_rev(s, idx).len() == s.len() - idx.len(),
        idx.len() <= s.len(),
    decreases idx.len(),
{
    if idx.len() > 0 {
        let k = idx.len() - 1;
        assert(idx[k] < s.len() - (idx.len() - 1 - k));
        let s2 = s.remove(idx.last() as int);
        let idx2 = idx.drop_last();
        assert forall|j: int| 0 <= j < idx2.len() implies idx2[j] < s2.len() - (idx2.len() - 1 - j) by {
            assert(idx2[j] == idx[j]);
            assert(idx[j] < s.len() - (idx.len() - 1 - j));
        }
        lemma_remove_each_rev_len(s2, idx2);
        assert(idx[0] < s.len() - (idx.len() - 1));
    }
}

/// Removing strictly increasing in-bounds positions from the last one down, then
/// inserting the removed elements back at the same positions from the first one up,
/// gives back the sequence; both passes stay in bounds.
pub proof fn lemma_remove_then_insert_restores<T>(s: Seq<T>, idx: Seq<usize>)
    requires
        strictly_increasing(idx),
        forall|k: int| 0 <= k < idx.len() ==> idx[k] < s.len(),
    ensures
        can_remove_each_rev(s.len() as int, idx),
        remove_each_rev(s, idx).len() == s.len() - idx.len(),
        inserts_in_place((s.len() - idx.len()) as nat, idx),
        can_insert_each((s.len() - idx.len()) as nat, idx),
        insert_each(remove_each_rev(s, idx), idx, elements_at(s, idx)) == s,
    decreases idx.len(),
{
    if idx.len() == 0 {
        return;
    }
    let n = idx.len();
    let last = idx.last();
    let idx2 = idx.drop_last();
    let s2 = s.remove(last as int);
    assert forall|a: int, b: int| 0 <= a < b < idx2.len() implies idx2[a] < idx2[b] by {
        assert(idx[a] < idx[b]);
    }
    assert forall|k: int| 0 <= k < idx2.len() implies idx2[k] < s2.len() by {
        assert(idx[k] < idx[n - 1]);
    }
    lemma_remove_then_insert_restores(s2, idx2);
    // bounds of the removals
    assert forall|k: int| 0 <= k < n implies idx[k] < s.len() - (n - 1 - k) by {
        if k < n - 1 {
            assert(idx2[k] == idx[k]);
            assert(idx2[k] < s2.len() - (idx2.len() - 1 - k));
        }
    }
    assert(remove_each_rev(s, idx) == remove_each_rev(s2, idx2));
    let r = remove_each_rev(s, idx);
    assert forall|k: int| 0 <= k < n implies idx[k] <= r.len() + k by {
        if k < n - 1 {
            assert(idx2[k] == idx[k]);
        } else {
            // the strictly increasing positions below `last` number n - 1
            lemma_increasing_bound(idx);
        }
    }
    // the values put back
    let vals = elements_at(s, idx);
    let vals2 = elements_at(s2, idx2);
    assert(vals.drop_last() =~= vals2) by {
        assert forall|k: int| 0 <= k < vals2.len() implies vals.drop_last()[k] == vals2[k] by {
            assert(idx[k] < last);
        }
    }
    assert(insert_each(r, idx2, vals2) == s2);
    if s2.len() == 0 {
        assert(insert_or_push(s2, last as int, s[last as int]) =~= s);
    } else {
        assert(s2.insert(last as int, s[last as int]) =~= s);
    }
}

/// In a strictly increasing sequence, the element at `k` is at least `k`.
pub proof fn lemma_increasing_bound(idx: Seq<usize>)
    requires
        strictly_increasing(idx),
    ensures
        forall|k: int| 0 <= k < idx.len() ==> idx[k] >= k,
    decreases idx.len(),
{
    if idx.len() > 0 {
        let idx2 = idx.drop_last();
        assert forall|a: int, b: int| 0 <= a < b < idx2.len() implies idx2[a] < idx2[b] by {
            assert(idx[a] < idx[b]);
        }
        lemma_increasing_bound(idx2);
        assert forall|k: int| 0 <= k < idx.len() implies idx[k] >= k by {
            if k < idx.len() - 1 {
                assert(idx2[k] == idx[k]);
            } else if k > 0 {
                assert(idx2[k - 1] == idx[k - 1]);
                assert(idx[k - 1] < idx[k]);
            }
        }
    }
}

/// Inserting at strictly increasing positions, each in place, puts every inserted element
/// at its position; removing those positions again from the last one down gives back the
/// sequence.
pub proof fn lemma_insert_then_remove_restores<T>(s: Seq<T>, idx: Seq<usize>, xs: Seq<T>)
    requires
        strictly_increasing(idx),
        inserts_in_place(s.len(), idx),
        xs.len() == idx.len(),
    ensures
        insert_each(s, idx, xs).len() == s.len() + idx.len(),
        forall|k: int| 0 <= k < idx.len() ==> idx[k] < insert_each(s, idx, xs).len(),
        elements_at(insert_each(s, idx, xs), idx) == xs,
        can_remove_each_rev(insert_each(s, idx, xs).len() as int, idx),
        remove_each_rev(insert_each(s, idx, xs), idx) == s,
    decreases idx.len(),
{
    if idx.len() == 0 {
        assert(elements_at(s, idx) =~= xs);
        return;
    }
    let n = idx.len();
    let last = idx.last();
    let idx2 = idx.drop_last();
    let xs2 = xs.drop_last();
    assert forall|a: int, b: int| 0 <= a < b < idx2.len() implies idx2[a] < idx2[b] by {
        assert(idx[a] < idx[b]);
    }
    assert forall|k: int| 0 <= k < idx2.len() implies idx2[k] <= s.len() + k by {
        assert(idx[k] <= s.len() + k);
    }
    lemma_insert_then_remove_restores(s, idx2, xs2);
    let t2 = insert_each(s, idx2, xs2);
    let t = insert_each(s, idx, xs);
    assert(idx[n - 1] <= s.len() + (n - 1));
    assert(last <= t2.len());
    if t2.len() == 0 {
        assert(last == 0);
        assert(t =~= t2.insert(0, xs.last()));
    }
    assert(t == t2.insert(last as int, xs.last()));
    assert(t.len() == s.len() + n);
    assert forall|k: int| 0 <= k < n implies idx[k] < t.len() by {
        assert(idx[k] <= s.len() + k);
    }
    assert(elements_at(t, idx) =~= xs) by {
        assert forall|k: int| 0 <= k < n implies t[idx[k] as int] == xs[k] by {
            if k < n - 1 {
                assert(idx[k] < last);
                assert(idx2[k] == idx[k]);
                assert(elements_at(t2, idx2)[k] == xs2[k]);
            }
        }
    }
    assert forall|k: int| 0 <= k < n implies idx[k] < t.len() - (n - 1 - k) by {
        if k < n - 1 {
            assert(idx2[k] == idx[k]);
            assert(idx2[k] < t2.len() - (idx2.len() - 1 - k));
        }
    }
    assert(t.remove(last as int) =~= t2);
    assert(remove_each_rev(t, idx) == remove_each_rev(t2, idx2));
}

/// `true_positions` lists exactly the `true` positions, in strictly increasing order.
pub proof fn lemma_true_positions(s: Seq<bool>)
    requires
        s.len() <= usize::MAX,
    ensures
        strictly_increasing(true_positions(s)),
        forall|k: int| 0 <= k < true_positions(s).len() ==>
            #[trigger] true_positions(s)[k] < s.len() && s[true_positions(s)[k] as int],
        forall|i: int| 0 <= i < s.len() && s[i] ==> true_positions(s).contains(i as usize),
    decreases s.len(),
{
    if s.len() > 0 {
        let s2 = s.drop_last();
        lemma_true_positions(s2);
        let p2 = true_positions(s2);
        let p = true_positions(s);
        if s.last() {
            assert(p == p2.push((s.len() - 1) as usize));
            assert forall|k: int| 0 <= k < p.len() implies #[trigger] p[k] < s.len() && s[p[k] as int] by {
                if k < p.len() - 1 {
                    assert(p[k] == p2[k]);
                }
            }
            assert forall|a: int, b: int| 0 <= a < b < p.len() implies p[a] < p[b] by {
                if b < p.len() - 1 {
                    assert(p2[a] < p2[b]);
                } else {
                    assert(p2[a] < s2.len());
                }
            }
        } else {
            assert forall|k: int| 0 <= k < p.len() implies #[trigger] p[k] < s.len() && s[p[k] as int] by {
                assert(p[k] == p2[k]);
            }
        }
        assert forall|i: int| 0 <= i < s.len() && s[i] implies true_positions(s).contains(i as usize) by {
            if i < s.len() - 1 {
                assert(s2[i]);
                let j = choose|j: int| 0 <= j < p2.len() && p2[j] == i as usize;
                if s.last() {
                    assert(true_positions(s)[j] == i as usize);
                }
            } else {
                assert(true_positions(s).last() == i as usize);
            }
        }
    }
}

/// Removing the `true` positions from the last one down keeps the other elements in order.
pub proof fn lemma_remove_true_positions<T>(s: Seq<T>, flags: Seq<bool>)
    requires
        flags.len() == s.len(),
        s.len() <= usize::MAX,
    ensures
        remove_each_rev(s, true_positions(flags)) == unflagged(s, flags),
    decreases s.len(),
{
    if s.len() > 0 {
        let n = s.len();
        let s2 = s.drop_last();
        let f2 = flags.drop_last();
        lemma_remove_true_positions(s2, f2);
        lemma_unflagged_prefix(s2, flags, f2);
        assert(f2.len() == s2.len());
        if flags.last() {
            assert(true_positions(flags) == true_positions(f2).push((n - 1) as usize));
            assert(s.remove(n - 1) =~= s2);
            let tp = true_positions(flags);
            assert(tp.drop_last() =~= true_positions(f2));
            assert(tp.last() == (n - 1) as usize);
            assert(remove_each_rev(s, true_positions(flags)) == remove_each_rev(s2, true_positions(f2)));
        } else {
            assert(true_positions(flags) == true_positions(f2));
            lemma_true_positions(f2);
            lemma_remove_below_last(s2, true_positions(f2), s.last());
            assert(s =~= s2.push(s.last()));
        }
    }
}

/// `unflagged` only reads the flags of the positions it keeps or drops.
pub proof fn lemma_unflagged_prefix<T>(s: Seq<T>, flags: Seq<bool>, flags2: Seq<bool>)
    requires
        flags.len() >= s.len(),
        flags2.len() >= s.len(),
        forall|i: int| 0 <= i < s.len() ==> flags[i] == flags2[i],
    ensures
        unflagged(s, flags) == unflagged(s, flags2),
    decreases s.len(),
{
    if s.len() > 0 {
        lemma_unflagged_prefix(s.drop_last(), flags, flags2);
    }
}

/// Removing positions that are all below the last element commutes with appending it.
pub proof fn lemma_remove_below_last<T>(s: Seq<T>, idx: Seq<usize>, x: T)
    requires
        forall|k: int| 0 <= k < idx.len() ==> idx[k] < s.len(),
        strictly_increasing(idx),
    ensures
        remove_each_rev(s.push(x), idx) == remove_each_rev(s, idx).push(x),
    decreases idx.len(),
{
    if idx.len() > 0 {
        let last = idx.last();
        let idx2 = idx.drop_last();
        assert(s.push(x).remove(last as int) =~= s.remove(last as int).push(x));
        assert forall|k: int| 0 <= k < idx2.len() implies idx2[k] < s.remove(last as int).len() by {
            assert(idx[k] < idx[idx.len() - 1]);
        }
        assert forall|a: int, b: int| 0 <= a < b < idx2.len() implies idx2[a] < idx2[b] by {
            assert(idx[a] < idx[b]);
        }
        lemma_remove_below_last(s.remove(last as int), idx2, x);
    }
}

/// The flags that stay when the set flags are taken out are all unset.
pub proof fn lemma_unflagged_flags_unset(s: Seq<bool>, flags: Seq<bool>)
    requires
        s.len() <= flags.len(),
        forall|i: int| 0 <= i < s.len() ==> s[i] == flags[i],
    ensures
        forall|i: int| 0 <= i < unflagged(s, flags).len() ==> !#[trigger] unflagged(s, flags)[i],
    decreases s.len(),
{
    if s.len() > 0 {
        lemma_unflagged_flags_unset(s.drop_last(), flags);
        let prev = unflagged(s.drop_last(), flags);
        if !flags[s.len() - 1] {
            assert forall|i: int| 0 <= i < prev.push(s.last()).len() implies !#[trigger] prev.push(s.last())[i] by {
                if i < prev.len() {
                    assert(prev.push(s.last())[i] == prev[i]);
                }
            }
        }
    }
}

} // verus!
