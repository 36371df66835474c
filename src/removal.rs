//! Removing the child views that closed during one cycle.
use vstd::prelude::*;

verus! {

/// The items of `s` whose flag in `open` is set, in their order.
pub open spec fn kept<T>(s: Seq<T>, open: Seq<bool>) -> Seq<T>
    decreases s.len(),
{
    if s.len() == 0 {
        Seq::empty()
    } else {
        let rest = kept(s.drop_last(), open.drop_last());
        if open.last() {
            rest.push(s.last())
        } else {
            rest
        }
    }
}

/// The positions whose flag in `open` is clear, in ascending order.
pub open spec fn closed_indices(open: Seq<bool>) -> Seq<int>
    decreases open.len(),
{
    if open.len() == 0 {
        Seq::empty()
    } else {
        let rest = closed_indices(open.drop_last());
        if open.last() {
            rest
        } else {
            rest.push(open.len() - 1)
        }
    }
}

/// Removes the positions `idx` of `s` one after another, front to back,
/// each one shifted down by the number of items removed before it.
pub open spec fn remove_shifted<T>(s: Seq<T>, idx: Seq<int>) -> Seq<T>
    decreases idx.len(),
{
    if idx.len() == 0 {
        s
    } else {
        remove_shifted(s, idx.drop_last()).remove(idx.last() - (idx.len() - 1))
    }
}

/// Every item is either kept or has its position among the closed ones.
pub proof fn lemma_kept_len<T>(s: Seq<T>, open: Seq<bool>)
    requires
        s.len() == open.len(),
    ensures
        kept(s, open).len() + closed_indices(open).len() == s.len(),
    decreases s.len(),
{
    if s.len() > 0 {
        lemma_kept_len(s.drop_last(), open.drop_last());
    }
}

/// After the closed positions among the first `m` have been removed, the
/// kept items of that prefix stand first, followed by the untouched rest.
pub proof fn lemma_shifted_prefix<T>(s: Seq<T>, open: Seq<bool>, m: int)
    requires
        s.len() == open.len(),
        0 <= m <= s.len(),
    ensures
        remove_shifted(s, closed_indices(open.take(m))) == kept(s.take(m), open.take(m)) + s.skip(m),
    decreases m,
{
    if m == 0 {
        assert(open.take(0) =~= Seq::<bool>::empty());
        assert(s.take(0) =~= Seq::<T>::empty());
        assert(closed_indices(open.take(0)) =~= Seq::<int>::empty());
        assert(kept(s.take(0), open.take(0)) + s.skip(0) =~= s);
    } else {
        let k = m - 1;
        lemma_shifted_prefix(s, open, k);
        let a = open.take(k);
        let t = s.take(k);
        assert(open.take(m).drop_last() =~= a);
        assert(s.take(m).drop_last() =~= t);
        let c = closed_indices(a);
        if open[k] {
            assert(closed_indices(open.take(m)) == c);
            assert(kept(s.take(m), open.take(m)) == kept(t, a).push(s[k]));
            assert(kept(t, a) + s.skip(k) =~= kept(t, a).push(s[k]) + s.skip(m));
        } else {
            assert(closed_indices(open.take(m)) == c.push(k));
            assert(c.push(k).drop_last() =~= c);
            assert(kept(s.take(m), open.take(m)) == kept(t, a));
            lemma_kept_len(t, a);
            let before = kept(t, a) + s.skip(k);
            assert(remove_shifted(s, c.push(k)) == before.remove(k - c.len()));
            assert(before.remove(k - c.len()) =~= kept(t, a) + s.skip(m));
        }
    }
}

/// Removing the closed positions in ascending order, each shifted down by
/// the removals before it, leaves exactly the open items in their order:
/// the same as a stable filter on the flags.
pub proof fn lemma_shifted_removal_keeps_open<T>(s: Seq<T>, open: Seq<bool>)
    requires
        s.len() == open.len(),
    ensures
        remove_shifted(s, closed_indices(open)) == kept(s, open),
{
    lemma_shifted_prefix(s, open, s.len() as int);
    assert(open.take(s.len() as int) =~= open);
    assert(s.take(s.len() as int) =~= s);
    assert(kept(s, open) + s.skip(s.len() as int) =~= kept(s, open));
}

} // verus!
