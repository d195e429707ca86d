use vstd::prelude::*;

verus! {

/// The items of `s` whose flag in `keep` is set, in their order.
///
/// Where the two lengths differ, nothing is kept.
pub open spec fn keep_where<T>(s: Seq<T>, keep: Seq<bool>) -> Seq<T>
    decreases s.len(),
{
    if s.len() == 0 || keep.len() != s.len() {
        Seq::empty()
    } else {
        let rest = keep_where(s.drop_last(), keep.drop_last());
        if keep.last() {
            rest.push(s.last())
        } else {
            rest
        }
    }
}

/// Adding one item with its flag adds that item exactly when the flag is set.
pub proof fn lemma_keep_where_push<T>(s: Seq<T>, keep: Seq<bool>, item: T, flag: bool)
    requires
        s.len() == keep.len(),
    ensures
        keep_where(s.push(item), keep.push(flag)) == if flag {
            keep_where(s, keep).push(item)
        } else {
            keep_where(s, keep)
        },
{
    assert(s.push(item).drop_last() =~= s);
    assert(keep.push(flag).drop_last() =~= keep);
}

/// Everything is kept where every flag is set.
pub proof fn lemma_keep_where_all<T>(s: Seq<T>, keep: Seq<bool>)
    requires
        keep.len() == s.len(),
        forall|i: int| 0 <= i < keep.len() ==> keep[i],
    ensures
        keep_where(s, keep) == s,
    decreases s.len(),
{
    if s.len() != 0 {
        lemma_keep_where_all(s.drop_last(), keep.drop_last());
        assert(s.drop_last().push(s.last()) =~= s);
    } else {
        assert(s =~= Seq::empty());
    }
}

/// Every kept item stood in `s` at a place whose flag is set.
pub proof fn lemma_keep_where_member<T>(s: Seq<T>, keep: Seq<bool>, j: int)
    requires
        0 <= j < keep_where(s, keep).len(),
    ensures
        exists|i: int| 0 <= i < s.len() && keep[i] && s[i] == keep_where(s, keep)[j],
    decreases s.len(),
{
    if s.len() != 0 && keep.len() == s.len() {
        let rest = keep_where(s.drop_last(), keep.drop_last());
        if keep.last() && j == rest.len() {
            let i = s.len() - 1;
            assert(keep[i] && s[i] == keep_where(s, keep)[j]);
        } else {
            lemma_keep_where_member(s.drop_last(), keep.drop_last(), j);
            let i = choose|i: int|
                0 <= i < s.drop_last().len() && keep.drop_last()[i] && s.drop_last()[i] == rest[j];
            assert(keep[i] && s[i] == keep_where(s, keep)[j]);
        }
    }
}

/// Every item whose flag is set is kept.
pub proof fn lemma_keep_where_holds<T>(s: Seq<T>, keep: Seq<bool>, i: int)
    requires
        keep.len() == s.len(),
        0 <= i < s.len(),
        keep[i],
    ensures
        exists|j: int| 0 <= j < keep_where(s, keep).len() && keep_where(s, keep)[j] == s[i],
    decreases s.len(),
{
    let rest = keep_where(s.drop_last(), keep.drop_last());
    if i == s.len() - 1 {
        assert(keep_where(s, keep)[rest.len() as int] == s[i]);
    } else {
        lemma_keep_where_holds(s.drop_last(), keep.drop_last(), i);
        let j = choose|j: int| 0 <= j < rest.len() && rest[j] == s.drop_last()[i];
        assert(keep_where(s, keep)[j] == s[i]);
    }
}

/// Kept items stand in the order in which they stood in `s`.
pub proof fn lemma_keep_where_order<T>(s: Seq<T>, keep: Seq<bool>, a: int, b: int)
    requires
        0 <= a < b < keep_where(s, keep).len(),
    ensures
        exists|i: int, j: int|
            0 <= i < j < s.len() && keep[i] && keep[j] && s[i] == keep_where(s, keep)[a] && s[j]
                == keep_where(s, keep)[b],
    decreases s.len(),
{
    if s.len() != 0 && keep.len() == s.len() {
        let front = s.drop_last();
        let flags = keep.drop_last();
        let rest = keep_where(front, flags);
        if keep.last() && b == rest.len() {
            lemma_keep_where_member(front, flags, a);
            let i = choose|i: int| 0 <= i < front.len() && flags[i] && front[i] == rest[a];
            let j = s.len() - 1;
            assert(0 <= i < j < s.len() && keep[i] && keep[j] && s[i] == keep_where(s, keep)[a]
                && s[j] == keep_where(s, keep)[b]);
        } else {
            lemma_keep_where_order(front, flags, a, b);
            let (i, j) = choose|i: int, j: int|
                0 <= i < j < front.len() && flags[i] && flags[j] && front[i] == rest[a]
                    && front[j] == rest[b];
            assert(0 <= i < j < s.len() && keep[i] && keep[j] && s[i] == keep_where(s, keep)[a]
                && s[j] == keep_where(s, keep)[b]);
        }
    }
}

/// Where every flag but one is set, everything but that one item is kept.
pub proof fn lemma_keep_where_one_out<T>(s: Seq<T>, keep: Seq<bool>, k: int)
    requires
        keep.len() == s.len(),
        0 <= k < s.len(),
        forall|i: int| 0 <= i < keep.len() ==> (keep[i] <==> i != k),
    ensures
        keep_where(s, keep) == s.remove(k),
        keep_where(s, keep).len() == s.len() - 1,
    decreases s.len(),
{
    let front = s.drop_last();
    let flags = keep.drop_last();
    if k == s.len() - 1 {
        lemma_keep_where_all(front, flags);
        assert(s.remove(k) =~= front);
    } else {
        lemma_keep_where_one_out(front, flags, k);
        assert(front.remove(k).push(s.last()) =~= s.remove(k));
    }
}

/// Keeps the items whose flag is set and removes the others, in place.
pub fn retain_flagged<T>(items: &mut Vec<T>, keep: &Vec<bool>)
    requires
        keep@.len() == old(items)@.len(),
    ensures
        final(items)@ == keep_where(old(items)@, keep@),
{
    let ghost before = items@;
    let mut done: usize = 0;
    let mut i: usize = 0;
    proof {
        assert(before.take(0) =~= Seq::<T>::empty());
        assert(keep@.take(0) =~= Seq::<bool>::empty());
        assert(items@.take(0) =~= Seq::<T>::empty());
        assert(before.skip(0) =~= before);
    }
    while done < keep.len()
        invariant
            before == old(items)@,
            keep@.len() == before.len(),
            done <= before.len(),
            i <= items@.len(),
            items@.len() - i == before.len() - done,
            items@.take(i as int) == keep_where(before.take(done as int), keep@.take(done as int)),
            items@.skip(i as int) == before.skip(done as int),
        decreases before.len() - done,
    {
        let ghost current = items@;
        let held = items.len();
        assert(i < held);
        let flag = keep[done];
        proof {
            assert(current[i as int] == current.skip(i as int)[0]);
            assert(before[done as int] == before.skip(done as int)[0]);
            lemma_keep_where_push(
                before.take(done as int),
                keep@.take(done as int),
                before[done as int],
                flag,
            );
            assert(before.take(done as int).push(before[done as int]) =~= before.take(done + 1));
            assert(keep@.take(done as int).push(flag) =~= keep@.take(done + 1));
            assert(before.skip(done as int).skip(1) =~= before.skip(done + 1));
        }
        if flag {
            proof {
                assert(current.take(i + 1) =~= current.take(i as int).push(current[i as int]));
                assert(current.skip(i + 1) =~= current.skip(i as int).skip(1));
            }
            i = i + 1;
        } else {
            items.remove(i);
            proof {
                assert(items@.take(i as int) =~= current.take(i as int));
                assert(items@.skip(i as int) =~= current.skip(i as int).skip(1));
            }
        }
        done = done + 1;
    }
    proof {
        assert(before.take(before.len() as int) =~= before);
        assert(keep@.take(before.len() as int) =~= keep@);
        assert(items@.take(i as int) =~= items@);
    }
}

} // verus!
