use vstd::prelude::*;
use crate::git::cache::keyed_by_id;
use crate::git::types::CommitView;
use crate::seqs::{
    keep_where,
    lemma_keep_where_holds,
    lemma_keep_where_member,
    lemma_keep_where_one_out,
    lemma_keep_where_order,
};

verus! {

/// The cache after one identity has been visited.
///
/// A cached identity leaves the cache as it is. One that is not cached is filed
/// with the commit that the store gave for it, if it gave one.
pub open spec fn visit_cache(
    cache: Map<Seq<u8>, CommitView>,
    id: Seq<u8>,
    outcome: Option<CommitView>,
) -> Map<Seq<u8>, CommitView> {
    if cache.contains_key(id) {
        cache
    } else {
        match outcome {
            Some(c) => cache.insert(id, c),
            None => cache,
        }
    }
}

/// The list after one identity has been visited.
///
/// A cached identity adds its cached commit. One that is not cached adds the
/// commit that the store gave for it, and nothing where the store gave none.
pub open spec fn visit_list(
    cache: Map<Seq<u8>, CommitView>,
    list: Seq<CommitView>,
    id: Seq<u8>,
    outcome: Option<CommitView>,
) -> Seq<CommitView> {
    if cache.contains_key(id) {
        list.push(cache[id])
    } else {
        match outcome {
            Some(c) => list.push(c),
            None => list,
        }
    }
}

/// The cache after the identities `ids` have been visited in turn, where
/// `outcomes[i]` is what the store gave for `ids[i]`.
pub open spec fn cache_after(
    cache: Map<Seq<u8>, CommitView>,
    ids: Seq<Seq<u8>>,
    outcomes: Seq<Option<CommitView>>,
) -> Map<Seq<u8>, CommitView>
    decreases ids.len(),
{
    if ids.len() == 0 || outcomes.len() != ids.len() {
        cache
    } else {
        visit_cache(
            cache_after(cache, ids.drop_last(), outcomes.drop_last()),
            ids.last(),
            outcomes.last(),
        )
    }
}

/// The list that visiting the identities `ids` in turn yields.
pub open spec fn list_after(
    cache: Map<Seq<u8>, CommitView>,
    ids: Seq<Seq<u8>>,
    outcomes: Seq<Option<CommitView>>,
) -> Seq<CommitView>
    decreases ids.len(),
{
    if ids.len() == 0 || outcomes.len() != ids.len() {
        Seq::empty()
    } else {
        visit_list(
            cache_after(cache, ids.drop_last(), outcomes.drop_last()),
            list_after(cache, ids.drop_last(), outcomes.drop_last()),
            ids.last(),
            outcomes.last(),
        )
    }
}

/// The number of visits, among those of `ids` in turn, that found their
/// identity in the cache.
pub open spec fn reused_after(
    cache: Map<Seq<u8>, CommitView>,
    ids: Seq<Seq<u8>>,
    outcomes: Seq<Option<CommitView>>,
) -> nat
    decreases ids.len(),
{
    if ids.len() == 0 || outcomes.len() != ids.len() {
        0
    } else {
        reused_after(cache, ids.drop_last(), outcomes.drop_last()) + if cache_after(
            cache,
            ids.drop_last(),
            outcomes.drop_last(),
        ).contains_key(ids.last()) {
            1nat
        } else {
            0nat
        }
    }
}

/// Whether `outcomes` can be what a store gave for `ids`: one outcome for each
/// identity, and each commit given bears the identity it was asked for.
pub open spec fn outcomes_fit(ids: Seq<Seq<u8>>, outcomes: Seq<Option<CommitView>>) -> bool {
    &&& outcomes.len() == ids.len()
    &&& forall|i: int|
        0 <= i < ids.len() ==> ((#[trigger] outcomes[i]) matches Some(c) ==> c.id == ids[i])
}

/// What a store that does not change gives for each of `ids`: the commit it
/// holds under that identity, or nothing where it holds none that can be read.
pub open spec fn answers(store: Map<Seq<u8>, CommitView>, ids: Seq<Seq<u8>>) -> Seq<
    Option<CommitView>,
> {
    Seq::new(
        ids.len(),
        |i: int|
            if store.contains_key(ids[i]) {
                Some(store[ids[i]])
            } else {
                None
            },
    )
}

/// Whether an identity can be had from the cache or, failing that, the store.
pub open spec fn readable(
    cache: Map<Seq<u8>, CommitView>,
    store: Map<Seq<u8>, CommitView>,
    id: Seq<u8>,
) -> bool {
    cache.contains_key(id) || store.contains_key(id)
}

/// The commit had for an identity: the cached one, or failing that the store's.
pub open spec fn value_of(
    cache: Map<Seq<u8>, CommitView>,
    store: Map<Seq<u8>, CommitView>,
    id: Seq<u8>,
) -> CommitView {
    if cache.contains_key(id) {
        cache[id]
    } else {
        store[id]
    }
}

/// For each of `ids`, whether it is readable.
pub open spec fn readable_mask(
    cache: Map<Seq<u8>, CommitView>,
    store: Map<Seq<u8>, CommitView>,
    ids: Seq<Seq<u8>>,
) -> Seq<bool> {
    Seq::new(ids.len(), |i: int| readable(cache, store, ids[i]))
}

/// The loaded list in closed form: the readable identities of the walk, in the
/// walk's order, each with its commit.
pub open spec fn loaded_list(
    cache: Map<Seq<u8>, CommitView>,
    store: Map<Seq<u8>, CommitView>,
    ids: Seq<Seq<u8>>,
) -> Seq<CommitView> {
    keep_where(ids, readable_mask(cache, store, ids)).map_values(
        |id: Seq<u8>| value_of(cache, store, id),
    )
}

/// The cache after a load in closed form: what it held before, and the store's
/// commit for each walked identity that it did not hold.
pub open spec fn loaded_cache(
    cache: Map<Seq<u8>, CommitView>,
    store: Map<Seq<u8>, CommitView>,
    ids: Seq<Seq<u8>>,
) -> Map<Seq<u8>, CommitView> {
    Map::new(
        |id: Seq<u8>| cache.contains_key(id) || (ids.contains(id) && store.contains_key(id)),
        |id: Seq<u8>| value_of(cache, store, id),
    )
}

/// What a store that does not change gives fits the identities asked for.
pub proof fn lemma_answers_fit(store: Map<Seq<u8>, CommitView>, ids: Seq<Seq<u8>>)
    requires
        keyed_by_id(store),
    ensures
        outcomes_fit(ids, answers(store, ids)),
{
}

/// A load from a store that does not change yields the closed forms.
pub proof fn lemma_load_closed_form(
    cache: Map<Seq<u8>, CommitView>,
    store: Map<Seq<u8>, CommitView>,
    ids: Seq<Seq<u8>>,
)
    ensures
        list_after(cache, ids, answers(store, ids)) == loaded_list(cache, store, ids),
        cache_after(cache, ids, answers(store, ids)) == loaded_cache(cache, store, ids),
    decreases ids.len(),
{
    let value = |id: Seq<u8>| value_of(cache, store, id);
    if ids.len() == 0 {
        assert(loaded_list(cache, store, ids) =~= Seq::<CommitView>::empty());
        assert(loaded_cache(cache, store, ids) =~= cache);
    } else {
        let front = ids.drop_last();
        let last = ids.last();
        lemma_load_closed_form(cache, store, front);
        assert(answers(store, ids).drop_last() =~= answers(store, front));
        assert(readable_mask(cache, store, ids).drop_last() =~= readable_mask(
            cache,
            store,
            front,
        ));
        let cf = cache_after(cache, front, answers(store, front));
        let lf = list_after(cache, front, answers(store, front));
        let kept_front = keep_where(front, readable_mask(cache, store, front));
        assert(lf == kept_front.map_values(value));
        assert forall|id: Seq<u8>| ids.contains(id) == (front.contains(id) || id == last) by {
            if ids.contains(id) {
                let i = choose|i: int| 0 <= i < ids.len() && ids[i] == id;
                if i < front.len() {
                    assert(front[i] == id);
                }
            }
            if front.contains(id) {
                let i = choose|i: int| 0 <= i < front.len() && front[i] == id;
                assert(ids[i] == id);
            }
            if id == last {
                assert(ids[ids.len() - 1] == id);
            }
        }
        if cf.contains_key(last) {
            assert(readable(cache, store, last));
            assert(cf[last] == value_of(cache, store, last));
            assert(kept_front.push(last).map_values(value) =~= kept_front.map_values(
                value,
            ).push(value(last)));
            assert(loaded_cache(cache, store, ids) =~= cf);
        } else if store.contains_key(last) {
            assert(kept_front.push(last).map_values(value) =~= kept_front.map_values(
                value,
            ).push(value(last)));
            assert(loaded_cache(cache, store, ids) =~= cf.insert(last, store[last]));
        } else {
            assert(loaded_cache(cache, store, ids) =~= cf);
        }
    }
}

/// Loading the same walk twice from a store that does not change yields the
/// same list both times, and the second load leaves the cache as the first
/// left it: it holds no more commits than before.
pub proof fn lemma_load_idempotent(
    cache: Map<Seq<u8>, CommitView>,
    store: Map<Seq<u8>, CommitView>,
    ids: Seq<Seq<u8>>,
)
    ensures
        ({
            let given = answers(store, ids);
            let once = cache_after(cache, ids, given);
            &&& list_after(once, ids, given) == list_after(cache, ids, given)
            &&& cache_after(once, ids, given) == once
        }),
{
    let given = answers(store, ids);
    let once = cache_after(cache, ids, given);
    lemma_load_closed_form(cache, store, ids);
    lemma_load_closed_form(once, store, ids);
    assert(readable_mask(once, store, ids) =~= readable_mask(cache, store, ids));
    let mask = readable_mask(cache, store, ids);
    let kept = keep_where(ids, mask);
    let first = kept.map_values(|id: Seq<u8>| value_of(cache, store, id));
    let second = kept.map_values(|id: Seq<u8>| value_of(once, store, id));
    assert forall|j: int| 0 <= j < kept.len() implies first[j] == second[j] by {
        lemma_keep_where_member(ids, mask, j);
        let i = choose|i: int| 0 <= i < ids.len() && mask[i] && ids[i] == kept[j];
        assert(ids.contains(kept[j]));
        assert(once.contains_key(kept[j]));
    }
    assert(first =~= second);
    assert(loaded_cache(once, store, ids) =~= once);
}

/// Where exactly one visited identity can be read neither from the cache nor
/// from the store, the load yields every other one, in order: one entry fewer
/// than identities were visited.
pub proof fn lemma_one_unreadable(
    cache: Map<Seq<u8>, CommitView>,
    store: Map<Seq<u8>, CommitView>,
    ids: Seq<Seq<u8>>,
    k: int,
)
    requires
        0 <= k < ids.len(),
        forall|i: int| 0 <= i < ids.len() ==> (readable(cache, store, #[trigger] ids[i]) <==> i != k),
    ensures
        list_after(cache, ids, answers(store, ids)).len() == ids.len() - 1,
        list_after(cache, ids, answers(store, ids)) == ids.remove(k).map_values(
            |id: Seq<u8>| value_of(cache, store, id),
        ),
{
    lemma_load_closed_form(cache, store, ids);
    lemma_keep_where_one_out(ids, readable_mask(cache, store, ids), k);
}

/// The load keeps the walk's order: where no readable identity of the walk
/// stands before a commit of which it is a parent, no entry of the loaded list
/// stands before an entry of which it is a parent.
pub proof fn lemma_order_kept(
    cache: Map<Seq<u8>, CommitView>,
    store: Map<Seq<u8>, CommitView>,
    ids: Seq<Seq<u8>>,
)
    requires
        keyed_by_id(cache),
        keyed_by_id(store),
        forall|i: int, j: int|
            0 <= i < j < ids.len() && readable(cache, store, #[trigger] ids[i]) && readable(
                cache,
                store,
                #[trigger] ids[j],
            ) ==> !value_of(cache, store, ids[j]).parents.contains(ids[i]),
    ensures
        ({
            let list = list_after(cache, ids, answers(store, ids));
            forall|a: int, b: int|
                0 <= a < b < list.len() ==> !(#[trigger] list[b]).parents.contains(
                    (#[trigger] list[a]).id,
                )
        }),
{
    lemma_load_closed_form(cache, store, ids);
    let list = list_after(cache, ids, answers(store, ids));
    let mask = readable_mask(cache, store, ids);
    let kept = keep_where(ids, mask);
    assert forall|a: int, b: int| 0 <= a < b < list.len() implies !(#[trigger] list[b]).parents.contains(
        (#[trigger] list[a]).id,
    ) by {
        lemma_keep_where_order(ids, mask, a, b);
        let (i, j) = choose|i: int, j: int|
            0 <= i < j < ids.len() && mask[i] && mask[j] && ids[i] == kept[a] && ids[j]
                == kept[b];
        assert(readable(cache, store, ids[i]) && readable(cache, store, ids[j]));
        assert(list[a] == value_of(cache, store, ids[i]));
        assert(list[b] == value_of(cache, store, ids[j]));
        assert(list[a].id == ids[i]);
    }
}

/// The loaded list holds commits of the walk only, and each readable one: an
/// identity that the walk left out is not in the list, and a readable identity
/// that the walk yielded is.
pub proof fn lemma_list_members(
    cache: Map<Seq<u8>, CommitView>,
    store: Map<Seq<u8>, CommitView>,
    ids: Seq<Seq<u8>>,
    id: Seq<u8>,
)
    requires
        keyed_by_id(cache),
        keyed_by_id(store),
    ensures
        ({
            let list = list_after(cache, ids, answers(store, ids));
            &&& !ids.contains(id) ==> forall|a: int|
                0 <= a < list.len() ==> (#[trigger] list[a]).id != id
            &&& ids.contains(id) && readable(cache, store, id) ==> exists|a: int|
                0 <= a < list.len() && (#[trigger] list[a]).id == id
        }),
{
    lemma_load_closed_form(cache, store, ids);
    let list = list_after(cache, ids, answers(store, ids));
    let mask = readable_mask(cache, store, ids);
    let kept = keep_where(ids, mask);
    if !ids.contains(id) {
        assert forall|a: int| 0 <= a < list.len() implies (#[trigger] list[a]).id != id by {
            lemma_keep_where_member(ids, mask, a);
            let i = choose|i: int| 0 <= i < ids.len() && mask[i] && ids[i] == kept[a];
            assert(readable(cache, store, ids[i]));
            assert(list[a].id == ids[i]);
            assert(ids.contains(ids[i]));
        }
    }
    if ids.contains(id) && readable(cache, store, id) {
        let i = choose|i: int| 0 <= i < ids.len() && ids[i] == id;
        assert(mask[i]);
        lemma_keep_where_holds(ids, mask, i);
        let a = choose|a: int| 0 <= a < kept.len() && kept[a] == ids[i];
        assert(list[a] == value_of(cache, store, id));
        assert(list[a].id == id);
    }
}

} // verus!
