//! What holds of sequences in general.
use vstd::prelude::*;

verus! {

/// What a filter keeps.
pub(crate) proof fn lemma_filter_contains<U>(all: Seq<U>, keep: spec_fn(U) -> bool, user: U)
    ensures
        all.filter(keep).contains(user) <==> all.contains(user) && keep(user),
    decreases all.len(),
{
    reveal(Seq::filter);
    if all.len() > 0 {
        let rest = all.drop_last();
        lemma_filter_contains(rest, keep, user);
        assert(all =~= rest.push(all.last()));
        assert(all.contains(user) <==> rest.contains(user) || user == all.last()) by {
            if rest.contains(user) {
                assert(all[rest.index_of(user)] == user);
            }
            assert(all[all.len() - 1] == all.last());
            if all.contains(user) && user != all.last() {
                assert(rest[all.index_of(user)] == user);
            }
        }
        let kept = rest.filter(keep);
        assert(kept.push(all.last()).contains(user) <==> kept.contains(user) || user == all.last())
            by {
            if kept.contains(user) {
                assert(kept.push(all.last())[kept.index_of(user)] == user);
            }
            assert(kept.push(all.last())[kept.len() as int] == all.last());
        }
    }
}

/// Picking twice is picking once, where the second choice is the narrower.
pub(crate) proof fn lemma_filter_twice<U>(
    all: Seq<U>,
    wide: spec_fn(U) -> bool,
    narrow: spec_fn(U) -> bool,
)
    requires
        forall|u: U| #[trigger] narrow(u) ==> wide(u),
    ensures
        all.filter(wide).filter(narrow) == all.filter(narrow),
    decreases all.len(),
{
    reveal(Seq::filter);
    if all.len() > 0 {
        lemma_filter_twice(all.drop_last(), wide, narrow);
        let picked = all.drop_last().filter(wide);
        assert(picked.push(all.last()).drop_last() =~= picked);
    }
}

/// What a filter leaves out anyway may be taken out before.
pub(crate) proof fn lemma_filter_remove<U>(all: Seq<U>, keep: spec_fn(U) -> bool, i: int)
    requires
        0 <= i < all.len(),
        !keep(all[i]),
    ensures
        all.remove(i).filter(keep) == all.filter(keep),
    decreases all.len(),
{
    reveal(Seq::filter);
    if i == all.len() - 1 {
        assert(all.remove(i) =~= all.drop_last());
    } else {
        lemma_filter_remove(all.drop_last(), keep, i);
        assert(all.remove(i).drop_last() =~= all.drop_last().remove(i));
        assert(all.remove(i).last() == all.last());
    }
}

/// Where everything is picked, everything stays.
pub(crate) proof fn lemma_filter_all<U>(all: Seq<U>, keep: spec_fn(U) -> bool)
    requires
        forall|i: int| 0 <= i < all.len() ==> keep(#[trigger] all[i]),
    ensures
        all.filter(keep) == all,
    decreases all.len(),
{
    reveal(Seq::filter);
    if all.len() > 0 {
        let rest = all.drop_last();
        assert forall|i: int| 0 <= i < rest.len() implies keep(#[trigger] rest[i]) by {
            assert(rest[i] == all[i]);
        }
        lemma_filter_all(rest, keep);
        assert(keep(all[all.len() - 1]));
        assert(all =~= rest.push(all.last()));
    } else {
        assert(all.filter(keep) =~= all);
    }
}

/// What is picked has no duplicates where there were none.
pub(crate) proof fn lemma_filter_no_duplicates<U>(all: Seq<U>, keep: spec_fn(U) -> bool)
    requires
        all.no_duplicates(),
    ensures
        all.filter(keep).no_duplicates(),
    decreases all.len(),
{
    reveal(Seq::filter);
    if all.len() > 0 {
        let rest = all.drop_last();
        lemma_filter_no_duplicates(rest, keep);
        lemma_filter_contains(rest, keep, all.last());
        assert(!rest.contains(all.last())) by {
            if rest.contains(all.last()) {
                assert(all[rest.index_of(all.last())] == all[all.len() - 1]);
            }
        }
    }
}

/// To pick and then map is to map and then pick, where both choices agree.
pub(crate) proof fn lemma_filter_map<U, W>(
    all: Seq<U>,
    f: spec_fn(U) -> W,
    before: spec_fn(U) -> bool,
    after: spec_fn(W) -> bool,
)
    requires
        forall|u: U| #[trigger] before(u) == after(f(u)),
    ensures
        all.filter(before).map_values(f) == all.map_values(f).filter(after),
    decreases all.len(),
{
    reveal(Seq::filter);
    if all.len() > 0 {
        let rest = all.drop_last();
        lemma_filter_map(rest, f, before, after);
        assert(all.map_values(f).drop_last() =~= rest.map_values(f));
        assert(before(all.last()) == after(f(all.last())));
        assert(all.filter(before).map_values(f) =~= all.map_values(f).filter(after));
    } else {
        assert(all.filter(before).map_values(f) =~= all.map_values(f).filter(after));
    }
}

/// Where `f` tells all values apart, its values occur as often as what they stand for.
pub(crate) proof fn lemma_count_map<U, W>(all: Seq<U>, f: spec_fn(U) -> W, u: U)
    requires
        forall|v: U| #[trigger] f(v) == f(u) ==> v == u,
    ensures
        all.map_values(f).to_multiset().count(f(u)) == all.to_multiset().count(u),
    decreases all.len(),
{
    if all.len() > 0 {
        let rest = all.drop_last();
        lemma_count_map(rest, f, u);
        assert(all =~= rest.push(all.last()));
        assert(all.map_values(f) =~= rest.map_values(f).push(f(all.last())));
        rest.to_multiset_ensures();
        rest.map_values(f).to_multiset_ensures();
    } else {
        all.to_multiset_ensures();
        all.map_values(f).to_multiset_ensures();
        assert(!all.contains(u));
        assert(!all.map_values(f).contains(f(u)));
    }
}

/// Mapping keeps what does not depend on the order.
pub(crate) proof fn lemma_map_reordered<U, W>(one: Seq<U>, other: Seq<U>, f: spec_fn(U) -> W)
    requires
        one.to_multiset() == other.to_multiset(),
    ensures
        one.map_values(f).to_multiset() == other.map_values(f).to_multiset(),
    decreases one.len(),
{
    one.to_multiset_ensures();
    other.to_multiset_ensures();
    if one.len() > 0 {
        let n = one.len() - 1;
        assert(one.contains(one[n]));
        assert(other.to_multiset().count(one[n]) > 0);
        let j = other.index_of(one[n]);
        lemma_map_reordered(one.remove(n), other.remove(j), f);
        one.map_values(f).to_multiset_ensures();
        other.map_values(f).to_multiset_ensures();
        assert(one.map_values(f).remove(n) =~= one.remove(n).map_values(f));
        assert(other.map_values(f).remove(j) =~= other.remove(j).map_values(f));
        assert(one.map_values(f).contains(f(one[n]))) by {
            assert(one.map_values(f)[n] == f(one[n]));
        }
        assert(other.map_values(f).contains(f(one[n]))) by {
            assert(other.map_values(f)[j] == f(one[n]));
        }
        let whole = one.map_values(f).to_multiset();
        let also = other.map_values(f).to_multiset();
        assert(whole =~= whole.remove(f(one[n])).insert(f(one[n])));
        assert(also =~= also.remove(f(one[n])).insert(f(one[n])));
    } else {
        assert(one.map_values(f) =~= other.map_values(f));
    }
}

} // verus!
