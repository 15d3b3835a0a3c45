use vstd::prelude::*;

use crate::deal::DealItem;

verus! {

/// All per-vendor lists, concatenated in registry order.
pub open spec fn concat_all(lists: Seq<Seq<DealItem>>) -> Seq<DealItem>
    decreases lists.len(),
{
    if lists.len() == 0 {
        Seq::empty()
    } else {
        lists[0] + concat_all(lists.drop_first())
    }
}

/// `x` placed after every element whose price does not exceed its own:
/// insertion that keeps equal-priced elements in arrival order.
pub open spec fn insert_by_price(s: Seq<DealItem>, x: DealItem) -> Seq<DealItem>
    decreases s.len(),
{
    if s.len() == 0 {
        seq![x]
    } else if s.last().price_cents <= x.price_cents {
        s.push(x)
    } else {
        insert_by_price(s.drop_last(), x).push(s.last())
    }
}

/// Stable ascending sort by price.
pub open spec fn sort_by_price(s: Seq<DealItem>) -> Seq<DealItem>
    decreases s.len(),
{
    if s.len() == 0 {
        Seq::empty()
    } else {
        insert_by_price(sort_by_price(s.drop_last()), s.last())
    }
}

pub open spec fn sorted_by_price(s: Seq<DealItem>) -> bool {
    forall|i: int, j: int| 0 <= i <= j < s.len() ==> s[i].price_cents <= s[j].price_cents
}

pub open spec fn all_positive(s: Seq<DealItem>) -> bool {
    forall|i: int| 0 <= i < s.len() ==> s[i].price_cents > 0
}

/// The items with one given price, in order.
pub open spec fn price_pred(p: u64) -> spec_fn(DealItem) -> bool {
    |d: DealItem| d.price_cents == p
}

pub open spec fn views_of(lists: Seq<Vec<DealItem>>) -> Seq<Seq<DealItem>> {
    lists.map_values(|l: Vec<DealItem>| l@)
}

proof fn lemma_insert_len(s: Seq<DealItem>, x: DealItem)
    ensures
        insert_by_price(s, x).len() == s.len() + 1,
    decreases s.len(),
{
    if s.len() > 0 && !(s.last().price_cents <= x.price_cents) {
        lemma_insert_len(s.drop_last(), x);
    }
}

/// Where the element lands: before the first kept element with a strictly
/// greater price.
proof fn lemma_insert_at(s: Seq<DealItem>, x: DealItem, p: int)
    requires
        0 <= p <= s.len(),
        forall|k: int| 0 <= k < p ==> s[k].price_cents <= x.price_cents,
        forall|k: int| p <= k < s.len() ==> s[k].price_cents > x.price_cents,
    ensures
        insert_by_price(s, x) == s.subrange(0, p) + seq![x] + s.subrange(p, s.len() as int),
    decreases s.len(),
{
    if s.len() == 0 {
        assert(insert_by_price(s, x) =~= s.subrange(0, p) + seq![x] + s.subrange(
            p,
            s.len() as int,
        ));
    } else if s.last().price_cents <= x.price_cents {
        assert(p == s.len());
        assert(s.push(x) =~= s.subrange(0, p) + seq![x] + s.subrange(p, s.len() as int));
    } else {
        let dl = s.drop_last();
        lemma_insert_at(dl, x, p);
        assert(insert_by_price(dl, x).push(s.last()) =~= s.subrange(0, p) + seq![x] + s.subrange(
            p,
            s.len() as int,
        ));
    }
}

proof fn lemma_insert_price_bound(s: Seq<DealItem>, x: DealItem, b: u64)
    requires
        forall|i: int| 0 <= i < s.len() ==> s[i].price_cents <= b,
        x.price_cents <= b,
    ensures
        forall|i: int|
            0 <= i < insert_by_price(s, x).len() ==> insert_by_price(s, x)[i].price_cents <= b,
    decreases s.len(),
{
    if s.len() > 0 && !(s.last().price_cents <= x.price_cents) {
        let dl = s.drop_last();
        assert(forall|i: int| 0 <= i < dl.len() ==> dl[i].price_cents <= b);
        lemma_insert_price_bound(dl, x, b);
        lemma_insert_len(dl, x);
        let r = insert_by_price(s, x);
        assert forall|i: int| 0 <= i < r.len() implies r[i].price_cents <= b by {
            if i < r.len() - 1 {
                assert(r[i] == insert_by_price(dl, x)[i]);
            } else {
                assert(r[i] == s.last());
            }
        }
    }
}

proof fn lemma_insert_sorted(s: Seq<DealItem>, x: DealItem)
    requires
        sorted_by_price(s),
    ensures
        sorted_by_price(insert_by_price(s, x)),
    decreases s.len(),
{
    if s.len() == 0 {
    } else if s.last().price_cents <= x.price_cents {
        assert(forall|i: int| 0 <= i < s.len() ==> s[i].price_cents <= s.last().price_cents);
    } else {
        let dl = s.drop_last();
        lemma_insert_sorted(dl, x);
        assert(forall|i: int| 0 <= i < dl.len() ==> dl[i].price_cents <= s.last().price_cents);
        lemma_insert_price_bound(dl, x, s.last().price_cents);
        lemma_insert_len(dl, x);
    }
}

/// The output of the sort is non-decreasing in price.
pub proof fn lemma_sort_by_price_sorted(s: Seq<DealItem>)
    ensures
        sorted_by_price(sort_by_price(s)),
        sort_by_price(s).len() == s.len(),
    decreases s.len(),
{
    if s.len() > 0 {
        lemma_sort_by_price_sorted(s.drop_last());
        lemma_insert_sorted(sort_by_price(s.drop_last()), s.last());
        lemma_insert_len(sort_by_price(s.drop_last()), s.last());
    }
}

proof fn lemma_filter_push(s: Seq<DealItem>, x: DealItem, pred: spec_fn(DealItem) -> bool)
    ensures
        s.push(x).filter(pred) == if pred(x) {
            s.filter(pred).push(x)
        } else {
            s.filter(pred)
        },
{
    reveal(Seq::filter);
    assert(s.push(x).drop_last() =~= s);
}

proof fn lemma_insert_filter(s: Seq<DealItem>, x: DealItem, p: u64)
    ensures
        insert_by_price(s, x).filter(price_pred(p)) == if x.price_cents == p {
            s.filter(price_pred(p)).push(x)
        } else {
            s.filter(price_pred(p))
        },
    decreases s.len(),
{
    let pred = price_pred(p);
    if s.len() == 0 {
        reveal(Seq::filter);
        assert(seq![x].drop_last() =~= Seq::<DealItem>::empty());
        assert(s =~= Seq::<DealItem>::empty());
    } else if s.last().price_cents <= x.price_cents {
        lemma_filter_push(s, x, pred);
    } else {
        let dl = s.drop_last();
        lemma_insert_filter(dl, x, p);
        lemma_filter_push(insert_by_price(dl, x), s.last(), pred);
        lemma_filter_push(dl, s.last(), pred);
        assert(dl.push(s.last()) =~= s);
    }
}

/// Stability: for every price, the items carrying it come out of the sort
/// exactly as they went in, in the same order.
pub proof fn lemma_sort_by_price_stable(s: Seq<DealItem>, p: u64)
    ensures
        sort_by_price(s).filter(price_pred(p)) == s.filter(price_pred(p)),
    decreases s.len(),
{
    if s.len() > 0 {
        let dl = s.drop_last();
        lemma_sort_by_price_stable(dl, p);
        lemma_insert_filter(sort_by_price(dl), s.last(), p);
        lemma_filter_push(dl, s.last(), price_pred(p));
        assert(dl.push(s.last()) =~= s);
    }
}

proof fn lemma_insert_positive(s: Seq<DealItem>, x: DealItem)
    requires
        all_positive(s),
        x.price_cents > 0,
    ensures
        all_positive(insert_by_price(s, x)),
    decreases s.len(),
{
    if s.len() > 0 && !(s.last().price_cents <= x.price_cents) {
        assert(all_positive(s.drop_last()));
        lemma_insert_positive(s.drop_last(), x);
        lemma_insert_len(s.drop_last(), x);
    }
}

proof fn lemma_sort_positive(s: Seq<DealItem>)
    requires
        all_positive(s),
    ensures
        all_positive(sort_by_price(s)),
    decreases s.len(),
{
    if s.len() > 0 {
        assert(all_positive(s.drop_last()));
        lemma_sort_positive(s.drop_last());
        lemma_insert_positive(sort_by_price(s.drop_last()), s.last());
    }
}

proof fn lemma_concat_positive(lists: Seq<Seq<DealItem>>)
    requires
        forall|i: int| 0 <= i < lists.len() ==> all_positive(#[trigger] lists[i]),
    ensures
        all_positive(concat_all(lists)),
    decreases lists.len(),
{
    if lists.len() > 0 {
        assert(forall|i: int|
            0 <= i < lists.drop_first().len() ==> all_positive(#[trigger] lists.drop_first()[i]));
        lemma_concat_positive(lists.drop_first());
        assert(all_positive(lists[0]));
    }
}

proof fn lemma_concat_skip_empty(lists: Seq<Seq<DealItem>>, i: int)
    requires
        0 <= i < lists.len(),
        lists[i].len() == 0,
    ensures
        concat_all(lists.remove(i)) == concat_all(lists),
    decreases lists.len(),
{
    if i == 0 {
        assert(lists.remove(0) =~= lists.drop_first());
        assert(lists[0] + concat_all(lists.drop_first()) =~= concat_all(lists.drop_first()));
    } else {
        lemma_concat_skip_empty(lists.drop_first(), i - 1);
        assert(lists.remove(i).drop_first() =~= lists.drop_first().remove(i - 1));
        assert(lists.remove(i)[0] == lists[0]);
    }
}

/// A storefront that contributed nothing leaves the aggregate exactly as if
/// it had not been fetched at all: the other vendors' items are neither
/// reduced nor reordered.
pub proof fn lemma_failed_vendor_isolated(lists: Seq<Seq<DealItem>>, i: int)
    requires
        0 <= i < lists.len(),
        lists[i].len() == 0,
    ensures
        sort_by_price(concat_all(lists)) == sort_by_price(concat_all(lists.remove(i))),
{
    lemma_concat_skip_empty(lists, i);
}

/// Sort the items ascending by price, keeping equal-priced items in their
/// current relative order.
pub fn sort_deals(v: &mut Vec<DealItem>)
    ensures
        final(v)@ == sort_by_price(old(v)@),
{
    let n = v.len();
    let mut i: usize = 0;
    while i < n
        invariant
            0 <= i <= n,
            v@.len() == n,
            old(v)@.len() == n,
            v@.subrange(0, i as int) == sort_by_price(old(v)@.subrange(0, i as int)),
            v@.subrange(i as int, n as int) == old(v)@.subrange(i as int, n as int),
        decreases n - i,
    {
        proof {
            lemma_sort_by_price_sorted(old(v)@.subrange(0, i as int));
        }
        let x_price = v[i].price_cents;
        let mut p: usize = i;
        while p > 0 && v[p - 1].price_cents > x_price
            invariant
                0 <= p <= i < n,
                v@.len() == n,
                x_price == v@[i as int].price_cents,
                forall|k: int| p <= k < i ==> v@[k].price_cents > x_price,
            decreases p,
        {
            p = p - 1;
        }
        proof {
            let prefix = v@.subrange(0, i as int);
            assert(sorted_by_price(prefix));
            assert forall|k: int| 0 <= k < p implies prefix[k].price_cents <= x_price by {
                assert(prefix[k].price_cents <= prefix[p - 1].price_cents);
            }
            assert forall|k: int| p <= k < i implies prefix[k].price_cents > x_price by {}
            lemma_insert_at(prefix, v@[i as int], p as int);
        }
        let ghost pre = v@;
        let x = v.remove(i);
        v.insert(p, x);
        proof {
            let oldpre = old(v)@.subrange(0, i as int);
            assert(old(v)@.subrange(0, i + 1).drop_last() =~= oldpre);
            assert(old(v)@.subrange(0, i + 1).last() == old(v)@[i as int]);
            assert(x == old(v)@[i as int]) by {
                assert(pre.subrange(i as int, n as int)[0] == pre[i as int]);
                assert(old(v)@.subrange(i as int, n as int)[0] == old(v)@[i as int]);
            }
            assert(sort_by_price(old(v)@.subrange(0, i + 1)) == insert_by_price(
                sort_by_price(oldpre),
                x,
            ));
            assert(v@.subrange(0, i + 1) =~= pre.subrange(0, p as int) + seq![x] + pre.subrange(
                p as int,
                i as int,
            ));
            assert(v@.subrange(0, i + 1) == sort_by_price(old(v)@.subrange(0, i + 1)));
            pre.remove_ensures(i as int);
            pre.remove(i as int).insert_ensures(p as int, x);
            assert forall|m: int| i + 1 <= m < n implies v@[m] == old(v)@[m] by {
                assert(pre.remove(i as int)[m - 1] == pre[m]);
                assert(v@[m] == pre.remove(i as int)[m - 1]);
                assert(pre.subrange(i as int, n as int)[m - i] == pre[m]);
                assert(old(v)@.subrange(i as int, n as int)[m - i] == old(v)@[m]);
            }
            assert(v@.subrange(i + 1, n as int) =~= old(v)@.subrange(i + 1, n as int));
        }
        i = i + 1;
    }
    proof {
        assert(v@.subrange(0, n as int) =~= v@);
        assert(old(v)@.subrange(0, n as int) =~= old(v)@);
    }
}

/// Merge the per-vendor item lists in registry order and sort the whole
/// ascending by price, stably. Positive prices in give positive prices out.
pub fn aggregate(lists: Vec<Vec<DealItem>>) -> (r: Vec<DealItem>)
    ensures
        r@ == sort_by_price(concat_all(views_of(lists@))),
        sorted_by_price(r@),
        (forall|i: int| 0 <= i < lists@.len() ==> all_positive(#[trigger] views_of(lists@)[i]))
            ==> all_positive(r@),
{
    let ghost glists = views_of(lists@);
    let mut all: Vec<DealItem> = Vec::new();
    let mut rest = lists;
    while rest.len() > 0
        invariant
            all@ + concat_all(views_of(rest@)) == concat_all(glists),
        decreases rest.len(),
    {
        let ghost prev = views_of(rest@);
        let mut first = rest.remove(0);
        all.append(&mut first);
        proof {
            assert(views_of(rest@) =~= prev.drop_first());
            assert(all@ + concat_all(views_of(rest@)) =~= concat_all(glists));
        }
    }
    proof {
        assert(concat_all(views_of(rest@)) =~= Seq::<DealItem>::empty());
        assert(all@ =~= concat_all(glists));
    }
    sort_deals(&mut all);
    proof {
        lemma_sort_by_price_sorted(concat_all(glists));
        if forall|i: int| 0 <= i < glists.len() ==> all_positive(#[trigger] glists[i]) {
            lemma_concat_positive(glists);
            lemma_sort_positive(concat_all(glists));
        }
    }
    all
}

} // verus!
