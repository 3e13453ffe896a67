//! The arithmetic of pages, and the joining of the pages that were asked
//! for at once.

use crate::app_error::{AppError, AppErrorView};
use crate::gitlab_api::{page_view, pages_view, GitLabVariable, Page, PageView, VariableView};
use vstd::prelude::*;

verus! {

/// The least number of pages of `page_size` variables that hold `remaining`
/// variables.
pub open spec fn pages_needed(remaining: nat, page_size: nat) -> nat
    recommends
        page_size > 0,
{
    if remaining == 0 {
        0
    } else {
        ((remaining - 1) / (page_size as int) + 1) as nat
    }
}

/// Calculates how many pages of `per_page` variables hold `remaining`
/// variables.
pub fn additional_pages(remaining: usize, per_page: usize) -> (pages: usize)
    requires
        per_page > 0,
    ensures
        pages == pages_needed(remaining as nat, per_page as nat),
        pages <= remaining,
{
    if remaining == 0 {
        0
    } else {
        let full: usize = (remaining - 1) / per_page;
        assert(full <= remaining - 1) by (nonlinear_arith)
            requires
                full == (remaining - 1) / (per_page as int),
                per_page > 0,
                remaining >= 1,
        ;
        full + 1
    }
}

/// The number of requests that follow a first one which brought
/// `per_request` of `total` variables: one for each page that the rest
/// needs, and one even where nothing is left.
pub open spec fn requests_after_first(total: nat, per_request: nat) -> nat
    recommends
        per_request > 0,
{
    if total <= 2 * per_request {
        1
    } else {
        pages_needed((total - per_request) as nat, per_request)
    }
}

/// Calculate number of needed requests to get remaining variables, after a
/// first request that brought `per_request` of `total` variables. Number of
/// requests is 1 if number of remaining values are less or equal to maximum
/// number of records per request.
pub fn num_requests(total: usize, per_request: usize) -> (requests: usize)
    requires
        0 < per_request,
    ensures
        requests == requests_after_first(total as nat, per_request as nat),
{
    if total <= per_request || total - per_request <= per_request {
        1
    } else {
        additional_pages(total - per_request, per_request)
    }
}

/// [`pages_needed`] is the quotient of the variables by the size of a page,
/// rounded up: that many pages hold the variables, and one page less does
/// not. In particular a rest that fills whole pages asks for exactly those
/// pages, and any rest of at most one page asks for exactly one.
pub proof fn lemma_pages_needed_rounds_up(remaining: nat, page_size: nat)
    requires
        page_size > 0,
    ensures
        pages_needed(remaining, page_size) * page_size >= remaining,
        remaining > 0 ==> (pages_needed(remaining, page_size) - 1) * page_size < remaining,
        remaining > 0 ==> pages_needed(remaining, page_size) >= 1,
        0 < remaining <= page_size ==> pages_needed(remaining, page_size) == 1,
        pages_needed(remaining, page_size) <= remaining,
{
    if remaining > 0 {
        let r = (remaining - 1) as int;
        let p = page_size as int;
        let q = r / p;
        assert(q * p <= r && r < (q + 1) * p && q >= 0 && q <= r) by (nonlinear_arith)
            requires
                q == r / p,
                p > 0,
                r >= 0,
        ;
        assert((q + 1) * p == q * p + p) by (nonlinear_arith);
        assert(remaining <= page_size ==> q == 0) by (nonlinear_arith)
            requires
                q == r / p,
                p > 0,
                r >= 0,
                r == remaining - 1,
                p == page_size,
        ;
    }
}

/// The error of the first page that failed, if one did.
pub open spec fn first_failure(pages: Seq<PageView>) -> Option<AppErrorView>
    decreases pages.len(),
{
    if pages.len() == 0 {
        None
    } else {
        match first_failure(pages.drop_last()) {
            Some(e) => Some(e),
            None => match pages.last() {
                Err(e) => Some(e),
                Ok(_) => None,
            },
        }
    }
}

/// The variables of the pages that were sent, page after page.
pub open spec fn items_of(pages: Seq<PageView>) -> Seq<VariableView>
    decreases pages.len(),
{
    if pages.len() == 0 {
        Seq::empty()
    } else {
        match pages.last() {
            Ok((items, _)) => items_of(pages.drop_last()) + items,
            Err(_) => items_of(pages.drop_last()),
        }
    }
}

/// What a set of pages amounts to once every request for them has ended:
/// the error of the first page that failed, or, where none failed, the
/// variables of all of them.
pub open spec fn joined_pages(pages: Seq<PageView>) -> Result<Seq<VariableView>, AppErrorView> {
    match first_failure(pages) {
        Some(e) => Err(e),
        None => Ok(items_of(pages)),
    }
}

/// The first failure among some pages is the first failure among those
/// pages and any that come after them.
pub proof fn lemma_first_failure_stays(pages: Seq<PageView>, k: int)
    requires
        0 <= k <= pages.len(),
        first_failure(pages.take(k)) is Some,
    ensures
        first_failure(pages) == first_failure(pages.take(k)),
    decreases pages.len(),
{
    if k == pages.len() {
        assert(pages.take(k) =~= pages);
    } else {
        assert(pages.drop_last().take(k) =~= pages.take(k));
        lemma_first_failure_stays(pages.drop_last(), k);
    }
}

/// Adds copies of `items` to the end of `all`.
pub(crate) fn append_variables(all: &mut Vec<GitLabVariable>, items: &Vec<GitLabVariable>)
    ensures
        final(all).deep_view() == old(all).deep_view() + items.deep_view(),
{
    let mut j: usize = 0;
    proof {
        assert(items.deep_view().take(0) =~= Seq::empty());
        assert(all.deep_view() =~= old(all).deep_view() + items.deep_view().take(0));
    }
    while j < items.len()
        invariant
            j <= items.len(),
            all.deep_view() == old(all).deep_view() + items.deep_view().take(j as int),
        decreases items.len() - j,
    {
        let ghost before = all.deep_view();
        all.push(items[j].clone());
        proof {
            assert(all.deep_view() =~= before.push(items[j as int]@));
            assert(all.deep_view() =~= old(all).deep_view() + items.deep_view().take(j + 1));
        }
        j = j + 1;
    }
    proof {
        assert(items.deep_view().take(j as int) =~= items.deep_view());
    }
}

/// The view of what [`join_pages`] returns.
pub open spec fn joined_view(joined: Result<Vec<GitLabVariable>, AppError>) -> Result<
    Seq<VariableView>,
    AppErrorView,
> {
    match joined {
        Ok(variables) => Ok(variables.deep_view()),
        Err(e) => Err(e@),
    }
}

/// Joins the pages of a fan-out once every request has ended. One page that
/// failed fails them all: the error is that of the first page that failed.
/// Else the variables of all pages are returned, page after page.
pub fn join_pages(pages: &Vec<Page>) -> (joined: Result<Vec<GitLabVariable>, AppError>)
    ensures
        joined_view(joined) == joined_pages(pages_view(pages@)),
{
    let ghost views = pages_view(pages@);
    let mut all: Vec<GitLabVariable> = Vec::new();
    let mut i: usize = 0;
    proof {
        assert(views.take(0) =~= Seq::empty());
        assert(all.deep_view() =~= Seq::empty());
    }
    while i < pages.len()
        invariant
            i <= pages.len(),
            views == pages_view(pages@),
            first_failure(views.take(i as int)) is None,
            all.deep_view() == items_of(views.take(i as int)),
        decreases pages.len() - i,
    {
        proof {
            assert(views.take(i + 1).drop_last() =~= views.take(i as int));
            assert(views.take(i + 1).last() == page_view(pages[i as int]));
        }
        match &pages[i] {
            Ok((items, _)) => {
                append_variables(&mut all, items);
            },
            Err(e) => {
                proof {
                    lemma_first_failure_stays(views, i + 1);
                }
                return Err(e.clone());
            },
        }
        i = i + 1;
    }
    proof {
        assert(views.take(i as int) =~= views);
    }
    Ok(all)
}

/// No page failed exactly when every page was sent.
pub proof fn lemma_no_failure_means_every_page(pages: Seq<PageView>)
    ensures
        first_failure(pages) is None <==> forall|i: int|
            0 <= i < pages.len() ==> (#[trigger] pages[i]) is Ok,
    decreases pages.len(),
{
    if pages.len() > 0 {
        let rest = pages.drop_last();
        lemma_no_failure_means_every_page(rest);
        if first_failure(pages) is None {
            assert forall|i: int| 0 <= i < pages.len() implies (#[trigger] pages[i]) is Ok by {
                if i < rest.len() {
                    assert(rest[i] == pages[i]);
                }
            }
        } else {
            if first_failure(rest) is Some {
                let i = choose|i: int| 0 <= i < rest.len() && !((#[trigger] rest[i]) is Ok);
                assert(pages[i] == rest[i]);
            } else {
                assert(pages[pages.len() - 1] == pages.last());
            }
        }
    }
}

/// The variables of some pages and of the pages after them are the
/// variables of the former, then those of the latter.
pub proof fn lemma_items_of_concat(a: Seq<PageView>, b: Seq<PageView>)
    ensures
        items_of(a + b) == items_of(a) + items_of(b),
    decreases b.len(),
{
    if b.len() == 0 {
        assert(a + b =~= a);
        assert(items_of(a) + items_of(b) =~= items_of(a));
    } else {
        assert((a + b).drop_last() =~= a + b.drop_last());
        assert((a + b).last() == b.last());
        lemma_items_of_concat(a, b.drop_last());
        assert(items_of(a + b) =~= items_of(a) + items_of(b));
    }
}

/// The order in which pages come in does not matter to what they hold: the
/// same pages in another order hold the same variables, each as often, and
/// one of them failed in the one order exactly if one failed in the other.
pub proof fn lemma_order_of_pages_is_free(a: Seq<PageView>, b: Seq<PageView>)
    requires
        a.to_multiset() == b.to_multiset(),
    ensures
        a.len() == b.len(),
        items_of(a).to_multiset() == items_of(b).to_multiset(),
        first_failure(a) is None <==> first_failure(b) is None,
    decreases a.len(),
{
    broadcast use vstd::seq_lib::group_to_multiset_ensures;

    a.to_multiset_ensures();
    b.to_multiset_ensures();
    lemma_no_failure_means_every_page(a);
    lemma_no_failure_means_every_page(b);
    assert(first_failure(a) is None <==> first_failure(b) is None) by {
        if first_failure(a) is None && first_failure(b) is Some {
            let i = choose|i: int| 0 <= i < b.len() && !((#[trigger] b[i]) is Ok);
            assert(b.contains(b[i]));
            vstd::seq_lib::to_multiset_contains(b, b[i]);
            vstd::seq_lib::to_multiset_contains(a, b[i]);
            assert(a.contains(b[i]));
        }
        if first_failure(b) is None && first_failure(a) is Some {
            let i = choose|i: int| 0 <= i < a.len() && !((#[trigger] a[i]) is Ok);
            assert(a.contains(a[i]));
            vstd::seq_lib::to_multiset_contains(a, a[i]);
            vstd::seq_lib::to_multiset_contains(b, a[i]);
            assert(b.contains(a[i]));
        }
    }
    if a.len() > 0 {
        let last = a.last();
        let rest = a.drop_last();
        assert(a[a.len() - 1] == last);
        assert(a.contains(last));
        vstd::seq_lib::to_multiset_contains(a, last);
        vstd::seq_lib::to_multiset_contains(b, last);
        assert(b.contains(last));
        let j = choose|j: int| 0 <= j < b.len() && b[j] == last;
        let others = b.remove(j);
        assert(a.remove(a.len() - 1) =~= rest);
        assert(rest.to_multiset() =~= others.to_multiset());
        lemma_order_of_pages_is_free(rest, others);
        let before = b.subrange(0, j);
        let after = b.subrange(j + 1, b.len() as int);
        assert(b =~= before + seq![last] + after);
        assert(others =~= before + after);
        lemma_items_of_concat(before, seq![last]);
        lemma_items_of_concat(before + seq![last], after);
        lemma_items_of_concat(before, after);
        lemma_items_of_concat(rest, seq![last]);
        assert(a =~= rest + seq![last]);
        let held = items_of(seq![last]);
        vstd::seq_lib::lemma_multiset_commutative(items_of(rest), held);
        vstd::seq_lib::lemma_multiset_commutative(items_of(before), items_of(after));
        vstd::seq_lib::lemma_multiset_commutative(items_of(before), held);
        vstd::seq_lib::lemma_multiset_commutative(items_of(before) + held, items_of(after));
        assert(items_of(a).to_multiset() =~= items_of(b).to_multiset());
    } else {
        assert(b.len() == 0);
        assert(a =~= b);
    }
}

/// The variables that a source of `all` variables sends as its page `page`,
/// pages counted from 1 and holding `page_size` variables each: the
/// variables in their order, cut into pages, the last page as short as it
/// comes.
pub open spec fn source_page(all: Seq<VariableView>, page: nat, page_size: nat) -> Seq<
    VariableView,
>
    recommends
        page >= 1,
{
    let from: int = if (page - 1) * page_size <= all.len() {
        (page - 1) * page_size
    } else {
        all.len() as int
    };
    let to: int = if page * page_size <= all.len() {
        (page * page_size) as int
    } else {
        all.len() as int
    };
    all.subrange(from, to)
}

/// The answer of such a source to the request for its page `page`: the
/// variables of the page, and the number of variables that it has in all.
pub open spec fn source_answer(all: Seq<VariableView>, page: nat, page_size: nat) -> PageView {
    Ok((source_page(all, page, page_size), all.len() as usize))
}

/// The answers of such a source to the requests for `count` pages from the
/// second on, in the order of the pages.
pub open spec fn pages_in_order(all: Seq<VariableView>, page_size: nat, count: nat) -> Seq<
    PageView,
> {
    Seq::new(count, |i: int| source_answer(all, (i + 2) as nat, page_size))
}

/// The first page of a source and the pages that follow it, in their order,
/// hold the variables of the source from the first one on, as far as the
/// pages reach, in the order of the source.
pub proof fn lemma_pages_in_order_hold_a_prefix(
    all: Seq<VariableView>,
    page_size: nat,
    count: nat,
)
    requires
        page_size > 0,
    ensures
        first_failure(pages_in_order(all, page_size, count)) is None,
        source_page(all, 1, page_size) + items_of(pages_in_order(all, page_size, count))
            == source_page_prefix(all, page_size, count + 1),
    decreases count,
{
    let pages = pages_in_order(all, page_size, count);
    lemma_no_failure_means_every_page(pages);
    if count == 0 {
        assert(source_page(all, 1, page_size) + items_of(pages) =~= source_page_prefix(
            all,
            page_size,
            1,
        ));
    } else {
        let rest = pages_in_order(all, page_size, (count - 1) as nat);
        lemma_pages_in_order_hold_a_prefix(all, page_size, (count - 1) as nat);
        assert(pages.drop_last() =~= rest);
        assert(pages.last() == source_answer(all, count + 1, page_size));
        assert(count * page_size <= (count + 1) * page_size) by (nonlinear_arith)
            requires
                page_size > 0,
        ;
        assert(source_page_prefix(all, page_size, count) + source_page(
            all,
            count + 1,
            page_size,
        ) =~= source_page_prefix(all, page_size, count + 1));
    }
}

/// The variables on the first `pages` pages of a source.
pub open spec fn source_page_prefix(all: Seq<VariableView>, page_size: nat, pages: nat) -> Seq<
    VariableView,
> {
    if pages * page_size <= all.len() {
        all.take((pages * page_size) as int)
    } else {
        all
    }
}

} // verus!
