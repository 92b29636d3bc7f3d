//! What holds of the settings and links that travel through the graph.

use vstd::prelude::*;
use crate::graph::{expanded, gathered, links_recursive, surface, LinkNode};
use crate::link_type::{LinkPtr, Property};
use crate::unique::{
    dedup, lemma_merge_unique_concat, lemma_merge_unique_contains,
    lemma_merge_unique_no_duplicates, lemma_merge_unique_prefix, merge_unique,
};

verus! {

/// The settings met on a walk over `links`, in the order of the walk and
/// with every repetition: for each link in turn what is met on the walk
/// over its public links, then its own public settings.
pub open spec fn walked(
    nodes: Seq<LinkNode>,
    links: Seq<LinkPtr>,
    bound: int,
    what: Property,
) -> Seq<Seq<char>>
    decreases bound, links.len(),
{
    if links.len() == 0 {
        Seq::empty()
    } else {
        let head = walked(nodes, links.drop_last(), bound, what);
        let at = links.last().spec_index();
        if 0 <= at < bound && at < nodes.len() {
            head + walked(nodes, nodes[at].links_public(), at, what) + nodes[at].own_public(what)
        } else {
            head
        }
    }
}

/// Whether `to` can be reached from `from` along public links alone.
pub open spec fn reaches_publicly(nodes: Seq<LinkNode>, from: int, to: int) -> bool
    decreases from,
{
    from == to || exists|k: int|
        0 <= k < nodes[from].links_public().len() && 0 <= (
        #[trigger] nodes[from].links_public()[k]).spec_index() < from && reaches_publicly(
            nodes,
            nodes[from].links_public()[k].spec_index(),
            to,
        )
}

/// Merging a list is merging what is left of it when every item is kept
/// at its first occurrence only.
pub proof fn lemma_merge_unique_dedup<A>(acc: Seq<A>, items: Seq<A>)
    ensures
        merge_unique(acc, dedup(items)) == merge_unique(acc, items),
    decreases items.len(),
{
    if items.len() > 0 {
        let head = items.drop_last();
        let x = items.last();
        lemma_merge_unique_dedup(acc, head);
        lemma_merge_unique_contains(Seq::<A>::empty(), head);
        lemma_merge_unique_contains(acc, head);
        if dedup(head).contains(x) {
            assert(!Seq::<A>::empty().contains(x));
            assert(head.contains(x));
            assert(merge_unique(acc, head).contains(x));
        } else {
            assert(dedup(head).push(x).drop_last() =~= dedup(head));
        }
    }
}

/// What links hand on is what is met on the walk over them, every item
/// kept where the walk first met it.
pub proof fn lemma_gathered_is_first_seen(
    nodes: Seq<LinkNode>,
    links: Seq<LinkPtr>,
    bound: int,
    what: Property,
)
    ensures
        gathered(nodes, links, bound, what) == dedup(walked(nodes, links, bound, what)),
    decreases bound, links.len(),
{
    if links.len() > 0 {
        let head_links = links.drop_last();
        lemma_gathered_is_first_seen(nodes, head_links, bound, what);
        let at = links.last().spec_index();
        if 0 <= at < bound && at < nodes.len() {
            let w_head = walked(nodes, head_links, bound, what);
            let w_sub = walked(nodes, nodes[at].links_public(), at, what);
            let own = nodes[at].own_public(what);
            lemma_gathered_is_first_seen(nodes, nodes[at].links_public(), at, what);
            lemma_merge_unique_concat(Seq::<Seq<char>>::empty(), w_sub, own);
            lemma_merge_unique_dedup(dedup(w_head), w_sub + own);
            lemma_merge_unique_concat(Seq::<Seq<char>>::empty(), w_head, w_sub + own);
            assert(w_head + (w_sub + own) =~= w_head + w_sub + own);
        }
    }
}

/// The public surface of a library never holds an item twice, and holds
/// its items in the order in which the walk over its public links, ended
/// by the library's own settings, first meets them.
pub proof fn lemma_surface_is_first_seen(nodes: Seq<LinkNode>, at: int, what: Property)
    ensures
        surface(nodes, at, what).no_duplicates(),
        surface(nodes, at, what) == dedup(
            walked(nodes, nodes[at].links_public(), at, what) + nodes[at].own_public(what),
        ),
{
    let links = nodes[at].links_public();
    let own = nodes[at].own_public(what);
    lemma_gathered_is_first_seen(nodes, links, at, what);
    lemma_merge_unique_concat(Seq::<Seq<char>>::empty(), walked(nodes, links, at, what), own);
    lemma_merge_unique_no_duplicates(
        Seq::<Seq<char>>::empty(),
        walked(nodes, links, at, what) + own,
    );
}

/// Whatever links hand on is a public setting of a library that some
/// link reaches along public links alone.
pub proof fn lemma_gathered_origin(
    nodes: Seq<LinkNode>,
    links: Seq<LinkPtr>,
    bound: int,
    what: Property,
    x: Seq<char>,
)
    requires
        gathered(nodes, links, bound, what).contains(x),
    ensures
        exists|k: int, n: int|
            0 <= k < links.len() && 0 <= (#[trigger] links[k]).spec_index() < bound
                && links[k].spec_index() < nodes.len() && reaches_publicly(
                nodes,
                links[k].spec_index(),
                n,
            ) && 0 <= n < nodes.len() && (#[trigger] nodes[n].own_public(what)).contains(x),
    decreases bound, links.len(),
{
    if links.len() == 0 {
        let e = Seq::<Seq<char>>::empty();
        let k = choose|k: int| 0 <= k < e.len() && e[k] == x;
    } else {
        let head_links = links.drop_last();
        let head = gathered(nodes, head_links, bound, what);
        let at = links.last().spec_index();
        let in_range = 0 <= at < bound && at < nodes.len();
        if in_range {
            let sub = gathered(nodes, nodes[at].links_public(), at, what);
            let own = nodes[at].own_public(what);
            lemma_merge_unique_contains(head, merge_unique(sub, own));
            lemma_merge_unique_contains(sub, own);
        }
        if head.contains(x) {
            lemma_gathered_origin(nodes, head_links, bound, what, x);
            let (k, n) = choose|k: int, n: int|
                0 <= k < head_links.len() && 0 <= (#[trigger] head_links[k]).spec_index() < bound
                    && head_links[k].spec_index() < nodes.len() && reaches_publicly(
                    nodes,
                    head_links[k].spec_index(),
                    n,
                ) && 0 <= n < nodes.len() && (#[trigger] nodes[n].own_public(what)).contains(x);
            assert(links[k] == head_links[k]);
        } else {
            assert(in_range);
            let sub_links = nodes[at].links_public();
            let sub = gathered(nodes, sub_links, at, what);
            let own = nodes[at].own_public(what);
            let last = links.len() - 1;
            if own.contains(x) {
                assert(reaches_publicly(nodes, at, at));
                assert(links[last].spec_index() == at && nodes[at].own_public(what).contains(x));
            } else {
                assert(sub.contains(x));
                lemma_gathered_origin(nodes, sub_links, at, what, x);
                let (k, n) = choose|k: int, n: int|
                    0 <= k < sub_links.len() && 0 <= (#[trigger] sub_links[k]).spec_index() < at
                        && sub_links[k].spec_index() < nodes.len() && reaches_publicly(
                        nodes,
                        sub_links[k].spec_index(),
                        n,
                    ) && 0 <= n < nodes.len() && (#[trigger] nodes[n].own_public(what)).contains(
                        x,
                    );
                assert(reaches_publicly(nodes, at, n));
                assert(links[last].spec_index() == at && nodes[n].own_public(what).contains(x));
            }
        }
    }
}

/// Private links hand nothing on: whatever stands in the public surface
/// of a library is a public setting of the library itself or of a library
/// that it reaches along public links alone. What a library links
/// privately, and what only such a link reaches, stays out of the surface
/// of the library and so out of the surface of all that link it.
pub proof fn lemma_surface_origin(nodes: Seq<LinkNode>, at: int, what: Property, x: Seq<char>)
    requires
        0 <= at < nodes.len(),
        surface(nodes, at, what).contains(x),
    ensures
        exists|n: int|
            reaches_publicly(nodes, at, n) && 0 <= n < nodes.len() && (
            #[trigger] nodes[n].own_public(what)).contains(x),
{
    let links = nodes[at].links_public();
    let sub = gathered(nodes, links, at, what);
    let own = nodes[at].own_public(what);
    lemma_merge_unique_contains(sub, own);
    if own.contains(x) {
        assert(reaches_publicly(nodes, at, at));
        assert(nodes[at].own_public(what).contains(x));
    } else {
        lemma_gathered_origin(nodes, links, at, what, x);
        let (k, n) = choose|k: int, n: int|
            0 <= k < links.len() && 0 <= (#[trigger] links[k]).spec_index() < at
                && links[k].spec_index() < nodes.len() && reaches_publicly(
                nodes,
                links[k].spec_index(),
                n,
            ) && 0 <= n < nodes.len() && (#[trigger] nodes[n].own_public(what)).contains(x);
        assert(reaches_publicly(nodes, at, n));
        assert(nodes[n].own_public(what).contains(x));
    }
}

/// Expanding links keeps what was accumulated as a prefix.
pub proof fn lemma_expanded_prefix(
    nodes: Seq<LinkNode>,
    links: Seq<LinkPtr>,
    bound: int,
    acc: Seq<LinkPtr>,
)
    ensures
        acc.is_prefix_of(expanded(nodes, links, bound, acc)),
    decreases bound, links.len(),
{
    if links.len() > 0 {
        lemma_expanded_prefix(nodes, links.drop_last(), bound, acc);
        let head = expanded(nodes, links.drop_last(), bound, acc);
        let at = links.last().spec_index();
        if 0 <= at < bound && at < nodes.len() {
            lemma_merge_unique_prefix(
                head,
                expanded(nodes, nodes[at].direct_links(), at, dedup(nodes[at].direct_links())),
            );
        }
    }
}

/// Every link of a library, private or public, has to be linked along
/// with the library.
pub proof fn lemma_direct_links_are_linked(nodes: Seq<LinkNode>, at: int, link: LinkPtr)
    requires
        nodes[at].links_private().contains(link) || nodes[at].links_public().contains(link),
    ensures
        links_recursive(nodes, at).contains(link),
{
    let direct = nodes[at].direct_links();
    let private = nodes[at].links_private();
    let public = nodes[at].links_public();
    if private.contains(link) {
        let k = choose|k: int| 0 <= k < private.len() && private[k] == link;
        assert(direct[k] == link);
    } else {
        let k = choose|k: int| 0 <= k < public.len() && public[k] == link;
        assert(direct[private.len() + k] == link);
    }
    lemma_merge_unique_contains(Seq::<LinkPtr>::empty(), direct);
    assert(dedup(direct).contains(link));
    lemma_expanded_prefix(nodes, direct, at, dedup(direct));
    let all = links_recursive(nodes, at);
    let j = choose|j: int| 0 <= j < dedup(direct).len() && dedup(direct)[j] == link;
    assert(all[j] == link);
}


/// A library that a consumer links privately has to be linked along with
/// the consumer, yet nothing of it shows in the surface of a second
/// consumer that depends on the first alone: a setting that neither the
/// two consumers nor anything that the first reaches along public links
/// declares is not handed on, whatever the privately linked library
/// declares.
pub proof fn lemma_private_link_stops(
    nodes: Seq<LinkNode>,
    first: int,
    second: int,
    library: LinkPtr,
    what: Property,
    x: Seq<char>,
)
    requires
        0 <= first < second < nodes.len(),
        nodes[first].links_private().contains(library),
        nodes[second].links_public().len() == 1,
        nodes[second].links_public()[0].spec_index() == first,
        !nodes[second].own_public(what).contains(x),
        forall|n: int|
            0 <= n < nodes.len() && reaches_publicly(nodes, first, n) ==> !(
            #[trigger] nodes[n].own_public(what)).contains(x),
    ensures
        links_recursive(nodes, first).contains(library),
        !surface(nodes, second, what).contains(x),
{
    lemma_direct_links_are_linked(nodes, first, library);
    if surface(nodes, second, what).contains(x) {
        lemma_surface_origin(nodes, second, what, x);
        let n = choose|n: int|
            reaches_publicly(nodes, second, n) && 0 <= n < nodes.len() && (
            #[trigger] nodes[n].own_public(what)).contains(x);
        if n != second {
            let k = choose|k: int|
                0 <= k < nodes[second].links_public().len() && 0 <= (
                #[trigger] nodes[second].links_public()[k]).spec_index() < second
                    && reaches_publicly(nodes, nodes[second].links_public()[k].spec_index(), n);
            assert(k == 0);
            assert(reaches_publicly(nodes, first, n));
        }
        assert(nodes[n].own_public(what).contains(x));
    }
}

/// Links that all lie below a bound are gathered alike under any greater
/// bound.
pub proof fn lemma_gathered_bound(
    nodes: Seq<LinkNode>,
    links: Seq<LinkPtr>,
    low: int,
    high: int,
    what: Property,
)
    requires
        low <= high,
        forall|i: int| 0 <= i < links.len() ==> (#[trigger] links[i]).spec_index() < low,
    ensures
        gathered(nodes, links, low, what) == gathered(nodes, links, high, what),
    decreases links.len(),
{
    if links.len() > 0 {
        assert forall|i: int| 0 <= i < links.drop_last().len() implies (
        #[trigger] links.drop_last()[i]).spec_index() < low by {
            assert(links.drop_last()[i] == links[i]);
        }
        lemma_gathered_bound(nodes, links.drop_last(), low, high, what);
        assert(links[links.len() - 1].spec_index() < low);
    }
}

/// In a well-formed graph a library hands on what a target with the
/// same public links and the same own settings sees.
pub proof fn lemma_surface_is_collected(nodes: Seq<LinkNode>, at: int, what: Property)
    requires
        crate::graph::well_formed(nodes),
        0 <= at < nodes.len(),
    ensures
        surface(nodes, at, what) == crate::graph::collected(
            nodes,
            nodes[at].links_public(),
            nodes[at].own_public(what),
            what,
        ),
{
    let public = nodes[at].links_public();
    let direct = nodes[at].direct_links();
    let private = nodes[at].links_private();
    assert(crate::graph::links_below(nodes, direct, at));
    assert forall|i: int| 0 <= i < public.len() implies (#[trigger] public[i]).spec_index()
        < at by {
        assert(direct[private.len() + i] == public[i]);
    }
    lemma_gathered_bound(nodes, public, at, nodes.len() as int, what);
}

} // verus!
