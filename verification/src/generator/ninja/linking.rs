//! What holds of the link line of a program.

use vstd::prelude::*;
use super::program::{
    link_outputs, missing_output_message, missing_transitive_output_message, transitive_outputs,
};
use crate::graph::{links_recursive, LinkNode};
use crate::link_type::LinkPtr;
use crate::propagation::lemma_direct_links_are_linked;
use crate::target::Target;
use crate::unique::{dedup, lemma_merge_unique_contains, lemma_merge_unique_no_duplicates};

verus! {

/// Whether `x` stands in `s` exactly once.
pub open spec fn occurs_once<A>(s: Seq<A>, x: A) -> bool {
    exists|i: int|
        0 <= i < s.len() && #[trigger] s[i] == x && forall|j: int|
            0 <= j < s.len() && #[trigger] s[j] == x ==> j == i
}

/// What stands in a list without repetition stands there exactly once.
pub proof fn lemma_once_in_unique<A>(s: Seq<A>, x: A)
    requires
        s.no_duplicates(),
        s.contains(x),
    ensures
        occurs_once(s, x),
{
    let i = choose|i: int| 0 <= i < s.len() && s[i] == x;
    assert(s[i] == x);
    assert forall|j: int| 0 <= j < s.len() && #[trigger] s[j] == x implies j == i by {}
}

/// Where the outputs of a list of libraries could be gathered, the
/// outputs of each of them were gathered.
pub proof fn lemma_transitive_outputs_hold(
    nodes: Seq<LinkNode>,
    links: Seq<LinkPtr>,
    outputs: Map<usize, Seq<Seq<char>>>,
    link: LinkPtr,
    output: Seq<char>,
)
    requires
        transitive_outputs(nodes, links, outputs) is Ok,
        links.contains(link),
        outputs[link.spec_key()].contains(output),
    ensures
        transitive_outputs(nodes, links, outputs)->Ok_0.contains(output),
    decreases links.len(),
{
    if links.len() > 0 {
        let head = transitive_outputs(nodes, links.drop_last(), outputs)->Ok_0;
        let all = transitive_outputs(nodes, links, outputs)->Ok_0;
        let own = outputs[links.last().spec_key()];
        assert(all == head + own);
        let k = choose|k: int| 0 <= k < links.len() && links[k] == link;
        if k < links.len() - 1 {
            assert(links.drop_last()[k] == link);
            lemma_transitive_outputs_hold(nodes, links.drop_last(), outputs, link, output);
            let j = choose|j: int| 0 <= j < head.len() && head[j] == output;
            assert(all[j] == output);
        } else {
            let j = choose|j: int| 0 <= j < own.len() && own[j] == output;
            assert(all[head.len() + j] == output);
        }
    }
}

/// Where the link line of a program could be put together, it holds
/// the outputs of every link of the program and of every library that
/// has to be linked along with a link.
pub proof fn lemma_link_outputs_hold(
    nodes: Seq<LinkNode>,
    links: Seq<LinkPtr>,
    outputs: Map<usize, Seq<Seq<char>>>,
    k: int,
    link: LinkPtr,
    output: Seq<char>,
)
    requires
        link_outputs(nodes, links, outputs) is Ok,
        0 <= k < links.len(),
        link == links[k] || links_recursive(nodes, links[k].spec_index()).contains(link),
        outputs[link.spec_key()].contains(output),
    ensures
        link_outputs(nodes, links, outputs)->Ok_0.contains(output),
    decreases links.len(),
{
    let head = link_outputs(nodes, links.drop_last(), outputs)->Ok_0;
    let all = link_outputs(nodes, links, outputs)->Ok_0;
    let last = links.last();
    let own = outputs[last.spec_key()];
    let more = transitive_outputs(
        nodes,
        links_recursive(nodes, last.spec_index()),
        outputs,
    )->Ok_0;
    assert(all == head + own + more);
    if k < links.len() - 1 {
        assert(links.drop_last()[k] == links[k]);
        lemma_link_outputs_hold(nodes, links.drop_last(), outputs, k, link, output);
        let j = choose|j: int| 0 <= j < head.len() && head[j] == output;
        assert(all[j] == output);
    } else if link == links[k] {
        let j = choose|j: int| 0 <= j < own.len() && own[j] == output;
        assert(all[head.len() + j] == output);
    } else {
        lemma_transitive_outputs_hold(
            nodes,
            links_recursive(nodes, last.spec_index()),
            outputs,
            link,
            output,
        );
        let j = choose|j: int| 0 <= j < more.len() && more[j] == output;
        assert(all[head.len() + own.len() + j] == output);
    }
}

/// However many paths lead from a program to a library, every output of
/// the library is handed to the linker exactly once: the inputs of the
/// link edge are the object files of the program followed by what its
/// links bring, every file kept where it was first seen.
pub proof fn lemma_linked_exactly_once(
    nodes: Seq<LinkNode>,
    objects: Seq<Seq<char>>,
    links: Seq<LinkPtr>,
    outputs: Map<usize, Seq<Seq<char>>>,
    k: int,
    link: LinkPtr,
    output: Seq<char>,
)
    requires
        link_outputs(nodes, links, outputs) is Ok,
        0 <= k < links.len(),
        link == links[k] || links_recursive(nodes, links[k].spec_index()).contains(link),
        outputs[link.spec_key()].contains(output),
    ensures
        occurs_once(dedup(objects + link_outputs(nodes, links, outputs)->Ok_0), output),
{
    let linked = link_outputs(nodes, links, outputs)->Ok_0;
    lemma_link_outputs_hold(nodes, links, outputs, k, link, output);
    let j = choose|j: int| 0 <= j < linked.len() && linked[j] == output;
    assert((objects + linked)[objects.len() + j] == output);
    lemma_merge_unique_contains(Seq::<Seq<char>>::empty(), objects + linked);
    lemma_merge_unique_no_duplicates(Seq::<Seq<char>>::empty(), objects + linked);
    lemma_once_in_unique(dedup(objects + linked), output);
}

/// The diamond: a program links `b` and `c`, and both link `d`. Every
/// output of `d` is handed to the linker of the program exactly once.
pub proof fn lemma_diamond_linked_once(
    nodes: Seq<LinkNode>,
    objects: Seq<Seq<char>>,
    b: LinkPtr,
    c: LinkPtr,
    d: LinkPtr,
    outputs: Map<usize, Seq<Seq<char>>>,
    output: Seq<char>,
)
    requires
        link_outputs(nodes, seq![b, c], outputs) is Ok,
        nodes[b.spec_index()].direct_links().contains(d),
        nodes[c.spec_index()].direct_links().contains(d),
        outputs[d.spec_key()].contains(output),
    ensures
        occurs_once(dedup(objects + link_outputs(nodes, seq![b, c], outputs)->Ok_0), output),
{
    let at = b.spec_index();
    let direct = nodes[at].direct_links();
    let private = nodes[at].links_private();
    let public = nodes[at].links_public();
    let i = choose|i: int| 0 <= i < direct.len() && direct[i] == d;
    if i < private.len() {
        assert(private[i] == d);
    } else {
        assert(public[i - private.len()] == d);
    }
    lemma_direct_links_are_linked(nodes, at, d);
    lemma_linked_exactly_once(nodes, objects, seq![b, c], outputs, 0, d, output);
}

/// Whether the message `e` names a library for which no outputs were
/// noted.
pub open spec fn names_missing(
    nodes: Seq<LinkNode>,
    outputs: Map<usize, Seq<Seq<char>>>,
    e: Seq<char>,
) -> bool {
    exists|link: LinkPtr|
        !outputs.contains_key(#[trigger] link.spec_key()) && (e == missing_output_message(
            nodes[link.spec_index()].spec_name(),
        ) || e == missing_transitive_output_message(nodes[link.spec_index()].spec_name()))
}

/// Gathering the outputs of libraries fails exactly when one of them has
/// no outputs noted, and the failure names such a library.
pub proof fn lemma_transitive_miss(
    nodes: Seq<LinkNode>,
    links: Seq<LinkPtr>,
    outputs: Map<usize, Seq<Seq<char>>>,
)
    ensures
        transitive_outputs(nodes, links, outputs) is Err <==> exists|k: int|
            0 <= k < links.len() && !outputs.contains_key((#[trigger] links[k]).spec_key()),
        transitive_outputs(nodes, links, outputs) matches Err(e) ==> names_missing(
            nodes,
            outputs,
            e,
        ),
    decreases links.len(),
{
    if links.len() > 0 {
        let head = links.drop_last();
        lemma_transitive_miss(nodes, head, outputs);
        let last = links.last();
        if transitive_outputs(nodes, head, outputs) is Err {
            let k = choose|k: int|
                0 <= k < head.len() && !outputs.contains_key((#[trigger] head[k]).spec_key());
            assert(links[k] == head[k]);
        } else if !outputs.contains_key(last.spec_key()) {
            assert(links[links.len() - 1] == last);
            assert(!outputs.contains_key(last.spec_key()));
        } else {
            assert forall|k: int| 0 <= k < links.len() implies outputs.contains_key(
                (#[trigger] links[k]).spec_key(),
            ) by {
                if k < head.len() {
                    assert(head[k] == links[k]);
                }
            }
        }
    }
}

/// A link of a program for which no outputs were noted makes the link
/// line fail, and every failure of the link line names a library for
/// which no outputs were noted: a library that was not dealt with before
/// the program is reported, never passed over.
pub proof fn lemma_link_miss(
    nodes: Seq<LinkNode>,
    links: Seq<LinkPtr>,
    outputs: Map<usize, Seq<Seq<char>>>,
)
    ensures
        (exists|k: int|
            0 <= k < links.len() && !outputs.contains_key((#[trigger] links[k]).spec_key()))
            ==> link_outputs(nodes, links, outputs) is Err,
        link_outputs(nodes, links, outputs) matches Err(e) ==> names_missing(nodes, outputs, e),
    decreases links.len(),
{
    if links.len() > 0 {
        let head = links.drop_last();
        lemma_link_miss(nodes, head, outputs);
        let last = links.last();
        lemma_transitive_miss(nodes, links_recursive(nodes, last.spec_index()), outputs);
        if exists|k: int|
            0 <= k < links.len() && !outputs.contains_key((#[trigger] links[k]).spec_key()) {
            let k = choose|k: int|
                0 <= k < links.len() && !outputs.contains_key((#[trigger] links[k]).spec_key());
            if k < head.len() {
                assert(head[k] == links[k]);
            }
        }
        if link_outputs(nodes, head, outputs) is Ok && !outputs.contains_key(last.spec_key()) {
            assert(!outputs.contains_key(last.spec_key()));
        }
    }
}

/// Whether outputs were noted for `link` and for everything that has to
/// be linked along with it.
pub open spec fn resolves(
    nodes: Seq<LinkNode>,
    link: LinkPtr,
    outputs: Map<usize, Seq<Seq<char>>>,
) -> bool {
    &&& outputs.contains_key(link.spec_key())
    &&& forall|j: int|
        0 <= j < links_recursive(nodes, link.spec_index()).len() ==> outputs.contains_key(
            (#[trigger] links_recursive(nodes, link.spec_index())[j]).spec_key(),
        )
}

/// The link line of a program is made exactly when outputs were noted
/// for every link of the program and for everything that has to be
/// linked along with it.
pub proof fn lemma_links_resolve(
    nodes: Seq<LinkNode>,
    links: Seq<LinkPtr>,
    outputs: Map<usize, Seq<Seq<char>>>,
)
    ensures
        link_outputs(nodes, links, outputs) is Ok <==> forall|k: int|
            0 <= k < links.len() ==> resolves(nodes, #[trigger] links[k], outputs),
    decreases links.len(),
{
    if links.len() > 0 {
        let head = links.drop_last();
        let last = links.last();
        lemma_links_resolve(nodes, head, outputs);
        lemma_transitive_miss(nodes, links_recursive(nodes, last.spec_index()), outputs);
        if forall|k: int| 0 <= k < links.len() ==> resolves(nodes, #[trigger] links[k], outputs) {
            assert forall|k: int| 0 <= k < head.len() implies resolves(
                nodes,
                #[trigger] head[k],
                outputs,
            ) by {
                assert(head[k] == links[k]);
            }
            assert(resolves(nodes, links[links.len() - 1], outputs));
        }
        if link_outputs(nodes, links, outputs) is Ok {
            assert forall|k: int| 0 <= k < links.len() implies resolves(
                nodes,
                #[trigger] links[k],
                outputs,
            ) by {
                if k < head.len() {
                    assert(head[k] == links[k]);
                }
            }
        }
    }
}

} // verus!
