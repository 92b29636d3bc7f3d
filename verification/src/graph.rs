//! The graph of libraries and what travels along its links.
//!
//! Libraries live in one arena, in the order in which they were declared.
//! A library can only link what was declared before it, so the graph has
//! no cycle and every walk along links ends.

use vstd::prelude::*;
use crate::interface_library::InterfaceLibrary;
use crate::link_type::{clone_links, merge_links, LinkPtr, Property};
use crate::generator_vars::{vars_or_empty, GeneratorVarsView};
use crate::misc::{full_path_list, SourcesView};
use crate::object_library::ObjectLibrary;
use crate::project::{ProjectInfo, ProjectInfoView};
use crate::static_library::StaticLibrary;
use crate::target::{LinkTarget, Target};
use crate::text::texts;
use crate::unique::{
    clone_strings, dedup, lemma_merge_unique_contains, lemma_merge_unique_no_duplicates,
    merge_strings, merge_unique,
};

verus! {

/// A library of one of the three kinds.
#[derive(Debug)]
pub enum LinkNode {
    Static(StaticLibrary),
    Object(ObjectLibrary),
    Interface(InterfaceLibrary),
}

impl LinkNode {
    /// The library's own public settings of one kind.
    pub open spec fn own_public(&self, what: Property) -> Seq<Seq<char>> {
        match self {
            LinkNode::Static(x) => x.own_public(what),
            LinkNode::Object(x) => x.own_public(what),
            LinkNode::Interface(x) => x.own_public(what),
        }
    }

    /// The links whose public settings the library hands on.
    pub open spec fn links_public(&self) -> Seq<LinkPtr> {
        match self {
            LinkNode::Static(x) => x.link_public@,
            LinkNode::Object(x) => x.link_public@,
            LinkNode::Interface(x) => x.links@,
        }
    }

    /// The links that the library keeps to itself.
    pub open spec fn links_private(&self) -> Seq<LinkPtr> {
        match self {
            LinkNode::Static(x) => x.link_private@,
            LinkNode::Object(x) => x.link_private@,
            LinkNode::Interface(_) => Seq::empty(),
        }
    }

    /// All links of the library: the private ones, then the public ones.
    pub open spec fn direct_links(&self) -> Seq<LinkPtr> {
        self.links_private() + self.links_public()
    }

    /// The sources of the library; an interface library has none.
    pub open spec fn spec_sources(&self) -> SourcesView {
        match self {
            LinkNode::Static(x) => x.sources@,
            LinkNode::Object(x) => x.sources@,
            LinkNode::Interface(_) => SourcesView::empty(),
        }
    }

    /// The header directories that only the library itself sees.
    pub open spec fn spec_private_includes(&self) -> Seq<Seq<char>> {
        match self {
            LinkNode::Static(x) => x.spec_private_includes(),
            LinkNode::Object(x) => x.spec_private_includes(),
            LinkNode::Interface(_) => Seq::empty(),
        }
    }

    /// The definitions that only the library itself sees.
    pub open spec fn spec_private_defines(&self) -> Seq<Seq<char>> {
        match self {
            LinkNode::Static(x) => x.spec_private_defines(),
            LinkNode::Object(x) => x.spec_private_defines(),
            LinkNode::Interface(_) => Seq::empty(),
        }
    }

    /// What the library's generator function added.
    pub open spec fn spec_vars(&self) -> GeneratorVarsView {
        match self {
            LinkNode::Static(x) => vars_or_empty(x.generator_vars),
            LinkNode::Object(x) => vars_or_empty(x.generator_vars),
            LinkNode::Interface(_) => GeneratorVarsView::empty(),
        }
    }

    /// Whether `ptr` names a library of this kind.
    pub open spec fn is_kind_of(&self, ptr: LinkPtr) -> bool {
        match self {
            LinkNode::Static(_) => ptr is Static,
            LinkNode::Object(_) => ptr is Object,
            LinkNode::Interface(_) => ptr is Interface,
        }
    }

    /// Whether `ptr` names a library of this kind.
    pub fn has_kind_of(&self, ptr: LinkPtr) -> (r: bool)
        ensures
            r == self.is_kind_of(ptr),
    {
        match self {
            LinkNode::Static(_) => match ptr {
                LinkPtr::Static(_) => true,
                _ => false,
            },
            LinkNode::Object(_) => match ptr {
                LinkPtr::Object(_) => true,
                _ => false,
            },
            LinkNode::Interface(_) => match ptr {
                LinkPtr::Interface(_) => true,
                _ => false,
            },
        }
    }

    /// The library's own public settings of one kind.
    pub fn own_public_list(&self, what: Property) -> (r: Vec<String>)
        ensures
            texts(r@) == self.own_public(what),
    {
        match self {
            LinkNode::Static(x) => match what {
                Property::Includes => full_path_list(&x.include_dirs_public),
                Property::Defines => clone_strings(&x.defines_public),
                Property::LinkFlags => clone_strings(&x.link_flags_public),
            },
            LinkNode::Object(x) => match what {
                Property::Includes => full_path_list(&x.include_dirs_public),
                Property::Defines => clone_strings(&x.defines_public),
                Property::LinkFlags => clone_strings(&x.link_flags_public),
            },
            LinkNode::Interface(x) => match what {
                Property::Includes => full_path_list(&x.include_dirs),
                Property::Defines => clone_strings(&x.defines),
                Property::LinkFlags => clone_strings(&x.link_flags),
            },
        }
    }

    /// The links whose public settings the library hands on.
    pub fn public_link_list(&self) -> (r: &Vec<LinkPtr>)
        ensures
            r@ == self.links_public(),
    {
        match self {
            LinkNode::Static(x) => &x.link_public,
            LinkNode::Object(x) => &x.link_public,
            LinkNode::Interface(x) => &x.links,
        }
    }

    /// All links of the library: the private ones, then the public ones.
    pub fn direct_link_list(&self) -> (r: Vec<LinkPtr>)
        ensures
            r@ == self.direct_links(),
    {
        match self {
            LinkNode::Static(x) => {
                let mut out = clone_links(&x.link_private);
                let mut rest = clone_links(&x.link_public);
                out.append(&mut rest);
                out
            },
            LinkNode::Object(x) => {
                let mut out = clone_links(&x.link_private);
                let mut rest = clone_links(&x.link_public);
                out.append(&mut rest);
                out
            },
            LinkNode::Interface(x) => {
                let out = clone_links(&x.links);
                assert(Seq::<LinkPtr>::empty() + x.links@ =~= x.links@);
                out
            },
        }
    }
}

impl Target for LinkNode {
    open spec fn spec_name(&self) -> Seq<char> {
        match self {
            LinkNode::Static(x) => x.spec_name(),
            LinkNode::Object(x) => x.spec_name(),
            LinkNode::Interface(x) => x.spec_name(),
        }
    }

    open spec fn spec_output_name(&self) -> Seq<char> {
        match self {
            LinkNode::Static(x) => x.spec_output_name(),
            LinkNode::Object(x) => x.spec_output_name(),
            LinkNode::Interface(x) => x.spec_output_name(),
        }
    }

    open spec fn spec_project(&self) -> ProjectInfoView {
        match self {
            LinkNode::Static(x) => x.spec_project(),
            LinkNode::Object(x) => x.spec_project(),
            LinkNode::Interface(x) => x.spec_project(),
        }
    }

    fn name(&self) -> (r: &str) {
        match self {
            LinkNode::Static(x) => x.name(),
            LinkNode::Object(x) => x.name(),
            LinkNode::Interface(x) => x.name(),
        }
    }

    fn output_name(&self) -> (r: &str) {
        match self {
            LinkNode::Static(x) => x.output_name(),
            LinkNode::Object(x) => x.output_name(),
            LinkNode::Interface(x) => x.output_name(),
        }
    }

    fn project(&self) -> (r: &ProjectInfo) {
        match self {
            LinkNode::Static(x) => x.project(),
            LinkNode::Object(x) => x.project(),
            LinkNode::Interface(x) => x.project(),
        }
    }
}

/// Whether `ptr` names a library of `nodes`, of the kind it says.
pub open spec fn names(nodes: Seq<LinkNode>, ptr: LinkPtr) -> bool {
    &&& 0 <= ptr.spec_index() < nodes.len()
    &&& nodes[ptr.spec_index()].is_kind_of(ptr)
}

/// Whether every link of `links` names a library among the first `bound`
/// of `nodes`.
pub open spec fn links_below(nodes: Seq<LinkNode>, links: Seq<LinkPtr>, bound: int) -> bool {
    forall|i: int|
        0 <= i < links.len() ==> names(nodes, #[trigger] links[i]) && links[i].spec_index()
            < bound
}

/// Whether every library links only what was declared before it.
pub open spec fn well_formed(nodes: Seq<LinkNode>) -> bool {
    forall|at: int|
        0 <= at < nodes.len() ==> links_below(nodes, #[trigger] nodes[at].direct_links(), at)
}

/// What the libraries named by `links` hand on, of one kind of setting:
/// the surface of each link in turn, every item kept where it was first
/// seen. The surface of a library is what its public links hand on,
/// followed by its own public settings. Only links below `bound` count.
pub open spec fn gathered(
    nodes: Seq<LinkNode>,
    links: Seq<LinkPtr>,
    bound: int,
    what: Property,
) -> Seq<Seq<char>>
    decreases bound, links.len(),
{
    if links.len() == 0 {
        Seq::empty()
    } else {
        let head = gathered(nodes, links.drop_last(), bound, what);
        let at = links.last().spec_index();
        if 0 <= at < bound && at < nodes.len() {
            merge_unique(
                head,
                merge_unique(
                    gathered(nodes, nodes[at].links_public(), at, what),
                    nodes[at].own_public(what),
                ),
            )
        } else {
            head
        }
    }
}

/// The public surface of the library at `at`, of one kind of setting: what
/// its public links hand on, followed by its own public settings.
pub open spec fn surface(nodes: Seq<LinkNode>, at: int, what: Property) -> Seq<Seq<char>> {
    merge_unique(gathered(nodes, nodes[at].links_public(), at, what), nodes[at].own_public(what))
}

/// What a target with the links `links` and the own settings `own` sees,
/// of one kind of setting.
pub open spec fn collected(
    nodes: Seq<LinkNode>,
    links: Seq<LinkPtr>,
    own: Seq<Seq<char>>,
    what: Property,
) -> Seq<Seq<char>> {
    merge_unique(gathered(nodes, links, nodes.len() as int, what), own)
}

/// `acc` extended by what has to be linked for each of `links` in turn.
/// Only links below `bound` count.
pub open spec fn expanded(
    nodes: Seq<LinkNode>,
    links: Seq<LinkPtr>,
    bound: int,
    acc: Seq<LinkPtr>,
) -> Seq<LinkPtr>
    decreases bound, links.len(),
{
    if links.len() == 0 {
        acc
    } else {
        let head = expanded(nodes, links.drop_last(), bound, acc);
        let at = links.last().spec_index();
        if 0 <= at < bound && at < nodes.len() {
            merge_unique(
                head,
                expanded(
                    nodes,
                    nodes[at].direct_links(),
                    at,
                    dedup(nodes[at].direct_links()),
                ),
            )
        } else {
            head
        }
    }
}

/// Everything that has to be linked along with a target whose links are
/// `links`: the links themselves, then what each of them needs in turn,
/// every library kept where it was first seen.
pub open spec fn link_closure(nodes: Seq<LinkNode>, links: Seq<LinkPtr>, bound: int) -> Seq<
    LinkPtr,
> {
    expanded(nodes, links, bound, dedup(links))
}

/// Everything that has to be linked along with the library at `at`: its
/// private links, its public links, then what each of them needs.
pub open spec fn links_recursive(nodes: Seq<LinkNode>, at: int) -> Seq<LinkPtr> {
    link_closure(nodes, nodes[at].direct_links(), at)
}

/// The arena of libraries.
#[derive(Debug)]
pub struct TargetGraph {
    nodes: Vec<LinkNode>,
}

impl View for TargetGraph {
    type V = Seq<LinkNode>;

    closed spec fn view(&self) -> Seq<LinkNode> {
        self.nodes@
    }
}

impl TargetGraph {
    #[verifier::type_invariant]
    spec fn inv(&self) -> bool {
        well_formed(self.nodes@)
    }

    /// A graph without libraries.
    pub fn new() -> (r: Self)
        ensures
            r@ == Seq::<LinkNode>::empty(),
    {
        TargetGraph { nodes: Vec::new() }
    }

    /// Every graph is well formed: whoever holds one may rely on it.
    pub fn well_formedness(&self)
        ensures
            well_formed(self@),
    {
        proof {
            use_type_invariant(self);
        }
    }

    /// The number of libraries.
    pub fn len(&self) -> (r: usize)
        ensures
            r == self@.len(),
    {
        self.nodes.len()
    }

    /// Whether `ptr` names a library of the graph, of the kind it says.
    pub fn contains(&self, ptr: LinkPtr) -> (r: bool)
        ensures
            r == names(self@, ptr),
    {
        let at = ptr.index();
        at < self.nodes.len() && self.nodes[at].has_kind_of(ptr)
    }

    /// Whether every link of `links` names a library of the graph.
    pub fn contains_all(&self, links: &Vec<LinkPtr>) -> (r: bool)
        ensures
            r == links_below(self@, links@, self@.len() as int),
    {
        let mut i: usize = 0;
        while i < links.len()
            invariant
                i <= links@.len(),
                links_below(self@, links@.take(i as int), self@.len() as int),
            decreases links@.len() - i,
        {
            if !self.contains(links[i]) {
                return false;
            }
            proof {
                let next = links@.take(i + 1);
                assert forall|k: int| 0 <= k < next.len() implies names(self@, #[trigger] next[k])
                    && next[k].spec_index() < self@.len() by {
                    if k < i {
                        assert(links@.take(i as int)[k] == next[k]);
                    }
                }
            }
            i += 1;
        }
        assert(links@.take(links@.len() as int) =~= links@);
        true
    }

    /// The library that `ptr` names.
    pub fn get(&self, ptr: LinkPtr) -> (r: Option<&LinkNode>)
        ensures
            names(self@, ptr) ==> r == Some(&self@[ptr.spec_index()]),
            !names(self@, ptr) ==> r is None,
    {
        if self.contains(ptr) {
            Some(&self.nodes[ptr.index()])
        } else {
            None
        }
    }

    /// Puts a library into the graph, after all that are there. A library
    /// with a link that names nothing in the graph is handed back.
    fn add_node(&mut self, node: LinkNode) -> (r: Result<usize, LinkNode>)
        ensures
            links_below(old(self)@, node.direct_links(), old(self)@.len() as int) ==> (r matches Ok(
                at,
            ) && at == old(self)@.len()) && final(self)@ == old(self)@.push(node),
            !links_below(old(self)@, node.direct_links(), old(self)@.len() as int) ==> r == Err::<
                usize,
                LinkNode,
            >(node) && final(self)@ == old(self)@,
    {
        proof {
            use_type_invariant(&*self);
        }
        let links = node.direct_link_list();
        if !self.contains_all(&links) {
            return Err(node);
        }
        let at = self.nodes.len();
        let ghost before = self.nodes@;
        let mut nodes: Vec<LinkNode> = Vec::new();
        core::mem::swap(&mut nodes, &mut self.nodes);
        nodes.push(node);
        proof {
            let after = nodes@;
            assert forall|k: int| 0 <= k < after.len() implies links_below(
                after,
                #[trigger] after[k].direct_links(),
                k,
            ) by {
                let links = after[k].direct_links();
                if k < before.len() {
                    assert(after[k] == before[k]);
                    assert(links_below(before, before[k].direct_links(), k));
                    assert forall|i: int| 0 <= i < links.len() implies names(
                        after,
                        #[trigger] links[i],
                    ) && links[i].spec_index() < k by {
                        assert(names(before, links[i]));
                        assert(after[links[i].spec_index()] == before[links[i].spec_index()]);
                    }
                } else {
                    assert forall|i: int| 0 <= i < links.len() implies names(
                        after,
                        #[trigger] links[i],
                    ) && links[i].spec_index() < k by {
                        assert(names(before, links[i]));
                        assert(after[links[i].spec_index()] == before[links[i].spec_index()]);
                    }
                }
            }
        }
        self.nodes = nodes;
        Ok(at)
    }

    /// Declares a static library. Every link of it has to name a library
    /// that is in the graph already; otherwise nothing changes and the
    /// library is handed back.
    pub fn add_static_library(&mut self, lib: StaticLibrary) -> (r: Result<LinkPtr, StaticLibrary>)
        ensures
            links_below(
                old(self)@,
                lib.link_private@ + lib.link_public@,
                old(self)@.len() as int,
            ) ==> (r matches Ok(LinkPtr::Static(at)) && at == old(self)@.len()) && final(self)@
                == old(self)@.push(LinkNode::Static(lib)),
            !links_below(
                old(self)@,
                lib.link_private@ + lib.link_public@,
                old(self)@.len() as int,
            ) ==> r == Err::<LinkPtr, StaticLibrary>(lib) && final(self)@ == old(self)@,
    {
        match self.add_node(LinkNode::Static(lib)) {
            Ok(at) => Ok(LinkPtr::Static(at)),
            Err(node) => match node {
                LinkNode::Static(lib) => Err(lib),
                _ => {
                    vstd::pervasive::unreached()
                },
            },
        }
    }

    /// Declares an object library, under the same condition.
    pub fn add_object_library(&mut self, lib: ObjectLibrary) -> (r: Result<LinkPtr, ObjectLibrary>)
        ensures
            links_below(
                old(self)@,
                lib.link_private@ + lib.link_public@,
                old(self)@.len() as int,
            ) ==> (r matches Ok(LinkPtr::Object(at)) && at == old(self)@.len()) && final(self)@
                == old(self)@.push(LinkNode::Object(lib)),
            !links_below(
                old(self)@,
                lib.link_private@ + lib.link_public@,
                old(self)@.len() as int,
            ) ==> r == Err::<LinkPtr, ObjectLibrary>(lib) && final(self)@ == old(self)@,
    {
        match self.add_node(LinkNode::Object(lib)) {
            Ok(at) => Ok(LinkPtr::Object(at)),
            Err(node) => match node {
                LinkNode::Object(lib) => Err(lib),
                _ => {
                    vstd::pervasive::unreached()
                },
            },
        }
    }

    /// Declares an interface library, under the same condition.
    pub fn add_interface_library(&mut self, lib: InterfaceLibrary) -> (r: Result<
        LinkPtr,
        InterfaceLibrary,
    >)
        ensures
            links_below(old(self)@, lib.links@, old(self)@.len() as int) ==> (r matches Ok(
                LinkPtr::Interface(at),
            ) && at == old(self)@.len()) && final(self)@ == old(self)@.push(
                LinkNode::Interface(lib),
            ),
            !links_below(old(self)@, lib.links@, old(self)@.len() as int) ==> r == Err::<
                LinkPtr,
                InterfaceLibrary,
            >(lib) && final(self)@ == old(self)@,
    {
        assert(Seq::<LinkPtr>::empty() + lib.links@ =~= lib.links@);
        match self.add_node(LinkNode::Interface(lib)) {
            Ok(at) => Ok(LinkPtr::Interface(at)),
            Err(node) => match node {
                LinkNode::Interface(lib) => Err(lib),
                _ => {
                    vstd::pervasive::unreached()
                },
            },
        }
    }
}


/// What links hand on never holds an item twice.
pub proof fn lemma_gathered_no_duplicates(
    nodes: Seq<LinkNode>,
    links: Seq<LinkPtr>,
    bound: int,
    what: Property,
)
    ensures
        gathered(nodes, links, bound, what).no_duplicates(),
    decreases bound, links.len(),
{
    if links.len() > 0 {
        lemma_gathered_no_duplicates(nodes, links.drop_last(), bound, what);
        let head = gathered(nodes, links.drop_last(), bound, what);
        let at = links.last().spec_index();
        if 0 <= at < bound && at < nodes.len() {
            lemma_merge_unique_no_duplicates(
                head,
                merge_unique(
                    gathered(nodes, nodes[at].links_public(), at, what),
                    nodes[at].own_public(what),
                ),
            );
        }
    }
}

/// One more link taken into account is one more merge.
pub proof fn lemma_gathered_step(
    nodes: Seq<LinkNode>,
    links: Seq<LinkPtr>,
    bound: int,
    what: Property,
    i: int,
)
    requires
        0 <= i < links.len(),
    ensures
        gathered(nodes, links.take(i + 1), bound, what) == (if 0 <= links[i].spec_index() < bound
            && links[i].spec_index() < nodes.len() {
            merge_unique(
                gathered(nodes, links.take(i), bound, what),
                surface(nodes, links[i].spec_index(), what),
            )
        } else {
            gathered(nodes, links.take(i), bound, what)
        }),
{
    assert(links.take(i + 1).drop_last() =~= links.take(i));
}

/// One more link expanded is one more merge.
pub proof fn lemma_expanded_step(
    nodes: Seq<LinkNode>,
    links: Seq<LinkPtr>,
    bound: int,
    acc: Seq<LinkPtr>,
    i: int,
)
    requires
        0 <= i < links.len(),
    ensures
        expanded(nodes, links.take(i + 1), bound, acc) == (if 0 <= links[i].spec_index() < bound
            && links[i].spec_index() < nodes.len() {
            merge_unique(
                expanded(nodes, links.take(i), bound, acc),
                links_recursive(nodes, links[i].spec_index()),
            )
        } else {
            expanded(nodes, links.take(i), bound, acc)
        }),
{
    assert(links.take(i + 1).drop_last() =~= links.take(i));
}

/// Expanding links into a list without repetition gives a list without
/// repetition.
pub proof fn lemma_expanded_no_duplicates(
    nodes: Seq<LinkNode>,
    links: Seq<LinkPtr>,
    bound: int,
    acc: Seq<LinkPtr>,
)
    requires
        acc.no_duplicates(),
    ensures
        expanded(nodes, links, bound, acc).no_duplicates(),
    decreases bound, links.len(),
{
    if links.len() > 0 {
        lemma_expanded_no_duplicates(nodes, links.drop_last(), bound, acc);
        let head = expanded(nodes, links.drop_last(), bound, acc);
        let at = links.last().spec_index();
        if 0 <= at < bound && at < nodes.len() {
            lemma_merge_unique_no_duplicates(
                head,
                expanded(nodes, nodes[at].direct_links(), at, dedup(nodes[at].direct_links())),
            );
        }
    }
}

impl TargetGraph {
    /// What the libraries named by `links` hand on, of one kind of
    /// setting. Only links below `bound` count.
    pub fn gather(&self, links: &Vec<LinkPtr>, bound: usize, what: Property) -> (r: Vec<String>)
        ensures
            texts(r@) == gathered(self@, links@, bound as int, what),
        decreases bound,
    {
        let mut acc: Vec<String> = Vec::new();
        assert(texts(acc@) =~= Seq::<Seq<char>>::empty());
        let mut i: usize = 0;
        while i < links.len()
            invariant
                i <= links@.len(),
                texts(acc@) == gathered(self@, links@.take(i as int), bound as int, what),
            decreases links@.len() - i,
        {
            let at = links[i].index();
            proof {
                lemma_gathered_step(self@, links@, bound as int, what, i as int);
            }
            if at < bound && at < self.nodes.len() {
                let node = &self.nodes[at];
                let mut sub = self.gather(node.public_link_list(), at, what);
                let own = node.own_public_list(what);
                merge_strings(&mut sub, &own);
                merge_strings(&mut acc, &sub);
            }
            i += 1;
        }
        assert(links@.take(links@.len() as int) =~= links@);
        acc
    }

    /// What a target with the links `links` and the own settings `own`
    /// sees, of one kind of setting.
    pub fn collect(&self, links: &Vec<LinkPtr>, own: &Vec<String>, what: Property) -> (r: Vec<
        String,
    >)
        ensures
            texts(r@) == collected(self@, links@, texts(own@), what),
            texts(r@).no_duplicates(),
    {
        let mut acc = self.gather(links, self.nodes.len(), what);
        merge_strings(&mut acc, own);
        proof {
            lemma_gathered_no_duplicates(self@, links@, self@.len() as int, what);
            lemma_merge_unique_no_duplicates(
                gathered(self@, links@, self@.len() as int, what),
                texts(own@),
            );
        }
        acc
    }

    /// The public surface of a library, of one kind of setting: what its
    /// public links hand on, then its own public settings, each item once.
    pub fn public_recursive(&self, ptr: LinkPtr, what: Property) -> (r: Vec<String>)
        requires
            names(self@, ptr),
        ensures
            texts(r@) == surface(self@, ptr.spec_index(), what),
            texts(r@).no_duplicates(),
    {
        let at = ptr.index();
        let node = &self.nodes[at];
        let mut acc = self.gather(node.public_link_list(), at, what);
        let own = node.own_public_list(what);
        merge_strings(&mut acc, &own);
        proof {
            lemma_gathered_no_duplicates(self@, node.links_public(), at as int, what);
            lemma_merge_unique_no_duplicates(
                gathered(self@, node.links_public(), at as int, what),
                texts(own@),
            );
        }
        acc
    }

    /// The header directories that a library hands on.
    pub fn public_includes_recursive(&self, ptr: LinkPtr) -> (r: Vec<String>)
        requires
            names(self@, ptr),
        ensures
            texts(r@) == surface(self@, ptr.spec_index(), Property::Includes),
            texts(r@).no_duplicates(),
    {
        self.public_recursive(ptr, Property::Includes)
    }

    /// The definitions that a library hands on.
    pub fn public_defines_recursive(&self, ptr: LinkPtr) -> (r: Vec<String>)
        requires
            names(self@, ptr),
        ensures
            texts(r@) == surface(self@, ptr.spec_index(), Property::Defines),
            texts(r@).no_duplicates(),
    {
        self.public_recursive(ptr, Property::Defines)
    }

    /// The linker flags that a library hands on.
    pub fn public_link_flags_recursive(&self, ptr: LinkPtr) -> (r: Vec<String>)
        requires
            names(self@, ptr),
        ensures
            texts(r@) == surface(self@, ptr.spec_index(), Property::LinkFlags),
            texts(r@).no_duplicates(),
    {
        self.public_recursive(ptr, Property::LinkFlags)
    }

    /// Extends `acc` by what has to be linked for each of `links` in turn.
    /// Only links below `bound` count.
    pub fn expand(&self, links: &Vec<LinkPtr>, bound: usize, acc: &mut Vec<LinkPtr>)
        ensures
            final(acc)@ == expanded(self@, links@, bound as int, old(acc)@),
        decreases bound, 0int,
    {
        let mut i: usize = 0;
        while i < links.len()
            invariant
                i <= links@.len(),
                acc@ == expanded(self@, links@.take(i as int), bound as int, old(acc)@),
            decreases links@.len() - i,
        {
            let at = links[i].index();
            proof {
                lemma_expanded_step(self@, links@, bound as int, old(acc)@, i as int);
            }
            if at < bound && at < self.nodes.len() {
                let sub = self.closure(&self.nodes[at].direct_link_list(), at);
                merge_links(acc, &sub);
            }
            i += 1;
        }
        assert(links@.take(links@.len() as int) =~= links@);
    }

    /// Everything that has to be linked along with a target whose links
    /// are `links`. Only links below `bound` count.
    pub fn closure(&self, links: &Vec<LinkPtr>, bound: usize) -> (r: Vec<LinkPtr>)
        ensures
            r@ == link_closure(self@, links@, bound as int),
            r@.no_duplicates(),
        decreases bound, 1int,
    {
        let mut acc: Vec<LinkPtr> = Vec::new();
        merge_links(&mut acc, links);
        proof {
            lemma_merge_unique_no_duplicates(Seq::<LinkPtr>::empty(), links@);
            lemma_expanded_no_duplicates(self@, links@, bound as int, dedup(links@));
        }
        self.expand(links, bound, &mut acc);
        acc
    }

    /// Everything that has to be linked along with a library: its private
    /// links, its public links, then what each of them needs, each once.
    pub fn public_links_recursive(&self, ptr: LinkPtr) -> (r: Vec<LinkPtr>)
        requires
            names(self@, ptr),
        ensures
            r@ == links_recursive(self@, ptr.spec_index()),
            r@.no_duplicates(),
    {
        let at = ptr.index();
        self.closure(&self.nodes[at].direct_link_list(), at)
    }
}


impl LinkTarget for LinkNode {
    open spec fn spec_public(&self, what: Property) -> Seq<Seq<char>> {
        self.own_public(what)
    }

    open spec fn spec_public_links(&self) -> Seq<LinkPtr> {
        self.links_public()
    }

    open spec fn spec_private_links(&self) -> Seq<LinkPtr> {
        self.links_private()
    }

    fn public_includes(&self) -> (r: Vec<String>) {
        self.own_public_list(Property::Includes)
    }

    fn public_includes_recursive(&self, graph: &TargetGraph) -> (r: Vec<String>) {
        let own = self.public_includes();
        graph.collect(self.public_link_list(), &own, Property::Includes)
    }

    fn public_defines(&self) -> (r: Vec<String>) {
        self.own_public_list(Property::Defines)
    }

    fn public_defines_recursive(&self, graph: &TargetGraph) -> (r: Vec<String>) {
        let own = self.public_defines();
        graph.collect(self.public_link_list(), &own, Property::Defines)
    }

    fn public_link_flags(&self) -> (r: Vec<String>) {
        self.own_public_list(Property::LinkFlags)
    }

    fn public_link_flags_recursive(&self, graph: &TargetGraph) -> (r: Vec<String>) {
        let own = self.public_link_flags();
        graph.collect(self.public_link_list(), &own, Property::LinkFlags)
    }

    fn public_links(&self) -> (r: Vec<LinkPtr>) {
        clone_links(self.public_link_list())
    }

    fn public_links_recursive(&self, graph: &TargetGraph) -> (r: Vec<LinkPtr>) {
        graph.closure(&self.direct_link_list(), graph.len())
    }
}


/// Whether every link of `links` names a library of `nodes`.
pub open spec fn all_named(nodes: Seq<LinkNode>, links: Seq<LinkPtr>) -> bool {
    forall|k: int| 0 <= k < links.len() ==> names(nodes, #[trigger] links[k])
}

/// In a well-formed graph, expanding links that name libraries into a
/// list of links that name libraries gives such a list.
pub proof fn lemma_expanded_named(
    nodes: Seq<LinkNode>,
    links: Seq<LinkPtr>,
    bound: int,
    acc: Seq<LinkPtr>,
)
    requires
        well_formed(nodes),
        all_named(nodes, acc),
    ensures
        all_named(nodes, expanded(nodes, links, bound, acc)),
    decreases bound, links.len(),
{
    if links.len() > 0 {
        lemma_expanded_named(nodes, links.drop_last(), bound, acc);
        let head = expanded(nodes, links.drop_last(), bound, acc);
        let at = links.last().spec_index();
        if 0 <= at < bound && at < nodes.len() {
            let direct = nodes[at].direct_links();
            assert(links_below(nodes, direct, at));
            lemma_merge_unique_contains(Seq::<LinkPtr>::empty(), direct);
            assert forall|k: int| 0 <= k < dedup(direct).len() implies names(
                nodes,
                #[trigger] dedup(direct)[k],
            ) by {
                let x = dedup(direct)[k];
                assert(dedup(direct).contains(x));
                assert(direct.contains(x));
                let j = choose|j: int| 0 <= j < direct.len() && direct[j] == x;
                assert(names(nodes, direct[j]));
            }
            lemma_expanded_named(nodes, direct, at, dedup(direct));
            let inner = expanded(nodes, direct, at, dedup(direct));
            lemma_merge_unique_contains(head, inner);
            let all = merge_unique(head, inner);
            assert forall|k: int| 0 <= k < all.len() implies names(nodes, #[trigger] all[k]) by {
                let x = all[k];
                assert(all.contains(x));
                if head.contains(x) {
                    let j = choose|j: int| 0 <= j < head.len() && head[j] == x;
                    assert(names(nodes, head[j]));
                } else {
                    let j = choose|j: int| 0 <= j < inner.len() && inner[j] == x;
                    assert(names(nodes, inner[j]));
                }
            }
        }
    }
}

/// In a well-formed graph, everything that has to be linked along with a
/// library is a library of the graph.
pub proof fn lemma_links_recursive_named(nodes: Seq<LinkNode>, at: int)
    requires
        well_formed(nodes),
        0 <= at < nodes.len(),
    ensures
        all_named(nodes, links_recursive(nodes, at)),
{
    let direct = nodes[at].direct_links();
    assert(links_below(nodes, direct, at));
    lemma_merge_unique_contains(Seq::<LinkPtr>::empty(), direct);
    assert forall|k: int| 0 <= k < dedup(direct).len() implies names(
        nodes,
        #[trigger] dedup(direct)[k],
    ) by {
        let x = dedup(direct)[k];
        assert(dedup(direct).contains(x));
        assert(direct.contains(x));
        let j = choose|j: int| 0 <= j < direct.len() && direct[j] == x;
        assert(names(nodes, direct[j]));
    }
    lemma_expanded_named(nodes, direct, at, dedup(direct));
}

impl TargetGraph {
    /// Everything that has to be linked along with a library of the graph
    /// is a library of the graph.
    pub fn well_formedness_of(&self, ptr: LinkPtr)
        requires
            names(self@, ptr),
        ensures
            well_formed(self@),
            all_named(self@, links_recursive(self@, ptr.spec_index())),
    {
        proof {
            use_type_invariant(self);
            lemma_links_recursive_named(self@, ptr.spec_index());
        }
    }
}


impl TargetGraph {
    /// The library at `at`.
    pub fn node_at(&self, at: usize) -> (r: &LinkNode)
        requires
            at < self@.len(),
        ensures
            *r == self@[at as int],
    {
        &self.nodes[at]
    }

    /// The link that names the library at `at`.
    pub fn ptr_at(&self, at: usize) -> (r: LinkPtr)
        requires
            at < self@.len(),
        ensures
            names(self@, r),
            r.spec_key() == at,
    {
        match &self.nodes[at] {
            LinkNode::Static(_) => LinkPtr::Static(at),
            LinkNode::Object(_) => LinkPtr::Object(at),
            LinkNode::Interface(_) => LinkPtr::Interface(at),
        }
    }
}

} // verus!
