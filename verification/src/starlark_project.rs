//! Declared projects and how they become projects of targets.
//!
//! A declared library may be reached along many paths. It is turned into
//! a library of the graph when it is first met, and remembered by its
//! identity, so that every later path finds the same library.

use std::collections::{HashMap, HashSet};
use vstd::prelude::*;
use crate::executable::Executable;
use crate::generator_vars::{GeneratorVars, GeneratorVarsView};
use crate::graph::{all_named, names, LinkNode, TargetGraph};
use crate::link_type::{LinkKind, LinkPtr};
use crate::project::{project_fits, Project, ProjectInfo};
use crate::remembered::{all_remembered, lemma_no_library_without_declaration};
use crate::starlark_reached::{
    arrived, dependencies_reached, executable_reached, executables_reached, lemma_carried_wider,
    lemma_dependencies_stop, lemma_executables_stop, lemma_linked_arrives, lemma_linked_stop,
    lemma_listed_stop, linked_reached, listed_reached, materialized_reached, project_reached,
};
use crate::misc::{
    clone_paths, first_unknown, path_views, unknown_source_message, Sources, SourcesView,
};
use crate::starlark_link_target::{
    resolved_vars, vars_view, PtrLinkTarget, StarExecutable, StarLinkTarget,
};

verus! {

/// The libraries that declarations were turned into, by the identity of
/// the declaration.
#[derive(Debug)]
pub struct StarLinkTargetCache {
    all_targets: HashSet<usize>,
    static_libs: HashMap<usize, usize>,
    object_libs: HashMap<usize, usize>,
    interface_libs: HashMap<usize, usize>,
}

/// The mathematical value of [`StarLinkTargetCache`].
pub struct CacheView {
    pub all_targets: Set<usize>,
    pub static_libs: Map<usize, usize>,
    pub object_libs: Map<usize, usize>,
    pub interface_libs: Map<usize, usize>,
}

impl CacheView {
    /// A cache that remembers nothing.
    pub open spec fn empty() -> CacheView {
        CacheView {
            all_targets: Set::empty(),
            static_libs: Map::empty(),
            object_libs: Map::empty(),
            interface_libs: Map::empty(),
        }
    }

    /// Whether every declaration that a library is kept for is among
    /// those that the cache knows of.
    pub open spec fn tidy(self) -> bool {
        &&& forall|key: usize| #[trigger]
            self.static_libs.contains_key(key) ==> self.all_targets.contains(key)
        &&& forall|key: usize| #[trigger]
            self.object_libs.contains_key(key) ==> self.all_targets.contains(key)
        &&& forall|key: usize| #[trigger]
            self.interface_libs.contains_key(key) ==> self.all_targets.contains(key)
    }

    /// The place of the static library that `key` was turned into.
    pub open spec fn get_static(self, key: usize) -> Option<usize> {
        if self.all_targets.contains(key) && self.static_libs.contains_key(key) {
            Some(self.static_libs[key])
        } else {
            None
        }
    }

    /// The place of the object library that `key` was turned into.
    pub open spec fn get_object(self, key: usize) -> Option<usize> {
        if self.all_targets.contains(key) && self.object_libs.contains_key(key) {
            Some(self.object_libs[key])
        } else {
            None
        }
    }

    /// The place of the interface library that `key` was turned into.
    pub open spec fn get_interface(self, key: usize) -> Option<usize> {
        if self.all_targets.contains(key) && self.interface_libs.contains_key(key) {
            Some(self.interface_libs[key])
        } else {
            None
        }
    }

    /// The library that `key` was turned into.
    pub open spec fn get(self, key: usize) -> Option<LinkPtr> {
        if let Some(x) = self.get_static(key) {
            Some(LinkPtr::Static(x))
        } else if let Some(x) = self.get_object(key) {
            Some(LinkPtr::Object(x))
        } else if let Some(x) = self.get_interface(key) {
            Some(LinkPtr::Interface(x))
        } else {
            None
        }
    }

    /// The cache that also remembers a static library for `key`.
    pub open spec fn insert_static(self, key: usize, value: usize) -> CacheView {
        CacheView {
            all_targets: self.all_targets.insert(key),
            static_libs: self.static_libs.insert(key, value),
            ..self
        }
    }

    /// The cache that also remembers an object library for `key`.
    pub open spec fn insert_object(self, key: usize, value: usize) -> CacheView {
        CacheView {
            all_targets: self.all_targets.insert(key),
            object_libs: self.object_libs.insert(key, value),
            ..self
        }
    }

    /// The cache that also remembers an interface library for `key`.
    pub open spec fn insert_interface(self, key: usize, value: usize) -> CacheView {
        CacheView {
            all_targets: self.all_targets.insert(key),
            interface_libs: self.interface_libs.insert(key, value),
            ..self
        }
    }

    /// The cache that also remembers `ptr` for `key`.
    pub open spec fn insert(self, key: usize, ptr: LinkPtr) -> CacheView {
        match ptr {
            LinkPtr::Static(x) => self.insert_static(key, x),
            LinkPtr::Object(x) => self.insert_object(key, x),
            LinkPtr::Interface(x) => self.insert_interface(key, x),
        }
    }
}

impl View for StarLinkTargetCache {
    type V = CacheView;

    closed spec fn view(&self) -> CacheView {
        CacheView {
            all_targets: self.all_targets@,
            static_libs: self.static_libs@,
            object_libs: self.object_libs@,
            interface_libs: self.interface_libs@,
        }
    }
}

impl StarLinkTargetCache {
    #[verifier::type_invariant]
    spec fn inv(&self) -> bool {
        self@.tidy()
    }

    /// Every cache is in order: whoever holds one may rely on it.
    pub fn tidiness(&self)
        ensures
            self@.tidy(),
    {
        proof {
            use_type_invariant(self);
        }
    }

    /// A cache that remembers nothing.
    pub fn new() -> (r: StarLinkTargetCache)
        ensures
            r@ == CacheView::empty(),
    {
        StarLinkTargetCache {
            all_targets: HashSet::new(),
            static_libs: HashMap::new(),
            object_libs: HashMap::new(),
            interface_libs: HashMap::new(),
        }
    }

    /// The place of the static library that `key` was turned into.
    pub fn get_static(&self, key: &PtrLinkTarget) -> (r: Option<usize>)
        ensures
            r == self@.get_static(key.0),
    {
        if self.all_targets.contains(&key.0) {
            match self.static_libs.get(&key.0) {
                Some(x) => Some(*x),
                None => None,
            }
        } else {
            None
        }
    }

    /// The place of the object library that `key` was turned into.
    pub fn get_object(&self, key: &PtrLinkTarget) -> (r: Option<usize>)
        ensures
            r == self@.get_object(key.0),
    {
        if self.all_targets.contains(&key.0) {
            match self.object_libs.get(&key.0) {
                Some(x) => Some(*x),
                None => None,
            }
        } else {
            None
        }
    }

    /// The place of the interface library that `key` was turned into.
    pub fn get_interface(&self, key: &PtrLinkTarget) -> (r: Option<usize>)
        ensures
            r == self@.get_interface(key.0),
    {
        if self.all_targets.contains(&key.0) {
            match self.interface_libs.get(&key.0) {
                Some(x) => Some(*x),
                None => None,
            }
        } else {
            None
        }
    }

    /// The library that `key` was turned into: a static library where
    /// there is one, else an object library, else an interface library.
    pub fn get(&self, key: &PtrLinkTarget) -> (r: Option<LinkPtr>)
        ensures
            r == self@.get(key.0),
    {
        if let Some(x) = self.get_static(key) {
            return Some(LinkPtr::Static(x));
        }
        if let Some(x) = self.get_object(key) {
            return Some(LinkPtr::Object(x));
        }
        if let Some(x) = self.get_interface(key) {
            return Some(LinkPtr::Interface(x));
        }
        None
    }

    /// Remembers the static library at `value` for `key`. Where nothing was
    /// remembered for `key`, that library is what is found for it from
    /// then on.
    pub fn insert_static(&mut self, key: PtrLinkTarget, value: usize)
        ensures
            final(self)@ == old(self)@.insert_static(key.0, value),
            final(self)@.tidy(),
            old(self)@.get(key.0) is None ==> final(self)@.get(key.0) == Some(
                LinkPtr::Static(value),
            ),
    {
        let mut taken = StarLinkTargetCache::new();
        core::mem::swap(self, &mut taken);
        proof {
            use_type_invariant(&taken);
        }
        let ghost before = taken@;
        let StarLinkTargetCache {
            mut all_targets,
            mut static_libs,
            mut object_libs,
            mut interface_libs,
        } = taken;
        all_targets.insert(key.0);
        static_libs.insert(key.0, value);
        proof {
            let after = CacheView {
                all_targets: all_targets@,
                static_libs: static_libs@,
                object_libs: object_libs@,
                interface_libs: interface_libs@,
            };
            if before.get(key.0) is None {
                assert(!before.static_libs.contains_key(key.0));
                assert(!before.object_libs.contains_key(key.0));
                assert(!before.interface_libs.contains_key(key.0));
            }
            assert forall|k: usize| #[trigger] after.static_libs.contains_key(k) implies after
                .all_targets.contains(k) by {
                if k != key.0 {
                    assert(before.static_libs.contains_key(k));
                }
            }
            assert forall|k: usize| #[trigger] after.object_libs.contains_key(k) implies after
                .all_targets.contains(k) by {
                if k != key.0 {
                    assert(before.object_libs.contains_key(k));
                }
            }
            assert forall|k: usize| #[trigger] after.interface_libs.contains_key(k) implies after
                .all_targets.contains(k) by {
                if k != key.0 {
                    assert(before.interface_libs.contains_key(k));
                }
            }
        }
        *self = StarLinkTargetCache { all_targets, static_libs, object_libs, interface_libs };
    }

    /// Remembers the object library at `value` for `key`. Where nothing was
    /// remembered for `key`, that library is what is found for it from
    /// then on.
    pub fn insert_object(&mut self, key: PtrLinkTarget, value: usize)
        ensures
            final(self)@ == old(self)@.insert_object(key.0, value),
            final(self)@.tidy(),
            old(self)@.get(key.0) is None ==> final(self)@.get(key.0) == Some(
                LinkPtr::Object(value),
            ),
    {
        let mut taken = StarLinkTargetCache::new();
        core::mem::swap(self, &mut taken);
        proof {
            use_type_invariant(&taken);
        }
        let ghost before = taken@;
        let StarLinkTargetCache {
            mut all_targets,
            mut static_libs,
            mut object_libs,
            mut interface_libs,
        } = taken;
        all_targets.insert(key.0);
        object_libs.insert(key.0, value);
        proof {
            let after = CacheView {
                all_targets: all_targets@,
                static_libs: static_libs@,
                object_libs: object_libs@,
                interface_libs: interface_libs@,
            };
            if before.get(key.0) is None {
                assert(!before.static_libs.contains_key(key.0));
                assert(!before.object_libs.contains_key(key.0));
                assert(!before.interface_libs.contains_key(key.0));
            }
            assert forall|k: usize| #[trigger] after.static_libs.contains_key(k) implies after
                .all_targets.contains(k) by {
                if k != key.0 {
                    assert(before.static_libs.contains_key(k));
                }
            }
            assert forall|k: usize| #[trigger] after.object_libs.contains_key(k) implies after
                .all_targets.contains(k) by {
                if k != key.0 {
                    assert(before.object_libs.contains_key(k));
                }
            }
            assert forall|k: usize| #[trigger] after.interface_libs.contains_key(k) implies after
                .all_targets.contains(k) by {
                if k != key.0 {
                    assert(before.interface_libs.contains_key(k));
                }
            }
        }
        *self = StarLinkTargetCache { all_targets, static_libs, object_libs, interface_libs };
    }

    /// Remembers the interface library at `value` for `key`. Where nothing was
    /// remembered for `key`, that library is what is found for it from
    /// then on.
    pub fn insert_interface(&mut self, key: PtrLinkTarget, value: usize)
        ensures
            final(self)@ == old(self)@.insert_interface(key.0, value),
            final(self)@.tidy(),
            old(self)@.get(key.0) is None ==> final(self)@.get(key.0) == Some(
                LinkPtr::Interface(value),
            ),
    {
        let mut taken = StarLinkTargetCache::new();
        core::mem::swap(self, &mut taken);
        proof {
            use_type_invariant(&taken);
        }
        let ghost before = taken@;
        let StarLinkTargetCache {
            mut all_targets,
            mut static_libs,
            mut object_libs,
            mut interface_libs,
        } = taken;
        all_targets.insert(key.0);
        interface_libs.insert(key.0, value);
        proof {
            let after = CacheView {
                all_targets: all_targets@,
                static_libs: static_libs@,
                object_libs: object_libs@,
                interface_libs: interface_libs@,
            };
            if before.get(key.0) is None {
                assert(!before.static_libs.contains_key(key.0));
                assert(!before.object_libs.contains_key(key.0));
                assert(!before.interface_libs.contains_key(key.0));
            }
            assert forall|k: usize| #[trigger] after.static_libs.contains_key(k) implies after
                .all_targets.contains(k) by {
                if k != key.0 {
                    assert(before.static_libs.contains_key(k));
                }
            }
            assert forall|k: usize| #[trigger] after.object_libs.contains_key(k) implies after
                .all_targets.contains(k) by {
                if k != key.0 {
                    assert(before.object_libs.contains_key(k));
                }
            }
            assert forall|k: usize| #[trigger] after.interface_libs.contains_key(k) implies after
                .all_targets.contains(k) by {
                if k != key.0 {
                    assert(before.interface_libs.contains_key(k));
                }
            }
        }
        *self = StarLinkTargetCache { all_targets, static_libs, object_libs, interface_libs };
    }
}


/// How far turning declarations into libraries has got: what is
/// remembered, how many libraries the graph holds, and what the generator
/// function of each of them added.
pub struct Conversion {
    pub cache: CacheView,
    pub next: int,
    pub vars: Seq<Option<GeneratorVarsView>>,
}

impl Conversion {
    /// Nothing remembered, and no library made.
    pub open spec fn start() -> Conversion {
        Conversion { cache: CacheView::empty(), next: 0, vars: Seq::empty() }
    }

    /// How far it has got when `cache` is what is remembered and `nodes`
    /// are the libraries of the graph.
    pub open spec fn of(cache: CacheView, nodes: Seq<LinkNode>) -> Conversion {
        Conversion { cache, next: nodes.len() as int, vars: made_vars(nodes) }
    }
}

/// What the generator function of a library added, where it has one.
pub open spec fn node_vars(node: LinkNode) -> Option<GeneratorVarsView> {
    match node {
        LinkNode::Static(x) => vars_view(x.generator_vars),
        LinkNode::Object(x) => vars_view(x.generator_vars),
        LinkNode::Interface(_) => None,
    }
}

/// What the generator functions of the libraries `nodes` added, library
/// by library.
pub open spec fn made_vars(nodes: Seq<LinkNode>) -> Seq<Option<GeneratorVarsView>> {
    Seq::new(nodes.len(), |i: int| node_vars(nodes[i]))
}

/// The message for a link that names no declaration made before the
/// library that links it.
pub open spec fn undeclared_link_message() -> Seq<char> {
    "Link target is not declared"@
}

/// The library that the declaration `key` stands for. A declaration that
/// was met before is remembered and not turned into a library again;
/// otherwise its links are followed first, its private links before its
/// public ones, and then the library is put into the graph and
/// remembered. Only declarations below `bound` can be turned.
pub open spec fn materialized(
    decls: Seq<StarLinkTarget>,
    gens: Seq<(String, GeneratorVars)>,
    key: usize,
    bound: int,
    st: Conversion,
) -> Result<(LinkPtr, Conversion), Seq<char>>
    decreases bound, 0int,
{
    match st.cache.get(key) {
        Some(ptr) => Ok((ptr, st)),
        None => if !(key < bound && key < decls.len()) {
            Err(undeclared_link_message())
        } else {
            match decls[key as int] {
                StarLinkTarget::Static(d) => match first_unknown(path_views(d.sources@)) {
                    Some(i) => Err(unknown_source_message(path_views(d.sources@)[i].name)),
                    None => match linked(decls, gens, d.link_private@, key as int, st) {
                        Err(e) => Err(e),
                        Ok((_, s1)) => match linked(
                            decls,
                            gens,
                            d.link_public@,
                            key as int,
                            s1,
                        ) {
                            Err(e) => Err(e),
                            Ok((_, s2)) => match resolved_vars(gens, d.generator_vars) {
                                Err(e) => Err(e),
                                Ok(v) => Ok(
                                    (
                                        LinkPtr::Static(s2.next as usize),
                                        Conversion {
                                            cache: s2.cache.insert_static(key, s2.next as usize),
                                            next: s2.next + 1,
                                            vars: s2.vars.push(v),
                                        },
                                    ),
                                ),
                            },
                        },
                    },
                },
                StarLinkTarget::Object(d) => match first_unknown(path_views(d.sources@)) {
                    Some(i) => Err(unknown_source_message(path_views(d.sources@)[i].name)),
                    None => match linked(decls, gens, d.link_private@, key as int, st) {
                        Err(e) => Err(e),
                        Ok((_, s1)) => match linked(
                            decls,
                            gens,
                            d.link_public@,
                            key as int,
                            s1,
                        ) {
                            Err(e) => Err(e),
                            Ok((_, s2)) => match resolved_vars(gens, d.generator_vars) {
                                Err(e) => Err(e),
                                Ok(v) => Ok(
                                    (
                                        LinkPtr::Object(s2.next as usize),
                                        Conversion {
                                            cache: s2.cache.insert_object(key, s2.next as usize),
                                            next: s2.next + 1,
                                            vars: s2.vars.push(v),
                                        },
                                    ),
                                ),
                            },
                        },
                    },
                },
                StarLinkTarget::Interface(d) => match linked(
                    decls,
                    gens,
                    d.links@,
                    key as int,
                    st,
                ) {
                    Err(e) => Err(e),
                    Ok((_, s1)) => Ok(
                        (
                            LinkPtr::Interface(s1.next as usize),
                            Conversion {
                                cache: s1.cache.insert_interface(key, s1.next as usize),
                                next: s1.next + 1,
                                vars: s1.vars.push(None),
                            },
                        ),
                    ),
                },
            }
        },
    }
}

/// The libraries that the declarations `links` stand for, in turn.
pub open spec fn linked(
    decls: Seq<StarLinkTarget>,
    gens: Seq<(String, GeneratorVars)>,
    links: Seq<PtrLinkTarget>,
    bound: int,
    st: Conversion,
) -> Result<(Seq<LinkPtr>, Conversion), Seq<char>>
    decreases bound, 1 + links.len(),
{
    if links.len() == 0 {
        Ok((Seq::empty(), st))
    } else {
        match linked(decls, gens, links.drop_last(), bound, st) {
            Err(e) => Err(e),
            Ok((head, s)) => match materialized(decls, gens, links.last().0, bound, s) {
                Err(e) => Err(e),
                Ok((ptr, s2)) => Ok((head.push(ptr), s2)),
            },
        }
    }
}

/// A failure among the first `n` links is the failure of the whole list.
pub proof fn lemma_linked_prefix(
    decls: Seq<StarLinkTarget>,
    gens: Seq<(String, GeneratorVars)>,
    links: Seq<PtrLinkTarget>,
    bound: int,
    st: Conversion,
    n: int,
)
    requires
        0 <= n <= links.len(),
        linked(decls, gens, links.take(n), bound, st) is Err,
    ensures
        linked(decls, gens, links, bound, st) == linked(decls, gens, links.take(n), bound, st),
    decreases links.len() - n,
{
    if n < links.len() {
        assert(links.take(n + 1).drop_last() =~= links.take(n));
        lemma_linked_prefix(decls, gens, links, bound, st, n + 1);
    } else {
        assert(links.take(n) =~= links);
    }
}

/// Whether `made` holds, link by link, the libraries that the cache
/// remembers for the declarations `declared`.
pub open spec fn link_images(
    cache: CacheView,
    declared: Seq<PtrLinkTarget>,
    made: Seq<LinkPtr>,
) -> bool {
    &&& declared.len() == made.len()
    &&& forall|j: int|
        0 <= j < declared.len() ==> cache.get((#[trigger] declared[j]).0) == Some(made[j])
}

/// Whether `node` is the library that `decl` stands for: every setting
/// as declared, the sources sorted by language, and every link the
/// library that the cache remembers for the declared link.
pub open spec fn node_agrees(node: LinkNode, decl: StarLinkTarget, cache: CacheView) -> bool {
    match decl {
        StarLinkTarget::Static(d) => node matches LinkNode::Static(x) && d.is_image(
            &x,
            SourcesView::split(path_views(d.sources@)),
            x.link_private@,
            x.link_public@,
            vars_view(x.generator_vars),
        ) && link_images(cache, d.link_private@, x.link_private@) && link_images(
            cache,
            d.link_public@,
            x.link_public@,
        ) && (x.generator_vars is Some <==> d.generator_vars is Some),
        StarLinkTarget::Object(d) => node matches LinkNode::Object(x) && d.is_image(
            &x,
            SourcesView::split(path_views(d.sources@)),
            x.link_private@,
            x.link_public@,
            vars_view(x.generator_vars),
        ) && link_images(cache, d.link_private@, x.link_private@) && link_images(
            cache,
            d.link_public@,
            x.link_public@,
        ) && (x.generator_vars is Some <==> d.generator_vars is Some),
        StarLinkTarget::Interface(d) => node matches LinkNode::Interface(x) && d.is_image(
            &x,
            x.links@,
        ) && link_images(cache, d.links@, x.links@),
    }
}

/// Whether cache and graph agree: every remembered declaration stands
/// for a library of the graph that is what the declaration says, and no
/// two declarations stand for the same library.
pub open spec fn well_kept(
    decls: Seq<StarLinkTarget>,
    cache: CacheView,
    nodes: Seq<LinkNode>,
) -> bool {
    &&& cache.tidy()
    &&& forall|key: usize|
        (#[trigger] cache.get(key)) matches Some(p) ==> key < decls.len() && names(nodes, p)
            && node_agrees(nodes[p.spec_index()], decls[key as int], cache)
    &&& forall|k1: usize, k2: usize|
        (#[trigger] cache.get(k1)) is Some && (#[trigger] cache.get(k2)) is Some && k1 != k2
            ==> cache.get(k1)->0.spec_index() != cache.get(k2)->0.spec_index()
}

/// Whether `after` remembers all that `before` remembers, and differs
/// from it only for declarations below `bound`.
pub open spec fn grows_below(before: CacheView, after: CacheView, bound: int) -> bool {
    forall|key: usize|
        (before.get(key) is Some || key >= bound) ==> #[trigger] after.get(key) == before.get(key)
}

/// What holds when declarations were turned into libraries: cache and
/// graph agree as before, nothing that was remembered has changed, and
/// the graph has only grown.
pub open spec fn carried_on(
    decls: Seq<StarLinkTarget>,
    bound: int,
    cache0: CacheView,
    nodes0: Seq<LinkNode>,
    cache1: CacheView,
    nodes1: Seq<LinkNode>,
) -> bool {
    &&& well_kept(decls, cache1, nodes1)
    &&& grows_below(cache0, cache1, bound)
    &&& nodes0.is_prefix_of(nodes1)
}


/// Remembering a new library for a declaration that nothing was
/// remembered for keeps cache and graph in agreement.
pub proof fn lemma_insert_keeps(
    decls: Seq<StarLinkTarget>,
    cache: CacheView,
    nodes: Seq<LinkNode>,
    key: usize,
    node: LinkNode,
    ptr: LinkPtr,
)
    requires
        well_kept(decls, cache, nodes),
        cache.get(key) is None,
        key < decls.len(),
        ptr.spec_index() == nodes.len(),
        node.is_kind_of(ptr),
        node_agrees(node, decls[key as int], cache),
    ensures
        well_kept(decls, cache.insert(key, ptr), nodes.push(node)),
        grows_below(cache, cache.insert(key, ptr), key + 1),
        cache.insert(key, ptr).get(key) == Some(ptr),
{
    let after = cache.insert(key, ptr);
    let grown = nodes.push(node);
    assert(!cache.static_libs.contains_key(key));
    assert(!cache.object_libs.contains_key(key));
    assert(!cache.interface_libs.contains_key(key));
    assert(after.get(key) == Some(ptr));
    assert forall|k: usize| k != key implies #[trigger] after.get(k) == cache.get(k) by {}
    assert(after.tidy());
    assert forall|k: usize| (#[trigger] after.get(k)) is Some implies k < decls.len() && names(
        grown,
        after.get(k)->0,
    ) && node_agrees(grown[after.get(k)->0.spec_index()], decls[k as int], after) by {
        let p = after.get(k)->0;
        if k == key {
            assert(grown[p.spec_index()] == node);
            lemma_agrees_after(node, decls[key as int], cache, after, key);
        } else {
            assert(cache.get(k) == Some(p));
            assert(names(nodes, p));
            assert(grown[p.spec_index()] == nodes[p.spec_index()]);
            lemma_agrees_after(nodes[p.spec_index()], decls[k as int], cache, after, key);
        }
    }
    assert forall|k1: usize, k2: usize|
        (#[trigger] after.get(k1)) is Some && (#[trigger] after.get(k2)) is Some && k1
            != k2 implies after.get(k1)->0.spec_index() != after.get(k2)->0.spec_index() by {
        if k1 != key {
            assert(cache.get(k1) == after.get(k1));
            assert(names(nodes, cache.get(k1)->0));
        }
        if k2 != key {
            assert(cache.get(k2) == after.get(k2));
            assert(names(nodes, cache.get(k2)->0));
        }
    }
}

/// A library that agrees with its declaration still does so when a
/// library is remembered for a declaration that nothing was remembered
/// for.
pub proof fn lemma_agrees_after(
    node: LinkNode,
    decl: StarLinkTarget,
    cache: CacheView,
    after: CacheView,
    key: usize,
)
    requires
        node_agrees(node, decl, cache),
        cache.get(key) is None,
        forall|k: usize| k != key ==> #[trigger] after.get(k) == cache.get(k),
    ensures
        node_agrees(node, decl, after),
{
    match decl {
        StarLinkTarget::Static(d) => {
            let x = node->Static_0;
            lemma_images_after(cache, after, key, d.link_private@, x.link_private@);
            lemma_images_after(cache, after, key, d.link_public@, x.link_public@);
        },
        StarLinkTarget::Object(d) => {
            let x = node->Object_0;
            lemma_images_after(cache, after, key, d.link_private@, x.link_private@);
            lemma_images_after(cache, after, key, d.link_public@, x.link_public@);
        },
        StarLinkTarget::Interface(d) => {
            let x = node->Interface_0;
            lemma_images_after(cache, after, key, d.links@, x.links@);
        },
    }
}

/// Links that the cache remembers stay the same links when a library is
/// remembered for a declaration that nothing was remembered for.
pub proof fn lemma_images_after(
    cache: CacheView,
    after: CacheView,
    key: usize,
    declared: Seq<PtrLinkTarget>,
    made: Seq<LinkPtr>,
)
    requires
        link_images(cache, declared, made),
        cache.get(key) is None,
        forall|k: usize| k != key ==> #[trigger] after.get(k) == cache.get(k),
    ensures
        link_images(after, declared, made),
{
    assert forall|j: int| 0 <= j < declared.len() implies after.get((#[trigger] declared[j]).0)
        == Some(made[j]) by {
        assert(cache.get(declared[j].0) == Some(made[j]));
        assert(declared[j].0 != key);
    }
}

/// Links that the cache remembers stay the same links when the cache
/// grows.
pub proof fn lemma_images_grow(
    cache: CacheView,
    after: CacheView,
    bound: int,
    declared: Seq<PtrLinkTarget>,
    made: Seq<LinkPtr>,
)
    requires
        link_images(cache, declared, made),
        grows_below(cache, after, bound),
    ensures
        link_images(after, declared, made),
{
    assert forall|j: int| 0 <= j < declared.len() implies after.get((#[trigger] declared[j]).0)
        == Some(made[j]) by {
        assert(cache.get(declared[j].0) == Some(made[j]));
        assert(after.get(declared[j].0) == cache.get(declared[j].0));
    }
}

/// Growing twice is growing.
pub proof fn lemma_grows_twice(a: CacheView, b: CacheView, c: CacheView, low: int, bound: int)
    requires
        grows_below(a, b, low),
        grows_below(b, c, bound),
        low <= bound,
    ensures
        grows_below(a, c, bound),
{
    assert forall|key: usize| (a.get(key) is Some || key >= bound) implies #[trigger] c.get(key)
        == a.get(key) by {
        assert(b.get(key) == a.get(key));
        assert(c.get(key) == b.get(key));
    }
}

/// The libraries that the cache remembers for links are libraries of the
/// graph.
pub proof fn lemma_images_named(
    decls: Seq<StarLinkTarget>,
    cache: CacheView,
    nodes: Seq<LinkNode>,
    declared: Seq<PtrLinkTarget>,
    made: Seq<LinkPtr>,
)
    requires
        well_kept(decls, cache, nodes),
        link_images(cache, declared, made),
    ensures
        crate::graph::links_below(nodes, made, nodes.len() as int),
{
    assert forall|i: int| 0 <= i < made.len() implies names(nodes, #[trigger] made[i])
        && made[i].spec_index() < nodes.len() by {
        assert(cache.get(declared[i].0) == Some(made[i]));
    }
}


/// Gives the library that the declaration `key` stands for. A declaration
/// that was met before is found in the cache; another is turned into a
/// library, its links first, put into the graph and remembered.
pub(crate) fn materialize(
    decls: &Vec<StarLinkTarget>,
    gens: &Vec<(String, GeneratorVars)>,
    key: PtrLinkTarget,
    bound: usize,
    link_map: &mut StarLinkTargetCache,
    graph: &mut TargetGraph,
) -> (r: Result<LinkPtr, String>)
    requires
        well_kept(decls@, old(link_map)@, old(graph)@),
    ensures
        match materialized(
            decls@,
            gens@,
            key.0,
            bound as int,
            Conversion::of(old(link_map)@, old(graph)@),
        ) {
            Ok((ptr, c)) => r == Ok::<LinkPtr, String>(ptr) && final(link_map)@ == c.cache
                && final(graph)@.len() == c.next && made_vars(final(graph)@) == c.vars
                && carried_on(
                decls@,
                bound as int,
                old(link_map)@,
                old(graph)@,
                final(link_map)@,
                final(graph)@,
            ) && final(link_map)@.get(key.0) == Some(ptr),
            Err(e) => r matches Err(m) && m@ == e && arrived(
                decls@,
                bound as int,
                old(link_map)@,
                old(graph)@,
                final(link_map)@,
                final(graph)@,
                materialized_reached(
                    decls@,
                    gens@,
                    key.0,
                    bound as int,
                    Conversion::of(old(link_map)@, old(graph)@),
                ),
            ),
        },
    decreases bound, 0int,
{
    if let Some(ptr) = link_map.get(&key) {
        return Ok(ptr);
    }
    if !(key.0 < bound && key.0 < decls.len()) {
        return Err("Link target is not declared".to_owned());
    }
    let ghost c0 = link_map@;
    let ghost n0 = graph@;
    match &decls[key.0] {
        StarLinkTarget::Static(d) => {
            let sources = match Sources::from_slice(clone_paths(&d.sources)) {
                Ok(x) => x,
                Err(e) => {
                    return Err(e);
                },
            };
            let link_private = match link_targets(
                decls,
                gens,
                &d.link_private,
                key.0,
                link_map,
                graph,
            ) {
                Ok(x) => x,
                Err(e) => {
                    proof {
                        lemma_carried_wider(
                            decls@,
                            key.0 as int,
                            bound as int,
                            c0,
                            n0,
                            link_map@,
                            graph@,
                        );
                    }
                    return Err(e);
                },
            };
            let ghost c1 = link_map@;
            let ghost n1 = graph@;
            let link_public = match link_targets(
                decls,
                gens,
                &d.link_public,
                key.0,
                link_map,
                graph,
            ) {
                Ok(x) => x,
                Err(e) => {
                    proof {
                        lemma_carried_on_twice(
                            decls@,
                            key.0 as int,
                            c0,
                            n0,
                            c1,
                            n1,
                            link_map@,
                            graph@,
                        );
                        lemma_carried_wider(
                            decls@,
                            key.0 as int,
                            bound as int,
                            c0,
                            n0,
                            link_map@,
                            graph@,
                        );
                    }
                    return Err(e);
                },
            };
            let ghost c2 = link_map@;
            let ghost n2 = graph@;
            let lib = match d.as_library(sources, link_private, link_public, gens) {
                Ok(x) => x,
                Err(e) => {
                    proof {
                        lemma_carried_on_twice(decls@, key.0 as int, c0, n0, c1, n1, c2, n2);
                        lemma_carried_wider(decls@, key.0 as int, bound as int, c0, n0, c2, n2);
                        lemma_linked_arrives(
                            decls@,
                            gens@,
                            d.link_public@,
                            key.0 as int,
                            Conversion::of(c1, n1),
                        );
                    }
                    return Err(e);
                },
            };
            proof {
                lemma_images_grow(c1, c2, key.0 as int, d.link_private@, link_private@);
                lemma_grows_twice(c0, c1, c2, key.0 as int, key.0 as int);
                lemma_images_named(decls@, c2, n2, d.link_private@, link_private@);
                lemma_images_named(decls@, c2, n2, d.link_public@, link_public@);
                assert(c2.get(key.0) == c0.get(key.0));
            }
            let ghost node = LinkNode::Static(lib);
            let ptr = match graph.add_static_library(lib) {
                Ok(p) => p,
                Err(_) => vstd::pervasive::unreached(),
            };
            link_map.insert_static(key, ptr.index());
            proof {
                lemma_insert_keeps(decls@, c2, n2, key.0, node, ptr);
                lemma_grows_twice(c0, c2, link_map@, key.0 as int, bound as int);
            }
            Ok(ptr)
        },
        StarLinkTarget::Object(d) => {
            let sources = match Sources::from_slice(clone_paths(&d.sources)) {
                Ok(x) => x,
                Err(e) => {
                    return Err(e);
                },
            };
            let link_private = match link_targets(
                decls,
                gens,
                &d.link_private,
                key.0,
                link_map,
                graph,
            ) {
                Ok(x) => x,
                Err(e) => {
                    proof {
                        lemma_carried_wider(
                            decls@,
                            key.0 as int,
                            bound as int,
                            c0,
                            n0,
                            link_map@,
                            graph@,
                        );
                    }
                    return Err(e);
                },
            };
            let ghost c1 = link_map@;
            let ghost n1 = graph@;
            let link_public = match link_targets(
                decls,
                gens,
                &d.link_public,
                key.0,
                link_map,
                graph,
            ) {
                Ok(x) => x,
                Err(e) => {
                    proof {
                        lemma_carried_on_twice(
                            decls@,
                            key.0 as int,
                            c0,
                            n0,
                            c1,
                            n1,
                            link_map@,
                            graph@,
                        );
                        lemma_carried_wider(
                            decls@,
                            key.0 as int,
                            bound as int,
                            c0,
                            n0,
                            link_map@,
                            graph@,
                        );
                    }
                    return Err(e);
                },
            };
            let ghost c2 = link_map@;
            let ghost n2 = graph@;
            let lib = match d.as_library(sources, link_private, link_public, gens) {
                Ok(x) => x,
                Err(e) => {
                    proof {
                        lemma_carried_on_twice(decls@, key.0 as int, c0, n0, c1, n1, c2, n2);
                        lemma_carried_wider(decls@, key.0 as int, bound as int, c0, n0, c2, n2);
                        lemma_linked_arrives(
                            decls@,
                            gens@,
                            d.link_public@,
                            key.0 as int,
                            Conversion::of(c1, n1),
                        );
                    }
                    return Err(e);
                },
            };
            proof {
                lemma_images_grow(c1, c2, key.0 as int, d.link_private@, link_private@);
                lemma_grows_twice(c0, c1, c2, key.0 as int, key.0 as int);
                lemma_images_named(decls@, c2, n2, d.link_private@, link_private@);
                lemma_images_named(decls@, c2, n2, d.link_public@, link_public@);
                assert(c2.get(key.0) == c0.get(key.0));
            }
            let ghost node = LinkNode::Object(lib);
            let ptr = match graph.add_object_library(lib) {
                Ok(p) => p,
                Err(_) => vstd::pervasive::unreached(),
            };
            link_map.insert_object(key, ptr.index());
            proof {
                lemma_insert_keeps(decls@, c2, n2, key.0, node, ptr);
                lemma_grows_twice(c0, c2, link_map@, key.0 as int, bound as int);
            }
            Ok(ptr)
        },
        StarLinkTarget::Interface(d) => {
            let links = match link_targets(decls, gens, &d.links, key.0, link_map, graph) {
                Ok(x) => x,
                Err(e) => {
                    proof {
                        lemma_carried_wider(
                            decls@,
                            key.0 as int,
                            bound as int,
                            c0,
                            n0,
                            link_map@,
                            graph@,
                        );
                    }
                    return Err(e);
                },
            };
            let ghost c1 = link_map@;
            let ghost n1 = graph@;
            let lib = d.as_library(links);
            proof {
                lemma_images_named(decls@, c1, n1, d.links@, links@);
                assert(c1.get(key.0) == c0.get(key.0));
            }
            let ghost node = LinkNode::Interface(lib);
            let ptr = match graph.add_interface_library(lib) {
                Ok(p) => p,
                Err(_) => vstd::pervasive::unreached(),
            };
            link_map.insert_interface(key, ptr.index());
            proof {
                lemma_insert_keeps(decls@, c1, n1, key.0, node, ptr);
                lemma_grows_twice(c0, c1, link_map@, key.0 as int, bound as int);
            }
            Ok(ptr)
        },
    }
}

/// Gives the libraries that the declarations `links` stand for, in turn.
pub(crate) fn link_targets(
    decls: &Vec<StarLinkTarget>,
    gens: &Vec<(String, GeneratorVars)>,
    links: &Vec<PtrLinkTarget>,
    bound: usize,
    link_map: &mut StarLinkTargetCache,
    graph: &mut TargetGraph,
) -> (r: Result<Vec<LinkPtr>, String>)
    requires
        well_kept(decls@, old(link_map)@, old(graph)@),
    ensures
        match linked(
            decls@,
            gens@,
            links@,
            bound as int,
            Conversion::of(old(link_map)@, old(graph)@),
        ) {
            Ok((ptrs, c)) => r matches Ok(v) && v@ == ptrs && final(link_map)@ == c.cache
                && final(graph)@.len() == c.next && made_vars(final(graph)@) == c.vars
                && carried_on(
                decls@,
                bound as int,
                old(link_map)@,
                old(graph)@,
                final(link_map)@,
                final(graph)@,
            ) && link_images(final(link_map)@, links@, v@),
            Err(e) => r matches Err(m) && m@ == e && arrived(
                decls@,
                bound as int,
                old(link_map)@,
                old(graph)@,
                final(link_map)@,
                final(graph)@,
                linked_reached(
                    decls@,
                    gens@,
                    links@,
                    bound as int,
                    Conversion::of(old(link_map)@, old(graph)@),
                ),
            ),
        },
    decreases bound, 1int,
{
    let ghost c0 = link_map@;
    let ghost n0 = graph@;
    let ghost st = Conversion::of(c0, n0);
    let mut out: Vec<LinkPtr> = Vec::new();
    let mut i: usize = 0;
    while i < links.len()
        invariant
            i <= links@.len(),
            c0 == old(link_map)@,
            n0 == old(graph)@,
            st == Conversion::of(c0, n0),
            linked(decls@, gens@, links@.take(i as int), bound as int, st) == Ok::<
                (Seq<LinkPtr>, Conversion),
                Seq<char>,
            >((out@, Conversion::of(link_map@, graph@))),
            carried_on(decls@, bound as int, c0, n0, link_map@, graph@),
            link_images(link_map@, links@.take(i as int), out@),
        decreases links@.len() - i,
    {
        proof {
            assert(links@.take(i + 1).drop_last() =~= links@.take(i as int));
            assert(links@.take(i + 1).last() == links@[i as int]);
        }
        let ghost ci = link_map@;
        let ghost ni = graph@;
        let ghost outi = out@;
        let ptr = match materialize(decls, gens, links[i], bound, link_map, graph) {
            Ok(p) => p,
            Err(e) => {
                proof {
                    lemma_linked_prefix(decls@, gens@, links@, bound as int, st, i + 1);
                    lemma_linked_stop(decls@, gens@, links@, bound as int, st, i + 1);
                    lemma_carried_on_twice(
                        decls@,
                        bound as int,
                        c0,
                        n0,
                        ci,
                        ni,
                        link_map@,
                        graph@,
                    );
                }
                return Err(e);
            },
        };
        out.push(ptr);
        proof {
            lemma_grows_twice(c0, ci, link_map@, bound as int, bound as int);
            lemma_images_grow(ci, link_map@, bound as int, links@.take(i as int), outi);
            let next = links@.take(i + 1);
            assert forall|j: int| 0 <= j < next.len() implies link_map@.get(
                (#[trigger] next[j]).0,
            ) == Some(out@[j]) by {
                if j < i {
                    assert(links@.take(i as int)[j] == next[j]);
                }
            }
        }
        i += 1;
    }
    assert(links@.take(links@.len() as int) =~= links@);
    Ok(out)
}


/// A project as declared: its name and root, the projects it depends on,
/// its programs, its libraries by their identity, and its generator
/// functions by name. In a project that is in order no name of a
/// generator function stands twice; where one does, the first of that
/// name counts.
#[derive(Debug)]
pub struct StarProject {
    pub name: String,
    pub path: String,
    pub dependencies: Vec<StarProject>,
    pub executables: Vec<StarExecutable>,
    pub static_libraries: Vec<PtrLinkTarget>,
    pub object_libraries: Vec<PtrLinkTarget>,
    pub interface_libraries: Vec<PtrLinkTarget>,
    pub generator_names: Vec<(String, GeneratorVars)>,
}

/// Whether no name stands twice among the generator functions `gens`.
pub open spec fn distinct_generators(gens: Seq<(String, GeneratorVars)>) -> bool {
    forall|i: int, j: int|
        #![trigger gens[i], gens[j]]
        0 <= i < j < gens.len() ==> gens[i].0@ != gens[j].0@
}

/// Whether a declared project is in order: no name stands twice among
/// its generator functions, and the projects it depends on are in order.
pub open spec fn project_in_order(project: StarProject) -> bool
    decreases project,
{
    &&& distinct_generators(project.generator_names@)
    &&& forall|i: int|
        0 <= i < project.dependencies@.len() ==> project_in_order(
            #[trigger] project.dependencies@[i],
        )
}

/// Whether no name stands twice among the generator functions `gens`.
pub fn generators_are_distinct(gens: &Vec<(String, GeneratorVars)>) -> (r: bool)
    ensures
        r == distinct_generators(gens@),
{
    let mut j: usize = 0;
    while j < gens.len()
        invariant
            j <= gens@.len(),
            forall|a: int, b: int|
                #![trigger gens@[a], gens@[b]]
                0 <= a < b < j ==> gens@[a].0@ != gens@[b].0@,
        decreases gens@.len() - j,
    {
        let mut i: usize = 0;
        while i < j
            invariant
                i <= j < gens@.len(),
                forall|a: int|
                    #![trigger gens@[a]]
                    0 <= a < i ==> gens@[a].0@ != gens@[j as int].0@,
            decreases j - i,
        {
            if crate::text::str_eq(gens[i].0.as_str(), gens[j].0.as_str()) {
                assert(gens@[i as int].0@ == gens@[j as int].0@);
                return false;
            }
            i += 1;
        }
        j += 1;
    }
    true
}

/// The message for a library that a project lists under a kind that it
/// was not declared as.
pub open spec fn wrong_kind_message(name: Seq<char>, kind: LinkKind) -> Seq<char> {
    "\""@ + name + "\" is not "@ + kind.spec_noun()
}

/// The libraries that a project lists under `kind`, in turn: each is
/// looked up or made, and has to be of that kind.
pub open spec fn listed(
    decls: Seq<StarLinkTarget>,
    gens: Seq<(String, GeneratorVars)>,
    ptrs: Seq<PtrLinkTarget>,
    kind: LinkKind,
    st: Conversion,
) -> Result<Conversion, Seq<char>>
    decreases ptrs.len(),
{
    if ptrs.len() == 0 {
        Ok(st)
    } else {
        match listed(decls, gens, ptrs.drop_last(), kind, st) {
            Err(e) => Err(e),
            Ok(s) => match materialized(decls, gens, ptrs.last().0, decls.len() as int, s) {
                Err(e) => Err(e),
                Ok((ptr, s2)) => if kind.spec_holds(ptr) {
                    Ok(s2)
                } else {
                    Err(wrong_kind_message(decls[ptrs.last().0 as int].spec_name(), kind))
                },
            },
        }
    }
}

/// A declared program: its sources have to be of known languages, its
/// links are looked up or made, and its generator function has to be
/// declared.
pub open spec fn executable_made(
    decls: Seq<StarLinkTarget>,
    gens: Seq<(String, GeneratorVars)>,
    exe: StarExecutable,
    st: Conversion,
) -> Result<Conversion, Seq<char>> {
    match first_unknown(path_views(exe.sources@)) {
        Some(i) => Err(unknown_source_message(path_views(exe.sources@)[i].name)),
        None => match linked(decls, gens, exe.links@, decls.len() as int, st) {
            Err(e) => Err(e),
            Ok((_, s)) => match resolved_vars(gens, exe.generator_vars) {
                Err(e) => Err(e),
                Ok(_) => Ok(s),
            },
        },
    }
}

/// The declared programs `exes`, in turn.
pub open spec fn executables_made(
    decls: Seq<StarLinkTarget>,
    gens: Seq<(String, GeneratorVars)>,
    exes: Seq<StarExecutable>,
    st: Conversion,
) -> Result<Conversion, Seq<char>>
    decreases exes.len(),
{
    if exes.len() == 0 {
        Ok(st)
    } else {
        match executables_made(decls, gens, exes.drop_last(), st) {
            Err(e) => Err(e),
            Ok(s) => executable_made(decls, gens, exes.last(), s),
        }
    }
}

/// The first `n` projects that `project` depends on, in turn.
pub open spec fn dependencies_made(
    decls: Seq<StarLinkTarget>,
    project: StarProject,
    n: int,
    st: Conversion,
) -> Result<Conversion, Seq<char>>
    decreases project, n,
{
    if n <= 0 || n > project.dependencies@.len() {
        Ok(st)
    } else {
        match dependencies_made(decls, project, n - 1, st) {
            Err(e) => Err(e),
            Ok(s) => project_made(decls, project.dependencies@[n - 1], s),
        }
    }
}

/// A declared project: first the projects it depends on, then its
/// programs, its static libraries, its object libraries and its
/// interface libraries. The first failure ends it.
pub open spec fn project_made(
    decls: Seq<StarLinkTarget>,
    project: StarProject,
    st: Conversion,
) -> Result<Conversion, Seq<char>>
    decreases project,
{
    match dependencies_made(decls, project, project.dependencies@.len() as int, st) {
        Err(e) => Err(e),
        Ok(s0) => match executables_made(
            decls,
            project.generator_names@,
            project.executables@,
            s0,
        ) {
            Err(e) => Err(e),
            Ok(s1) => match listed(
                decls,
                project.generator_names@,
                project.static_libraries@,
                LinkKind::Static,
                s1,
            ) {
                Err(e) => Err(e),
                Ok(s2) => match listed(
                    decls,
                    project.generator_names@,
                    project.object_libraries@,
                    LinkKind::Object,
                    s2,
                ) {
                    Err(e) => Err(e),
                    Ok(s3) => listed(
                        decls,
                        project.generator_names@,
                        project.interface_libraries@,
                        LinkKind::Interface,
                        s3,
                    ),
                },
            },
        },
    }
}

/// A failure among the first `n` listed libraries is the failure of all.
pub proof fn lemma_listed_prefix(
    decls: Seq<StarLinkTarget>,
    gens: Seq<(String, GeneratorVars)>,
    ptrs: Seq<PtrLinkTarget>,
    kind: LinkKind,
    st: Conversion,
    n: int,
)
    requires
        0 <= n <= ptrs.len(),
        listed(decls, gens, ptrs.take(n), kind, st) is Err,
    ensures
        listed(decls, gens, ptrs, kind, st) == listed(decls, gens, ptrs.take(n), kind, st),
    decreases ptrs.len() - n,
{
    if n < ptrs.len() {
        assert(ptrs.take(n + 1).drop_last() =~= ptrs.take(n));
        lemma_listed_prefix(decls, gens, ptrs, kind, st, n + 1);
    } else {
        assert(ptrs.take(n) =~= ptrs);
    }
}

/// A failure among the first `n` programs is the failure of all.
pub proof fn lemma_executables_made_prefix(
    decls: Seq<StarLinkTarget>,
    gens: Seq<(String, GeneratorVars)>,
    exes: Seq<StarExecutable>,
    st: Conversion,
    n: int,
)
    requires
        0 <= n <= exes.len(),
        executables_made(decls, gens, exes.take(n), st) is Err,
    ensures
        executables_made(decls, gens, exes, st) == executables_made(decls, gens, exes.take(n), st),
    decreases exes.len() - n,
{
    if n < exes.len() {
        assert(exes.take(n + 1).drop_last() =~= exes.take(n));
        lemma_executables_made_prefix(decls, gens, exes, st, n + 1);
    } else {
        assert(exes.take(n) =~= exes);
    }
}

/// A failure among the first `n` dependencies is the failure of all.
pub proof fn lemma_dependencies_made_prefix(
    decls: Seq<StarLinkTarget>,
    project: StarProject,
    st: Conversion,
    n: int,
)
    requires
        0 <= n <= project.dependencies@.len(),
        dependencies_made(decls, project, n, st) is Err,
    ensures
        dependencies_made(decls, project, project.dependencies@.len() as int, st)
            == dependencies_made(decls, project, n, st),
    decreases project.dependencies@.len() - n,
{
    if n < project.dependencies@.len() {
        lemma_dependencies_made_prefix(decls, project, st, n + 1);
    }
}

/// Whether the programs `made` are the declared programs `declared`,
/// each with the links that the cache remembers for its declared links
/// and with what its generator function stands for in `gens`.
pub open spec fn executables_agree(
    cache: CacheView,
    gens: Seq<(String, GeneratorVars)>,
    declared: Seq<StarExecutable>,
    made: Seq<Executable>,
) -> bool {
    &&& declared.len() == made.len()
    &&& forall|i: int|
        0 <= i < declared.len() ==> (resolved_vars(
            gens,
            (#[trigger] declared[i]).generator_vars,
        ) matches Ok(vars) && declared[i].is_image(
            &made[i],
            SourcesView::split(path_views(declared[i].sources@)),
            made[i].links@,
            vars,
        ) && link_images(cache, declared[i].links@, made[i].links@))
}

/// Whether `made` is the project that `declared` stands for: the same
/// name and root, the declared programs, each list of libraries the
/// libraries that the cache remembers for the declared ones, and the
/// same of every project it depends on.
pub open spec fn project_agrees(cache: CacheView, declared: StarProject, made: Project) -> bool
    decreases made,
{
    &&& made.info.name@ == declared.name@
    &&& made.info.path@ == declared.path@
    &&& executables_agree(
        cache,
        declared.generator_names@,
        declared.executables@,
        made.executables@,
    )
    &&& link_images(cache, declared.static_libraries@, made.static_libraries@)
    &&& link_images(cache, declared.object_libraries@, made.object_libraries@)
    &&& link_images(cache, declared.interface_libraries@, made.interface_libraries@)
    &&& made.dependencies@.len() == declared.dependencies@.len()
    &&& forall|i: int|
        0 <= i < made.dependencies@.len() ==> project_agrees(
            cache,
            declared.dependencies@[i],
            #[trigger] made.dependencies@[i],
        )
}

/// A project that agrees with its declaration still does so when the
/// cache grows.
pub proof fn lemma_project_agrees_grow(
    cache: CacheView,
    after: CacheView,
    bound: int,
    declared: StarProject,
    made: Project,
)
    requires
        project_agrees(cache, declared, made),
        grows_below(cache, after, bound),
    ensures
        project_agrees(after, declared, made),
    decreases made,
{
    lemma_images_grow(cache, after, bound, declared.static_libraries@, made.static_libraries@);
    lemma_images_grow(cache, after, bound, declared.object_libraries@, made.object_libraries@);
    lemma_images_grow(
        cache,
        after,
        bound,
        declared.interface_libraries@,
        made.interface_libraries@,
    );
    assert forall|i: int| 0 <= i < declared.executables@.len() implies link_images(
        after,
        (#[trigger] declared.executables@[i]).links@,
        made.executables@[i].links@,
    ) by {
        lemma_images_grow(
            cache,
            after,
            bound,
            declared.executables@[i].links@,
            made.executables@[i].links@,
        );
    }
    assert forall|i: int| 0 <= i < made.dependencies@.len() implies project_agrees(
        after,
        declared.dependencies@[i],
        #[trigger] made.dependencies@[i],
    ) by {
        lemma_project_agrees_grow(
            cache,
            after,
            bound,
            declared.dependencies@[i],
            made.dependencies@[i],
        );
    }
}

/// A project that speaks of libraries of the graph only still does so
/// when the graph grows.
pub proof fn lemma_project_fits_grow(nodes: Seq<LinkNode>, grown: Seq<LinkNode>, project: Project)
    requires
        project_fits(nodes, project),
        nodes.is_prefix_of(grown),
    ensures
        project_fits(grown, project),
    decreases project,
{
    assert forall|p: LinkPtr| names(nodes, p) implies names(grown, p) by {
        assert(grown[p.spec_index()] == nodes[p.spec_index()]);
    }
    assert forall|i: int| 0 <= i < project.executables@.len() implies all_named(
        grown,
        (#[trigger] project.executables@[i]).links@,
    ) by {
        assert(all_named(nodes, project.executables@[i].links@));
    }
    assert forall|i: int| 0 <= i < project.dependencies@.len() implies project_fits(
        grown,
        #[trigger] project.dependencies@[i],
    ) by {
        lemma_project_fits_grow(nodes, grown, project.dependencies@[i]);
    }
}


/// Carrying on twice is carrying on.
pub proof fn lemma_carried_on_twice(
    decls: Seq<StarLinkTarget>,
    bound: int,
    c0: CacheView,
    n0: Seq<LinkNode>,
    c1: CacheView,
    n1: Seq<LinkNode>,
    c2: CacheView,
    n2: Seq<LinkNode>,
)
    requires
        carried_on(decls, bound, c0, n0, c1, n1),
        carried_on(decls, bound, c1, n1, c2, n2),
    ensures
        carried_on(decls, bound, c0, n0, c2, n2),
{
    lemma_grows_twice(c0, c1, c2, bound, bound);
    assert(n0 =~= n2.subrange(0, n0.len() as int)) by {
        assert(n0 =~= n1.subrange(0, n0.len() as int));
        assert(n1 =~= n2.subrange(0, n1.len() as int));
    }
}

/// Gives the libraries that a project lists under `kind`, in turn.
pub(crate) fn list_targets(
    decls: &Vec<StarLinkTarget>,
    gens: &Vec<(String, GeneratorVars)>,
    ptrs: &Vec<PtrLinkTarget>,
    kind: LinkKind,
    link_map: &mut StarLinkTargetCache,
    graph: &mut TargetGraph,
) -> (r: Result<Vec<LinkPtr>, String>)
    requires
        well_kept(decls@, old(link_map)@, old(graph)@),
    ensures
        match listed(
            decls@,
            gens@,
            ptrs@,
            kind,
            Conversion::of(old(link_map)@, old(graph)@),
        ) {
            Ok(c) => r matches Ok(v) && final(link_map)@ == c.cache && final(graph)@.len()
                == c.next && made_vars(final(graph)@) == c.vars && carried_on(
                decls@,
                decls@.len() as int,
                old(link_map)@,
                old(graph)@,
                final(link_map)@,
                final(graph)@,
            ) && link_images(final(link_map)@, ptrs@, v@) && forall|i: int|
                0 <= i < v@.len() ==> kind.spec_holds(#[trigger] v@[i]),
            Err(e) => r matches Err(m) && m@ == e && arrived(
                decls@,
                decls@.len() as int,
                old(link_map)@,
                old(graph)@,
                final(link_map)@,
                final(graph)@,
                listed_reached(
                    decls@,
                    gens@,
                    ptrs@,
                    kind,
                    Conversion::of(old(link_map)@, old(graph)@),
                ),
            ),
        },
{
    let ghost c0 = link_map@;
    let ghost n0 = graph@;
    let ghost st = Conversion::of(c0, n0);
    let ghost bound = decls@.len() as int;
    let mut out: Vec<LinkPtr> = Vec::new();
    let mut i: usize = 0;
    while i < ptrs.len()
        invariant
            i <= ptrs@.len(),
            c0 == old(link_map)@,
            n0 == old(graph)@,
            bound == decls@.len(),
            st == Conversion::of(c0, n0),
            listed(decls@, gens@, ptrs@.take(i as int), kind, st) == Ok::<Conversion, Seq<char>>(
                Conversion::of(link_map@, graph@),
            ),
            carried_on(decls@, bound, c0, n0, link_map@, graph@),
            link_images(link_map@, ptrs@.take(i as int), out@),
            forall|k: int| 0 <= k < out@.len() ==> kind.spec_holds(#[trigger] out@[k]),
        decreases ptrs@.len() - i,
    {
        proof {
            assert(ptrs@.take(i + 1).drop_last() =~= ptrs@.take(i as int));
            assert(ptrs@.take(i + 1).last() == ptrs@[i as int]);
        }
        let ghost ci = link_map@;
        let ghost ni = graph@;
        let ghost outi = out@;
        let ptr = match materialize(decls, gens, ptrs[i], decls.len(), link_map, graph) {
            Ok(p) => p,
            Err(e) => {
                proof {
                    lemma_listed_prefix(decls@, gens@, ptrs@, kind, st, i + 1);
                    lemma_listed_stop(decls@, gens@, ptrs@, kind, st, i + 1);
                    lemma_carried_on_twice(decls@, bound, c0, n0, ci, ni, link_map@, graph@);
                }
                return Err(e);
            },
        };
        if !kind.holds(ptr) {
            let mut msg: String = "\"".to_owned();
            if ptrs[i].0 < decls.len() {
                msg.append(decls[ptrs[i].0].name());
            }
            msg.append("\" is not ");
            msg.append(kind.noun());
            proof {
                assert(link_map@.get(ptrs@[i as int].0) is Some);
                lemma_listed_prefix(decls@, gens@, ptrs@, kind, st, i + 1);
                lemma_listed_stop(decls@, gens@, ptrs@, kind, st, i + 1);
                lemma_carried_on_twice(decls@, bound, c0, n0, ci, ni, link_map@, graph@);
            }
            return Err(msg);
        }
        out.push(ptr);
        proof {
            lemma_carried_on_twice(decls@, bound, c0, n0, ci, ni, link_map@, graph@);
            lemma_images_grow(ci, link_map@, bound, ptrs@.take(i as int), outi);
            let next = ptrs@.take(i + 1);
            assert forall|j: int| 0 <= j < next.len() implies link_map@.get(
                (#[trigger] next[j]).0,
            ) == Some(out@[j]) by {
                if j < i {
                    assert(ptrs@.take(i as int)[j] == next[j]);
                }
            }
        }
        i += 1;
    }
    assert(ptrs@.take(ptrs@.len() as int) =~= ptrs@);
    Ok(out)
}

/// Gives the program that a declaration stands for.
pub(crate) fn make_executable(
    decls: &Vec<StarLinkTarget>,
    gens: &Vec<(String, GeneratorVars)>,
    exe: &StarExecutable,
    link_map: &mut StarLinkTargetCache,
    graph: &mut TargetGraph,
) -> (r: Result<Executable, String>)
    requires
        well_kept(decls@, old(link_map)@, old(graph)@),
    ensures
        match executable_made(
            decls@,
            gens@,
            *exe,
            Conversion::of(old(link_map)@, old(graph)@),
        ) {
            Ok(c) => r matches Ok(made) && final(link_map)@ == c.cache && final(graph)@.len()
                == c.next && made_vars(final(graph)@) == c.vars && carried_on(
                decls@,
                decls@.len() as int,
                old(link_map)@,
                old(graph)@,
                final(link_map)@,
                final(graph)@,
            ) && exe.is_image(
                &made,
                SourcesView::split(path_views(exe.sources@)),
                made.links@,
                resolved_vars(gens@, exe.generator_vars)->Ok_0,
            ) && link_images(final(link_map)@, exe.links@, made.links@),
            Err(e) => r matches Err(m) && m@ == e && arrived(
                decls@,
                decls@.len() as int,
                old(link_map)@,
                old(graph)@,
                final(link_map)@,
                final(graph)@,
                executable_reached(
                    decls@,
                    gens@,
                    *exe,
                    Conversion::of(old(link_map)@, old(graph)@),
                ),
            ),
        },
{
    let sources = match Sources::from_slice(clone_paths(&exe.sources)) {
        Ok(x) => x,
        Err(e) => {
            return Err(e);
        },
    };
    let links = match link_targets(decls, gens, &exe.links, decls.len(), link_map, graph) {
        Ok(x) => x,
        Err(e) => {
            return Err(e);
        },
    };
    proof {
        lemma_linked_arrives(
            decls@,
            gens@,
            exe.links@,
            decls@.len() as int,
            Conversion::of(old(link_map)@, old(graph)@),
        );
    }
    exe.as_executable(sources, links, gens)
}

/// Gives the programs that the declarations `exes` stand for, in turn.
pub(crate) fn make_executables(
    decls: &Vec<StarLinkTarget>,
    gens: &Vec<(String, GeneratorVars)>,
    exes: &Vec<StarExecutable>,
    link_map: &mut StarLinkTargetCache,
    graph: &mut TargetGraph,
) -> (r: Result<Vec<Executable>, String>)
    requires
        well_kept(decls@, old(link_map)@, old(graph)@),
    ensures
        match executables_made(
            decls@,
            gens@,
            exes@,
            Conversion::of(old(link_map)@, old(graph)@),
        ) {
            Ok(c) => r matches Ok(made) && final(link_map)@ == c.cache && final(graph)@.len()
                == c.next && made_vars(final(graph)@) == c.vars && carried_on(
                decls@,
                decls@.len() as int,
                old(link_map)@,
                old(graph)@,
                final(link_map)@,
                final(graph)@,
            ) && executables_agree(final(link_map)@, gens@, exes@, made@),
            Err(e) => r matches Err(m) && m@ == e && arrived(
                decls@,
                decls@.len() as int,
                old(link_map)@,
                old(graph)@,
                final(link_map)@,
                final(graph)@,
                executables_reached(
                    decls@,
                    gens@,
                    exes@,
                    Conversion::of(old(link_map)@, old(graph)@),
                ),
            ),
        },
{
    let ghost c0 = link_map@;
    let ghost n0 = graph@;
    let ghost st = Conversion::of(c0, n0);
    let ghost bound = decls@.len() as int;
    let mut out: Vec<Executable> = Vec::new();
    let mut i: usize = 0;
    while i < exes.len()
        invariant
            i <= exes@.len(),
            c0 == old(link_map)@,
            n0 == old(graph)@,
            bound == decls@.len(),
            st == Conversion::of(c0, n0),
            executables_made(decls@, gens@, exes@.take(i as int), st) == Ok::<
                Conversion,
                Seq<char>,
            >(Conversion::of(link_map@, graph@)),
            carried_on(decls@, bound, c0, n0, link_map@, graph@),
            executables_agree(link_map@, gens@, exes@.take(i as int), out@),
        decreases exes@.len() - i,
    {
        proof {
            assert(exes@.take(i + 1).drop_last() =~= exes@.take(i as int));
            assert(exes@.take(i + 1).last() == exes@[i as int]);
        }
        let ghost ci = link_map@;
        let ghost ni = graph@;
        let ghost outi = out@;
        let made = match make_executable(decls, gens, &exes[i], link_map, graph) {
            Ok(x) => x,
            Err(e) => {
                proof {
                    lemma_executables_made_prefix(decls@, gens@, exes@, st, i + 1);
                    lemma_executables_stop(decls@, gens@, exes@, st, i + 1);
                    lemma_carried_on_twice(decls@, bound, c0, n0, ci, ni, link_map@, graph@);
                }
                return Err(e);
            },
        };
        out.push(made);
        proof {
            lemma_carried_on_twice(decls@, bound, c0, n0, ci, ni, link_map@, graph@);
            let next = exes@.take(i + 1);
            assert forall|j: int| 0 <= j < next.len() implies (resolved_vars(
                gens@,
                (#[trigger] next[j]).generator_vars,
            ) matches Ok(vars) && next[j].is_image(
                &out@[j],
                SourcesView::split(path_views(next[j].sources@)),
                out@[j].links@,
                vars,
            ) && link_images(link_map@, next[j].links@, out@[j].links@)) by {
                if j < i {
                    assert(exes@.take(i as int)[j] == next[j]);
                    assert(outi[j] == out@[j]);
                    lemma_images_grow(ci, link_map@, bound, next[j].links@, outi[j].links@);
                }
            }
        }
        i += 1;
    }
    assert(exes@.take(exes@.len() as int) =~= exes@);
    Ok(out)
}


impl StarProject {
    /// Whether the project is in order.
    pub fn is_in_order(&self) -> (r: bool)
        ensures
            r == project_in_order(*self),
        decreases self,
    {
        if !generators_are_distinct(&self.generator_names) {
            return false;
        }
        let mut d: usize = 0;
        while d < self.dependencies.len()
            invariant
                d <= self.dependencies@.len(),
                forall|k: int|
                    0 <= k < d ==> project_in_order(#[trigger] self.dependencies@[k]),
            decreases self.dependencies@.len() - d,
        {
            if !self.dependencies[d].is_in_order() {
                return false;
            }
            d += 1;
        }
        true
    }

    /// A declared project without targets.
    pub fn new(name: String, path: String, dependencies: Vec<StarProject>) -> (r: Self)
        ensures
            r.name == name,
            r.path == path,
            r.dependencies == dependencies,
            r.executables@.len() == 0,
            r.static_libraries@.len() == 0,
            r.object_libraries@.len() == 0,
            r.interface_libraries@.len() == 0,
            r.generator_names@.len() == 0,
    {
        StarProject {
            name,
            path,
            dependencies,
            executables: Vec::new(),
            static_libraries: Vec::new(),
            object_libraries: Vec::new(),
            interface_libraries: Vec::new(),
            generator_names: Vec::new(),
        }
    }

    /// Turns the projects that this project depends on into projects of
    /// targets, in turn.
    fn dependencies_inner(
        &self,
        decls: &Vec<StarLinkTarget>,
        link_map: &mut StarLinkTargetCache,
        graph: &mut TargetGraph,
    ) -> (r: Result<Vec<Project>, String>)
        requires
            well_kept(decls@, old(link_map)@, old(graph)@),
        ensures
            match dependencies_made(
                decls@,
                *self,
                self.dependencies@.len() as int,
                Conversion::of(old(link_map)@, old(graph)@),
            ) {
                Ok(c) => r matches Ok(made) && final(link_map)@ == c.cache && final(graph)@.len()
                    == c.next && made_vars(final(graph)@) == c.vars && carried_on(
                    decls@,
                    decls@.len() as int,
                    old(link_map)@,
                    old(graph)@,
                    final(link_map)@,
                    final(graph)@,
                ) && made@.len() == self.dependencies@.len() && forall|i: int|
                    0 <= i < made@.len() ==> project_agrees(
                        final(link_map)@,
                        self.dependencies@[i],
                        #[trigger] made@[i],
                    ) && project_fits(final(graph)@, made@[i]),
                Err(e) => r matches Err(m) && m@ == e && arrived(
                    decls@,
                    decls@.len() as int,
                    old(link_map)@,
                    old(graph)@,
                    final(link_map)@,
                    final(graph)@,
                    dependencies_reached(
                        decls@,
                        *self,
                        self.dependencies@.len() as int,
                        Conversion::of(old(link_map)@, old(graph)@),
                    ),
                ),
            },
        decreases self, 0int,
    {
        let ghost c0 = link_map@;
        let ghost n0 = graph@;
        let ghost st = Conversion::of(c0, n0);
        let ghost bound = decls@.len() as int;
        let mut out: Vec<Project> = Vec::new();
        let mut d: usize = 0;
        while d < self.dependencies.len()
            invariant
                d <= self.dependencies@.len(),
                c0 == old(link_map)@,
                n0 == old(graph)@,
                bound == decls@.len(),
                st == Conversion::of(c0, n0),
                dependencies_made(decls@, *self, d as int, st) == Ok::<Conversion, Seq<char>>(
                    Conversion::of(link_map@, graph@),
                ),
                carried_on(decls@, bound, c0, n0, link_map@, graph@),
                out@.len() == d,
                forall|i: int|
                    0 <= i < out@.len() ==> project_agrees(
                        link_map@,
                        self.dependencies@[i],
                        #[trigger] out@[i],
                    ) && project_fits(graph@, out@[i]),
            decreases self.dependencies@.len() - d,
        {
            let ghost ci = link_map@;
            let ghost ni = graph@;
            let ghost outi = out@;
            let made = match self.dependencies[d].as_project_inner(decls, link_map, graph) {
                Ok(x) => x,
                Err(e) => {
                    proof {
                        lemma_dependencies_made_prefix(decls@, *self, st, d + 1);
                        lemma_dependencies_stop(decls@, *self, st, d + 1);
                        lemma_carried_on_twice(decls@, bound, c0, n0, ci, ni, link_map@, graph@);
                    }
                    return Err(e);
                },
            };
            out.push(made);
            proof {
                lemma_carried_on_twice(decls@, bound, c0, n0, ci, ni, link_map@, graph@);
                assert forall|i: int| 0 <= i < out@.len() implies project_agrees(
                    link_map@,
                    self.dependencies@[i],
                    #[trigger] out@[i],
                ) && project_fits(graph@, out@[i]) by {
                    if i < d {
                        assert(out@[i] == outi[i]);
                        lemma_project_agrees_grow(
                            ci,
                            link_map@,
                            bound,
                            self.dependencies@[i],
                            outi[i],
                        );
                        lemma_project_fits_grow(ni, graph@, outi[i]);
                    }
                }
            }
            d += 1;
        }
        Ok(out)
    }

    /// Turns the declared project into a project of targets: first the
    /// projects it depends on, then its programs, its static libraries,
    /// its object libraries and its interface libraries. A library is
    /// made when it is first met and found in the cache from then on.
    pub(crate) fn as_project_inner(
        &self,
        decls: &Vec<StarLinkTarget>,
        link_map: &mut StarLinkTargetCache,
        graph: &mut TargetGraph,
    ) -> (r: Result<Project, String>)
        requires
            well_kept(decls@, old(link_map)@, old(graph)@),
        ensures
            match project_made(
                decls@,
                *self,
                Conversion::of(old(link_map)@, old(graph)@),
            ) {
                Ok(c) => r matches Ok(made) && final(link_map)@ == c.cache && final(graph)@.len()
                    == c.next && made_vars(final(graph)@) == c.vars && carried_on(
                    decls@,
                    decls@.len() as int,
                    old(link_map)@,
                    old(graph)@,
                    final(link_map)@,
                    final(graph)@,
                ) && project_agrees(final(link_map)@, *self, made) && project_fits(
                    final(graph)@,
                    made,
                ),
                Err(e) => r matches Err(m) && m@ == e && arrived(
                    decls@,
                    decls@.len() as int,
                    old(link_map)@,
                    old(graph)@,
                    final(link_map)@,
                    final(graph)@,
                    project_reached(
                        decls@,
                        *self,
                        Conversion::of(old(link_map)@, old(graph)@),
                    ),
                ),
            },
        decreases self, 1int,
    {
        let ghost bound = decls@.len() as int;
        let ghost c0 = link_map@;
        let ghost n0 = graph@;
        let dependencies = match self.dependencies_inner(decls, link_map, graph) {
            Ok(x) => x,
            Err(e) => {
                return Err(e);
            },
        };
        let ghost c1 = link_map@;
        let ghost n1 = graph@;
        let executables = match make_executables(
            decls,
            &self.generator_names,
            &self.executables,
            link_map,
            graph,
        ) {
            Ok(x) => x,
            Err(e) => {
                return Err(e);
            },
        };
        let ghost c2 = link_map@;
        let ghost n2 = graph@;
        let static_libraries = match list_targets(
            decls,
            &self.generator_names,
            &self.static_libraries,
            LinkKind::Static,
            link_map,
            graph,
        ) {
            Ok(x) => x,
            Err(e) => {
                return Err(e);
            },
        };
        let ghost c3 = link_map@;
        let ghost n3 = graph@;
        let object_libraries = match list_targets(
            decls,
            &self.generator_names,
            &self.object_libraries,
            LinkKind::Object,
            link_map,
            graph,
        ) {
            Ok(x) => x,
            Err(e) => {
                return Err(e);
            },
        };
        let ghost c4 = link_map@;
        let ghost n4 = graph@;
        let interface_libraries = match list_targets(
            decls,
            &self.generator_names,
            &self.interface_libraries,
            LinkKind::Interface,
            link_map,
            graph,
        ) {
            Ok(x) => x,
            Err(e) => {
                return Err(e);
            },
        };
        let ghost c5 = link_map@;
        let ghost n5 = graph@;
        let made = Project {
            info: ProjectInfo { name: self.name.clone(), path: self.path.clone() },
            dependencies,
            executables,
            static_libraries,
            object_libraries,
            interface_libraries,
        };
        proof {
            lemma_carried_on_twice(decls@, bound, c0, n0, c1, n1, c2, n2);
            lemma_carried_on_twice(decls@, bound, c0, n0, c2, n2, c3, n3);
            lemma_carried_on_twice(decls@, bound, c0, n0, c3, n3, c4, n4);
            lemma_carried_on_twice(decls@, bound, c0, n0, c4, n4, c5, n5);
            lemma_carried_on_twice(decls@, bound, c1, n1, c2, n2, c3, n3);
            lemma_carried_on_twice(decls@, bound, c1, n1, c3, n3, c4, n4);
            lemma_carried_on_twice(decls@, bound, c1, n1, c4, n4, c5, n5);
            lemma_carried_on_twice(decls@, bound, c2, n2, c3, n3, c4, n4);
            lemma_carried_on_twice(decls@, bound, c2, n2, c4, n4, c5, n5);
            lemma_carried_on_twice(decls@, bound, c3, n3, c4, n4, c5, n5);
            lemma_images_grow(c3, c5, bound, self.static_libraries@, made.static_libraries@);
            lemma_images_grow(c4, c5, bound, self.object_libraries@, made.object_libraries@);
            assert forall|i: int| 0 <= i < self.executables@.len() implies link_images(
                c5,
                (#[trigger] self.executables@[i]).links@,
                made.executables@[i].links@,
            ) by {
                lemma_images_grow(
                    c2,
                    c5,
                    bound,
                    self.executables@[i].links@,
                    made.executables@[i].links@,
                );
            }
            assert forall|i: int| 0 <= i < made.dependencies@.len() implies project_agrees(
                c5,
                self.dependencies@[i],
                #[trigger] made.dependencies@[i],
            ) && project_fits(n5, made.dependencies@[i]) by {
                lemma_project_agrees_grow(
                    c1,
                    c5,
                    bound,
                    self.dependencies@[i],
                    made.dependencies@[i],
                );
                lemma_project_fits_grow(n1, n5, made.dependencies@[i]);
            }
            lemma_images_named(decls@, c5, n5, self.static_libraries@, made.static_libraries@);
            lemma_images_named(decls@, c5, n5, self.object_libraries@, made.object_libraries@);
            lemma_images_named(
                decls@,
                c5,
                n5,
                self.interface_libraries@,
                made.interface_libraries@,
            );
            assert forall|i: int| 0 <= i < made.executables@.len() implies all_named(
                n5,
                (#[trigger] made.executables@[i]).links@,
            ) by {
                assert(link_images(c5, self.executables@[i].links@, made.executables@[i].links@));
                lemma_images_named(
                    decls@,
                    c5,
                    n5,
                    self.executables@[i].links@,
                    made.executables@[i].links@,
                );
            }
        }
        Ok(made)
    }

    /// Turns the declared project into a project of targets and the graph
    /// of its libraries. Every declared library that one of its projects
    /// lists or links becomes exactly one library of the graph, however
    /// many paths lead to it, and the graph holds no other library.
    pub fn into_project(self, decls: &Vec<StarLinkTarget>) -> (r: Result<
        (Project, TargetGraph),
        String,
    >)
        ensures
            match project_made(decls@, self, Conversion::start()) {
                Ok(c) => r matches Ok((made, graph)) && graph@.len() == c.next && made_vars(graph@)
                    == c.vars && well_kept(
                    decls@,
                    c.cache,
                    graph@,
                ) && project_agrees(c.cache, self, made) && project_fits(graph@, made)
                    && all_remembered(c),
                Err(e) => r matches Err(m) && m@ == e,
            },
    {
        let mut cache = StarLinkTargetCache::new();
        let mut graph = TargetGraph::new();
        assert(made_vars(graph@) =~= Seq::empty());
        proof {
            lemma_no_library_without_declaration(decls@, self);
        }
        match self.as_project_inner(decls, &mut cache, &mut graph) {
            Ok(made) => {
                let libraries: usize = graph.len();
                assert(graph@.len() == libraries);
                Ok((made, graph))
            },
            Err(e) => Err(e),
        }
    }
}

} // verus!
