//! No library without a declaration: every library of the graph that
//! declarations are turned into is remembered for one of them. With what
//! the conversion keeps, that no two declarations stand for the same
//! library, this makes the libraries and the declarations that were
//! reached correspond one to one.

use vstd::prelude::*;
use crate::generator_vars::GeneratorVars;
use crate::link_type::LinkKind;
use crate::starlark_link_target::{PtrLinkTarget, StarExecutable, StarLinkTarget};
use crate::starlark_project::{
    dependencies_made, executable_made, executables_made, grows_below, lemma_grows_twice, linked,
    listed, materialized, project_made, CacheView, Conversion, StarProject,
};

verus! {

/// Whether the library at `at` is remembered for some declaration.
pub open spec fn remembered_at(cache: CacheView, at: int) -> bool {
    exists|key: usize| (#[trigger] cache.get(key)) matches Some(p) && p.spec_index() == at
}

/// Whether every library made so far is remembered for some declaration,
/// in a cache that is in order.
pub open spec fn all_remembered(st: Conversion) -> bool {
    &&& st.cache.tidy()
    &&& forall|at: int| 0 <= at < st.next ==> #[trigger] remembered_at(st.cache, at)
}

/// What a step keeps: every library is remembered, and what was
/// remembered stays as it was.
pub open spec fn keeps_remembered(st: Conversion, after: Conversion, bound: int) -> bool {
    &&& all_remembered(after)
    &&& grows_below(st.cache, after.cache, bound)
}

/// What holds of a step from `st` to `after`: no library is taken away,
/// and where every library was remembered before, and the libraries can
/// still be counted, every library is remembered after.
pub open spec fn step_remembers(st: Conversion, after: Conversion, bound: int) -> bool {
    &&& st.next <= after.next
    &&& (all_remembered(st) && 0 <= st.next && after.next <= usize::MAX) ==> keeps_remembered(
        st,
        after,
        bound,
    )
}

/// A library that is remembered stays remembered when the cache grows.
pub proof fn lemma_remembered_grows(before: CacheView, after: CacheView, bound: int, at: int)
    requires
        remembered_at(before, at),
        grows_below(before, after, bound),
    ensures
        remembered_at(after, at),
{
    let key = choose|key: usize|
        (#[trigger] before.get(key)) matches Some(p) && p.spec_index() == at;
    assert(after.get(key) == before.get(key));
}

/// Remembering a new library for a declaration that had none keeps
/// every library remembered.
pub proof fn lemma_remembered_insert(
    st: Conversion,
    key: usize,
    kind: LinkKind,
    bound: int,
    cache: CacheView,
)
    requires
        all_remembered(st),
        0 <= st.next < usize::MAX,
        st.cache.get(key) is None,
        key < bound,
        cache == match kind {
            LinkKind::Static => st.cache.insert_static(key, st.next as usize),
            LinkKind::Object => st.cache.insert_object(key, st.next as usize),
            LinkKind::Interface => st.cache.insert_interface(key, st.next as usize),
        },
    ensures
        cache.tidy(),
        forall|at: int| 0 <= at < st.next + 1 ==> #[trigger] remembered_at(cache, at),
        grows_below(st.cache, cache, bound),
{
    assert(!st.cache.static_libs.contains_key(key) || !st.cache.all_targets.contains(key));
    assert(cache.get(key) matches Some(p) && p.spec_index() == st.next);
    assert forall|k: usize| k != key implies #[trigger] cache.get(k) == st.cache.get(k) by {}
    assert(grows_below(st.cache, cache, bound));
    assert forall|at: int| 0 <= at < st.next + 1 implies #[trigger] remembered_at(cache, at) by {
        if at < st.next {
            assert(remembered_at(st.cache, at));
            lemma_remembered_grows(st.cache, cache, bound, at);
        }
    }
}

/// Growing below a bound is growing below every greater bound.
pub proof fn lemma_grows_wider(a: CacheView, b: CacheView, low: int, bound: int)
    requires
        grows_below(a, b, low),
        low <= bound,
    ensures
        grows_below(a, b, bound),
{
    assert forall|key: usize| (a.get(key) is Some || key >= bound) implies #[trigger] b.get(key)
        == a.get(key) by {}
}

/// One step after another is a step.
pub proof fn lemma_steps_twice(a: Conversion, b: Conversion, c: Conversion, low: int, bound: int)
    requires
        step_remembers(a, b, low),
        step_remembers(b, c, bound),
        low <= bound,
    ensures
        step_remembers(a, c, bound),
{
    if all_remembered(a) && 0 <= a.next && c.next <= usize::MAX {
        lemma_grows_twice(a.cache, b.cache, c.cache, low, bound);
    }
}

/// Turning a declaration into a library is such a step.
pub proof fn lemma_materialized_remembers(
    decls: Seq<StarLinkTarget>,
    gens: Seq<(String, GeneratorVars)>,
    key: usize,
    bound: int,
    st: Conversion,
)
    ensures
        materialized(decls, gens, key, bound, st) matches Ok((_, c)) ==> step_remembers(
            st,
            c,
            bound,
        ),
    decreases bound, 0int,
{
    if st.cache.get(key) is None && key < bound && key < decls.len() {
        let (first, second, kind) = match decls[key as int] {
            StarLinkTarget::Static(d) => (d.link_private@, d.link_public@, LinkKind::Static),
            StarLinkTarget::Object(d) => (d.link_private@, d.link_public@, LinkKind::Object),
            StarLinkTarget::Interface(d) => (d.links@, Seq::empty(), LinkKind::Interface),
        };
        lemma_linked_remembers(decls, gens, first, key as int, st);
        match linked(decls, gens, first, key as int, st) {
            Ok((_, s1)) => {
                lemma_linked_remembers(decls, gens, second, key as int, s1);
                match linked(decls, gens, second, key as int, s1) {
                    Ok((_, s2)) => {
                        lemma_steps_twice(st, s1, s2, key as int, key as int);
                        match materialized(decls, gens, key, bound, st) {
                            Ok((_, c)) => {
                                assert(c.next == s2.next + 1);
                                if all_remembered(st) && 0 <= st.next && c.next <= usize::MAX {
                                    assert(s2.cache.get(key) == st.cache.get(key));
                                    lemma_remembered_insert(s2, key, kind, bound, c.cache);
                                    lemma_grows_twice(
                                        st.cache,
                                        s2.cache,
                                        c.cache,
                                        key as int,
                                        bound,
                                    );
                                }
                            },
                            Err(_) => {},
                        }
                    },
                    Err(_) => {},
                }
            },
            Err(_) => {},
        }
    }
}

/// Turning the declarations of a list of links into libraries is such a
/// step.
pub proof fn lemma_linked_remembers(
    decls: Seq<StarLinkTarget>,
    gens: Seq<(String, GeneratorVars)>,
    links: Seq<PtrLinkTarget>,
    bound: int,
    st: Conversion,
)
    ensures
        linked(decls, gens, links, bound, st) matches Ok((_, c)) ==> step_remembers(st, c, bound),
    decreases bound, 1 + links.len(),
{
    if links.len() != 0 {
        lemma_linked_remembers(decls, gens, links.drop_last(), bound, st);
        match linked(decls, gens, links.drop_last(), bound, st) {
            Ok((_, s)) => {
                lemma_materialized_remembers(decls, gens, links.last().0, bound, s);
                match materialized(decls, gens, links.last().0, bound, s) {
                    Ok((_, c)) => {
                        lemma_steps_twice(st, s, c, bound, bound);
                    },
                    Err(_) => {},
                }
            },
            Err(_) => {},
        }
    }
}

/// Turning the libraries that a project lists into libraries of the graph
/// is such a step.
pub proof fn lemma_listed_remembers(
    decls: Seq<StarLinkTarget>,
    gens: Seq<(String, GeneratorVars)>,
    ptrs: Seq<PtrLinkTarget>,
    kind: LinkKind,
    st: Conversion,
)
    ensures
        listed(decls, gens, ptrs, kind, st) matches Ok(c) ==> step_remembers(
            st,
            c,
            decls.len() as int,
        ),
    decreases ptrs.len(),
{
    let bound = decls.len() as int;
    if ptrs.len() != 0 {
        lemma_listed_remembers(decls, gens, ptrs.drop_last(), kind, st);
        match listed(decls, gens, ptrs.drop_last(), kind, st) {
            Ok(s) => {
                lemma_materialized_remembers(decls, gens, ptrs.last().0, bound, s);
                match materialized(decls, gens, ptrs.last().0, bound, s) {
                    Ok((_, c)) => {
                        lemma_steps_twice(st, s, c, bound, bound);
                    },
                    Err(_) => {},
                }
            },
            Err(_) => {},
        }
    }
}

/// Making the declared programs is such a step.
pub proof fn lemma_executables_remember(
    decls: Seq<StarLinkTarget>,
    gens: Seq<(String, GeneratorVars)>,
    exes: Seq<StarExecutable>,
    st: Conversion,
)
    ensures
        executables_made(decls, gens, exes, st) matches Ok(c) ==> step_remembers(
            st,
            c,
            decls.len() as int,
        ),
    decreases exes.len(),
{
    let bound = decls.len() as int;
    if exes.len() != 0 {
        lemma_executables_remember(decls, gens, exes.drop_last(), st);
        match executables_made(decls, gens, exes.drop_last(), st) {
            Ok(s) => {
                lemma_linked_remembers(decls, gens, exes.last().links@, bound, s);
                match executable_made(decls, gens, exes.last(), s) {
                    Ok(c) => {
                        lemma_steps_twice(st, s, c, bound, bound);
                    },
                    Err(_) => {},
                }
            },
            Err(_) => {},
        }
    }
}

/// Making the first `n` projects that a project depends on is such a
/// step.
pub proof fn lemma_dependencies_remember(
    decls: Seq<StarLinkTarget>,
    project: StarProject,
    n: int,
    st: Conversion,
)
    ensures
        dependencies_made(decls, project, n, st) matches Ok(c) ==> step_remembers(
            st,
            c,
            decls.len() as int,
        ),
    decreases project, n,
{
    let bound = decls.len() as int;
    if !(n <= 0 || n > project.dependencies@.len()) {
        lemma_dependencies_remember(decls, project, n - 1, st);
        match dependencies_made(decls, project, n - 1, st) {
            Ok(s) => {
                lemma_project_remembers(decls, project.dependencies@[n - 1], s);
                match project_made(decls, project.dependencies@[n - 1], s) {
                    Ok(c) => {
                        lemma_steps_twice(st, s, c, bound, bound);
                    },
                    Err(_) => {},
                }
            },
            Err(_) => {},
        }
    }
}

/// Making a declared project is such a step.
pub proof fn lemma_project_remembers(
    decls: Seq<StarLinkTarget>,
    project: StarProject,
    st: Conversion,
)
    ensures
        project_made(decls, project, st) matches Ok(c) ==> step_remembers(
            st,
            c,
            decls.len() as int,
        ),
    decreases project,
{
    let bound = decls.len() as int;
    let gens = project.generator_names@;
    lemma_dependencies_remember(decls, project, project.dependencies@.len() as int, st);
    match dependencies_made(decls, project, project.dependencies@.len() as int, st) {
        Ok(s0) => {
            lemma_executables_remember(decls, gens, project.executables@, s0);
            match executables_made(decls, gens, project.executables@, s0) {
                Ok(s1) => {
                    lemma_steps_twice(st, s0, s1, bound, bound);
                    lemma_listed_remembers(
                        decls,
                        gens,
                        project.static_libraries@,
                        LinkKind::Static,
                        s1,
                    );
                    match listed(decls, gens, project.static_libraries@, LinkKind::Static, s1) {
                        Ok(s2) => {
                            lemma_steps_twice(st, s1, s2, bound, bound);
                            lemma_listed_remembers(
                                decls,
                                gens,
                                project.object_libraries@,
                                LinkKind::Object,
                                s2,
                            );
                            match listed(
                                decls,
                                gens,
                                project.object_libraries@,
                                LinkKind::Object,
                                s2,
                            ) {
                                Ok(s3) => {
                                    lemma_steps_twice(st, s2, s3, bound, bound);
                                    lemma_listed_remembers(
                                        decls,
                                        gens,
                                        project.interface_libraries@,
                                        LinkKind::Interface,
                                        s3,
                                    );
                                    match listed(
                                        decls,
                                        gens,
                                        project.interface_libraries@,
                                        LinkKind::Interface,
                                        s3,
                                    ) {
                                        Ok(c) => {
                                            lemma_steps_twice(st, s3, c, bound, bound);
                                        },
                                        Err(_) => {},
                                    }
                                },
                                Err(_) => {},
                            }
                        },
                        Err(_) => {},
                    }
                },
                Err(_) => {},
            }
        },
        Err(_) => {},
    }
}

/// No library without a declaration: when a declared project is turned
/// into a graph whose libraries can be counted, every library of the
/// graph is remembered for a declaration.
pub proof fn lemma_no_library_without_declaration(
    decls: Seq<StarLinkTarget>,
    project: StarProject,
)
    ensures
        project_made(decls, project, Conversion::start()) matches Ok(c) ==> (c.next <= usize::MAX
            ==> all_remembered(c)),
{
    lemma_project_remembers(decls, project, Conversion::start());
}

} // verus!
