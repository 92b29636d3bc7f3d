//! How far turning declarations into libraries gets when it fails. The
//! libraries that were made before the failure stay in graph and cache;
//! these functions say which.

use vstd::prelude::*;
use crate::generator_vars::GeneratorVars;
use crate::graph::LinkNode;
use crate::link_type::LinkKind;
use crate::misc::{first_unknown, path_views};
use crate::starlark_link_target::{PtrLinkTarget, StarExecutable, StarLinkTarget};
use crate::starlark_project::{
    carried_on, dependencies_made, executables_made, linked, listed, made_vars, materialized,
    CacheView, Conversion, StarProject,
};

verus! {

/// Whether the cache `c1` and the graph `n1` are what `c` says, and were
/// carried on from the cache `c0` and the graph `n0`.
pub open spec fn arrived(
    decls: Seq<StarLinkTarget>,
    bound: int,
    c0: CacheView,
    n0: Seq<LinkNode>,
    c1: CacheView,
    n1: Seq<LinkNode>,
    c: Conversion,
) -> bool {
    &&& c1 == c.cache
    &&& n1.len() == c.next
    &&& made_vars(n1) == c.vars
    &&& carried_on(decls, bound, c0, n0, c1, n1)
}

/// How far turning the declaration `key` into a library gets. Where it
/// fails, the library itself is not made; the libraries that were made
/// for its links before the failure stay.
pub open spec fn materialized_reached(
    decls: Seq<StarLinkTarget>,
    gens: Seq<(String, GeneratorVars)>,
    key: usize,
    bound: int,
    st: Conversion,
) -> Conversion
    decreases bound, 0int,
{
    match materialized(decls, gens, key, bound, st) {
        Ok((_, c)) => c,
        Err(_) => if st.cache.get(key) is Some || !(key < bound && key < decls.len()) {
            st
        } else {
            match decls[key as int] {
                StarLinkTarget::Static(d) => if first_unknown(path_views(d.sources@)) is Some {
                    st
                } else {
                    match linked(decls, gens, d.link_private@, key as int, st) {
                        Err(_) => linked_reached(decls, gens, d.link_private@, key as int, st),
                        Ok((_, s1)) => linked_reached(
                            decls,
                            gens,
                            d.link_public@,
                            key as int,
                            s1,
                        ),
                    }
                },
                StarLinkTarget::Object(d) => if first_unknown(path_views(d.sources@)) is Some {
                    st
                } else {
                    match linked(decls, gens, d.link_private@, key as int, st) {
                        Err(_) => linked_reached(decls, gens, d.link_private@, key as int, st),
                        Ok((_, s1)) => linked_reached(
                            decls,
                            gens,
                            d.link_public@,
                            key as int,
                            s1,
                        ),
                    }
                },
                StarLinkTarget::Interface(d) => linked_reached(
                    decls,
                    gens,
                    d.links@,
                    key as int,
                    st,
                ),
            }
        },
    }
}

/// How far turning the declarations `links` into libraries gets: to the
/// end where none fails, else as far as the first that fails got.
pub open spec fn linked_reached(
    decls: Seq<StarLinkTarget>,
    gens: Seq<(String, GeneratorVars)>,
    links: Seq<PtrLinkTarget>,
    bound: int,
    st: Conversion,
) -> Conversion
    decreases bound, 1 + links.len(),
{
    if links.len() == 0 {
        st
    } else {
        match linked(decls, gens, links.drop_last(), bound, st) {
            Err(_) => linked_reached(decls, gens, links.drop_last(), bound, st),
            Ok((_, s)) => materialized_reached(decls, gens, links.last().0, bound, s),
        }
    }
}

/// The same of the libraries that a project lists. A library of another
/// kind than the one it is listed under is made before it is refused.
pub open spec fn listed_reached(
    decls: Seq<StarLinkTarget>,
    gens: Seq<(String, GeneratorVars)>,
    ptrs: Seq<PtrLinkTarget>,
    kind: LinkKind,
    st: Conversion,
) -> Conversion
    decreases ptrs.len(),
{
    if ptrs.len() == 0 {
        st
    } else {
        match listed(decls, gens, ptrs.drop_last(), kind, st) {
            Err(_) => listed_reached(decls, gens, ptrs.drop_last(), kind, st),
            Ok(s) => materialized_reached(decls, gens, ptrs.last().0, decls.len() as int, s),
        }
    }
}

/// How far making a declared program gets: as far as its links get,
/// unless a source of an unknown language stops it before.
pub open spec fn executable_reached(
    decls: Seq<StarLinkTarget>,
    gens: Seq<(String, GeneratorVars)>,
    exe: StarExecutable,
    st: Conversion,
) -> Conversion {
    if first_unknown(path_views(exe.sources@)) is Some {
        st
    } else {
        linked_reached(decls, gens, exe.links@, decls.len() as int, st)
    }
}

/// The same of the declared programs `exes`, in turn.
pub open spec fn executables_reached(
    decls: Seq<StarLinkTarget>,
    gens: Seq<(String, GeneratorVars)>,
    exes: Seq<StarExecutable>,
    st: Conversion,
) -> Conversion
    decreases exes.len(),
{
    if exes.len() == 0 {
        st
    } else {
        match executables_made(decls, gens, exes.drop_last(), st) {
            Err(_) => executables_reached(decls, gens, exes.drop_last(), st),
            Ok(s) => executable_reached(decls, gens, exes.last(), s),
        }
    }
}

/// How far making the first `n` projects that `project` depends on gets.
pub open spec fn dependencies_reached(
    decls: Seq<StarLinkTarget>,
    project: StarProject,
    n: int,
    st: Conversion,
) -> Conversion
    decreases project, n,
{
    if n <= 0 || n > project.dependencies@.len() {
        st
    } else {
        match dependencies_made(decls, project, n - 1, st) {
            Err(_) => dependencies_reached(decls, project, n - 1, st),
            Ok(s) => project_reached(decls, project.dependencies@[n - 1], s),
        }
    }
}

/// How far making a declared project gets: to its end where nothing
/// fails, else as far as the part that fails got.
pub open spec fn project_reached(
    decls: Seq<StarLinkTarget>,
    project: StarProject,
    st: Conversion,
) -> Conversion
    decreases project,
{
    let deps = project.dependencies@.len() as int;
    let gens = project.generator_names@;
    match dependencies_made(decls, project, deps, st) {
        Err(_) => dependencies_reached(decls, project, deps, st),
        Ok(s0) => match executables_made(decls, gens, project.executables@, s0) {
            Err(_) => executables_reached(decls, gens, project.executables@, s0),
            Ok(s1) => match listed(decls, gens, project.static_libraries@, LinkKind::Static, s1) {
                Err(_) => listed_reached(
                    decls,
                    gens,
                    project.static_libraries@,
                    LinkKind::Static,
                    s1,
                ),
                Ok(s2) => match listed(
                    decls,
                    gens,
                    project.object_libraries@,
                    LinkKind::Object,
                    s2,
                ) {
                    Err(_) => listed_reached(
                        decls,
                        gens,
                        project.object_libraries@,
                        LinkKind::Object,
                        s2,
                    ),
                    Ok(s3) => listed_reached(
                        decls,
                        gens,
                        project.interface_libraries@,
                        LinkKind::Interface,
                        s3,
                    ),
                },
            },
        },
    }
}

/// Where one of the first `n` links fails, the links get as far as they
/// get among those.
pub proof fn lemma_linked_stop(
    decls: Seq<StarLinkTarget>,
    gens: Seq<(String, GeneratorVars)>,
    links: Seq<PtrLinkTarget>,
    bound: int,
    st: Conversion,
    n: int,
)
    requires
        0 <= n <= links.len(),
        linked(decls, gens, links.take(n), bound, st) is Err,
    ensures
        linked_reached(decls, gens, links, bound, st) == linked_reached(
            decls,
            gens,
            links.take(n),
            bound,
            st,
        ),
    decreases links.len() - n,
{
    if n < links.len() {
        assert(links.take(n + 1).drop_last() =~= links.take(n));
        lemma_linked_stop(decls, gens, links, bound, st, n + 1);
    } else {
        assert(links.take(n) =~= links);
    }
}

/// The same of listed libraries.
pub proof fn lemma_listed_stop(
    decls: Seq<StarLinkTarget>,
    gens: Seq<(String, GeneratorVars)>,
    ptrs: Seq<PtrLinkTarget>,
    kind: LinkKind,
    st: Conversion,
    n: int,
)
    requires
        0 <= n <= ptrs.len(),
        listed(decls, gens, ptrs.take(n), kind, st) is Err,
    ensures
        listed_reached(decls, gens, ptrs, kind, st) == listed_reached(
            decls,
            gens,
            ptrs.take(n),
            kind,
            st,
        ),
    decreases ptrs.len() - n,
{
    if n < ptrs.len() {
        assert(ptrs.take(n + 1).drop_last() =~= ptrs.take(n));
        lemma_listed_stop(decls, gens, ptrs, kind, st, n + 1);
    } else {
        assert(ptrs.take(n) =~= ptrs);
    }
}

/// The same of declared programs.
pub proof fn lemma_executables_stop(
    decls: Seq<StarLinkTarget>,
    gens: Seq<(String, GeneratorVars)>,
    exes: Seq<StarExecutable>,
    st: Conversion,
    n: int,
)
    requires
        0 <= n <= exes.len(),
        executables_made(decls, gens, exes.take(n), st) is Err,
    ensures
        executables_reached(decls, gens, exes, st) == executables_reached(
            decls,
            gens,
            exes.take(n),
            st,
        ),
    decreases exes.len() - n,
{
    if n < exes.len() {
        assert(exes.take(n + 1).drop_last() =~= exes.take(n));
        lemma_executables_stop(decls, gens, exes, st, n + 1);
    } else {
        assert(exes.take(n) =~= exes);
    }
}

/// The same of the projects that a project depends on.
pub proof fn lemma_dependencies_stop(
    decls: Seq<StarLinkTarget>,
    project: StarProject,
    st: Conversion,
    n: int,
)
    requires
        0 <= n <= project.dependencies@.len(),
        dependencies_made(decls, project, n, st) is Err,
    ensures
        dependencies_reached(decls, project, project.dependencies@.len() as int, st)
            == dependencies_reached(decls, project, n, st),
    decreases project.dependencies@.len() - n,
{
    if n < project.dependencies@.len() {
        lemma_dependencies_stop(decls, project, st, n + 1);
    }
}

/// Where the links do not fail, they get to their end.
pub proof fn lemma_linked_arrives(
    decls: Seq<StarLinkTarget>,
    gens: Seq<(String, GeneratorVars)>,
    links: Seq<PtrLinkTarget>,
    bound: int,
    st: Conversion,
)
    ensures
        linked(decls, gens, links, bound, st) matches Ok((_, s)) ==> linked_reached(
            decls,
            gens,
            links,
            bound,
            st,
        ) == s,
{
    if links.len() != 0 {
        match linked(decls, gens, links.drop_last(), bound, st) {
            Ok((_, s)) => {
                let last = links.last().0;
                assert(materialized_reached(decls, gens, last, bound, s) == match materialized(
                    decls,
                    gens,
                    last,
                    bound,
                    s,
                ) {
                    Ok((_, c)) => c,
                    Err(_) => materialized_reached(decls, gens, last, bound, s),
                });
            },
            Err(_) => {},
        }
    }
}

/// Carrying on below a bound is carrying on below every greater bound.
pub proof fn lemma_carried_wider(
    decls: Seq<StarLinkTarget>,
    low: int,
    bound: int,
    c0: CacheView,
    n0: Seq<LinkNode>,
    c1: CacheView,
    n1: Seq<LinkNode>,
)
    requires
        carried_on(decls, low, c0, n0, c1, n1),
        low <= bound,
    ensures
        carried_on(decls, bound, c0, n0, c1, n1),
{
    crate::remembered::lemma_grows_wider(c0, c1, low, bound);
}

} // verus!
