//! Whether a lockfile still tells what the manifest asks for.

use super::overrides::{
    aliases_take_the_dependencies, all_settled, first_unsettled, order_of_overrides_keeps_map,
    override_map, override_views, overrides_mean_what_they_name, overriding_alike,
    resolve_overrides, same_overrides, settled, settling_keeps_keys, stands_for,
};
use crate::failure::{caused, Failure};
use crate::keyed::{unique_keys, Keyed};
use crate::project::{
    Dependency, DependencyType, GraphNode, Lockfile, Manifest, Override, ResolvedOverride,
    SpecifierView,
};
use crate::search;
use vstd::prelude::*;

verus! {

/// How reading the lockfile went.
#[derive(Debug)]
pub enum LockfileRead {
    Lockfile(Lockfile),
    NotFound,
    Failed(Failure),
}

/// Whether the package is there for such a dependency.
pub open spec fn is_direct(node: GraphNode, v: SpecifierView, ty: DependencyType) -> bool {
    node.direct is Some && node.direct->0.specifier@ == v && node.direct->0.ty == ty
}

/// Whether some package is there for the dependency.
pub open spec fn is_locked(graph: Seq<GraphNode>, d: Dependency) -> bool {
    exists|i: int| 0 <= i < graph.len() && is_direct(#[trigger] graph[i], d.specifier@, d.ty)
}

/// Whether there is a package for each of the dependencies.
pub open spec fn all_locked(graph: Seq<GraphNode>, all: Seq<Dependency>) -> bool {
    forall|i: int| 0 <= i < all.len() ==> is_locked(graph, #[trigger] all[i])
}

/// What is found out about a lockfile.
pub enum Finding {
    /// It is up to date.
    Fresh,
    Outdated,
    /// This went wrong.
    Error(Seq<Seq<char>>),
}

/// Whether the lockfile tells what the manifest asks for.
pub open spec fn finding(
    m: Manifest,
    l: Lockfile,
    all: Result<Vec<Dependency>, Failure>,
) -> Finding {
    match all_settled(m.overrides@, all) {
        Err(e) => Finding::Error(e),
        Ok(overrides) => if override_map(overrides) != override_map(override_views(l.overrides@))
            || m.target.kind != l.target || m.name@ != l.name@ || m.version@ != l.version@ {
            Finding::Outdated
        } else {
            match all {
                Err(e) => Finding::Error(caused("failed to get all dependencies"@, e@)),
                Ok(all) => if all_locked(l.graph@, all@) {
                    Finding::Fresh
                } else {
                    Finding::Outdated
                },
            }
        },
    }
}

fn find_locked(graph: &Vec<GraphNode>, d: &Dependency) -> (r: bool)
    ensures
        r == is_locked(graph@, *d),
{
    let mut i: usize = 0;
    while i < graph.len()
        invariant
            i <= graph.len(),
            forall|j: int|
                0 <= j < i ==> !is_direct(#[trigger] graph@[j], d.specifier@, d.ty),
        decreases graph.len() - i,
    {
        if let Some(direct) = &graph[i].direct {
            if direct.specifier.same(&d.specifier) && direct.ty == d.ty {
                assert(is_direct(graph@[i as int], d.specifier@, d.ty));
                return true;
            }
        }
        i = i + 1;
    }
    false
}

fn find_all_locked(graph: &Vec<GraphNode>, all: &Vec<Dependency>) -> (r: bool)
    ensures
        r == all_locked(graph@, all@),
{
    let mut i: usize = 0;
    while i < all.len()
        invariant
            i <= all.len(),
            forall|j: int| 0 <= j < i ==> is_locked(graph@, #[trigger] all@[j]),
        decreases all.len() - i,
    {
        if !find_locked(graph, &all[i]) {
            assert(!is_locked(graph@, all@[i as int]));
            return false;
        }
        i = i + 1;
    }
    true
}

/// Whether `r` is the lockfile if it is up to date, or what went wrong first.
pub open spec fn is_up_to_date_lockfile(
    manifest: Result<Manifest, Failure>,
    read: LockfileRead,
    all: Result<Vec<Dependency>, Failure>,
    r: Result<Option<Lockfile>, Failure>,
) -> bool {
    match manifest {
        Err(e) => r == Err::<Option<Lockfile>, Failure>(e),
        Ok(m) => match read {
            LockfileRead::Failed(e) => r == Err::<Option<Lockfile>, Failure>(e),
            LockfileRead::NotFound => r == Ok::<Option<Lockfile>, Failure>(None),
            LockfileRead::Lockfile(l) => match finding(m, l, all) {
                Finding::Fresh => r == Ok::<Option<Lockfile>, Failure>(Some(l)),
                Finding::Outdated => r == Ok::<Option<Lockfile>, Failure>(None),
                Finding::Error(e) => r is Err && r->Err_0@ == e,
            },
        },
    }
}

/// The lockfile, if it is up to date. The manifest comes first, then the
/// lockfile; all dependencies of the manifest are given too.
pub fn up_to_date_lockfile(
    manifest: Result<Manifest, Failure>,
    read: LockfileRead,
    all: &Result<Vec<Dependency>, Failure>,
) -> (r: Result<Option<Lockfile>, Failure>)
    ensures
        is_up_to_date_lockfile(manifest, read, *all, r),
        match manifest {
            Err(e) => r == Err::<Option<Lockfile>, Failure>(e),
            Ok(m) => match read {
                LockfileRead::Failed(e) => r == Err::<Option<Lockfile>, Failure>(e),
                LockfileRead::NotFound => r == Ok::<Option<Lockfile>, Failure>(None),
                LockfileRead::Lockfile(l) => match finding(m, l, *all) {
                    Finding::Fresh => r == Ok::<Option<Lockfile>, Failure>(Some(l)),
                    Finding::Outdated => r == Ok::<Option<Lockfile>, Failure>(None),
                    Finding::Error(e) => r is Err && r->Err_0@ == e,
                },
            },
        },
        r matches Ok(Some(l)) ==> read == LockfileRead::Lockfile(l) && (manifest matches Ok(m)
            && m.name@ == l.name@ && m.version@ == l.version@ && m.target.kind == l.target) && (
        *all matches Ok(deps) && forall|i: int|
            0 <= i < deps@.len() ==> has_node_for(l.graph@, #[trigger] deps@[i])),
{
    let manifest = match manifest {
        Err(e) => {
            return Err(e);
        },
        Ok(manifest) => manifest,
    };
    let lockfile = match read {
        LockfileRead::Failed(e) => {
            return Err(e);
        },
        LockfileRead::NotFound => {
            return Ok(None);
        },
        LockfileRead::Lockfile(lockfile) => lockfile,
    };
    let overrides = match resolve_overrides(&manifest, all) {
        Err(e) => {
            return Err(e);
        },
        Ok(overrides) => overrides,
    };
    if !same_overrides(&overrides, &lockfile.overrides) {
        return Ok(None);
    }
    if manifest.target.kind != lockfile.target {
        return Ok(None);
    }
    if !(manifest.name == lockfile.name) || !manifest.version.same(&lockfile.version) {
        return Ok(None);
    }
    match all {
        Err(e) => Err(e.copy().context("failed to get all dependencies")),
        Ok(all) => {
            if find_all_locked(&lockfile.graph, all) {
                proof {
                    lemma_nodes_for_all(lockfile.graph@, all@);
                }
                Ok(Some(lockfile))
            } else {
                Ok(None)
            }
        },
    }
}

/// Whether each package that is there for a dependency has one in the other graph that is
/// there for the same, under whatever alias and in whatever place.
pub open spec fn covers(graph: Seq<GraphNode>, other: Seq<GraphNode>) -> bool {
    forall|i: int|
        0 <= i < graph.len() && (#[trigger] graph[i]).direct is Some ==> exists|j: int|
            0 <= j < other.len() && is_direct(
                #[trigger] other[j],
                graph[i].direct->0.specifier@,
                graph[i].direct->0.ty,
            )
}

/// A lockfile stays up to date when packages are added to it, wherever they are put, and
/// when the aliases of its packages change.
pub proof fn more_packages_do_no_harm(
    m: Manifest,
    l: Lockfile,
    more: Lockfile,
    all: Result<Vec<Dependency>, Failure>,
)
    requires
        finding(m, l, all) is Fresh,
        more == (Lockfile { graph: more.graph, ..l }),
        covers(l.graph@, more.graph@),
    ensures
        finding(m, more, all) is Fresh,
{
    let deps = all->Ok_0@;
    assert forall|i: int| 0 <= i < deps.len() implies is_locked(
        more.graph@,
        #[trigger] deps[i],
    ) by {
        assert(is_locked(l.graph@, deps[i]));
        let k = choose|k: int|
            0 <= k < l.graph@.len() && is_direct(
                #[trigger] l.graph@[k],
                deps[i].specifier@,
                deps[i].ty,
            );
        let j = choose|j: int|
            0 <= j < more.graph@.len() && is_direct(
                #[trigger] more.graph@[j],
                l.graph@[k].direct->0.specifier@,
                l.graph@[k].direct->0.ty,
            );
        assert(is_direct(more.graph@[j], deps[i].specifier@, deps[i].ty));
    }
}

/// A graph to which packages were added, wherever they are put, has a package for all
/// that the smaller one has one for.
pub proof fn larger_graphs_cover(graph: Seq<GraphNode>, other: Seq<GraphNode>)
    requires
        forall|node: GraphNode| #[trigger] graph.contains(node) ==> other.contains(node),
    ensures
        covers(graph, other),
{
    assert forall|i: int|
        0 <= i < graph.len() && (#[trigger] graph[i]).direct is Some implies exists|j: int|
        0 <= j < other.len() && is_direct(
            #[trigger] other[j],
            graph[i].direct->0.specifier@,
            graph[i].direct->0.ty,
        ) by {
        assert(graph.contains(graph[i]));
        let j = choose|j: int| 0 <= j < other.len() && other[j] == graph[i];
        assert(is_direct(other[j], graph[i].direct->0.specifier@, graph[i].direct->0.ty));
    }
}

/// Which lockfiles are up to date does not depend on the order of their overrides.
pub proof fn order_of_overrides_is_irrelevant(
    m: Manifest,
    l: Lockfile,
    other: Lockfile,
    all: Result<Vec<Dependency>, Failure>,
)
    requires
        l.well_formed(),
        other.well_formed(),
        other == (Lockfile { overrides: other.overrides, ..l }),
        forall|o: ResolvedOverride| #[trigger]
            l.overrides@.contains(o) <==> other.overrides@.contains(o),
    ensures
        finding(m, other, all) == finding(m, l, all),
{
    order_of_overrides_keeps_map(l.overrides@, other.overrides@);
}

/// A lockfile that is up to date is of the same package, and has a package for
/// each of the dependencies.
pub proof fn fresh_lockfiles_match(
    m: Manifest,
    l: Lockfile,
    all: Result<Vec<Dependency>, Failure>,
    i: int,
)
    requires
        finding(m, l, all) is Fresh,
        0 <= i < all->Ok_0@.len(),
    ensures
        m.name@ == l.name@,
        m.version@ == l.version@,
        m.target.kind == l.target,
        is_locked(l.graph@, all->Ok_0@[i]),
        override_map(all_settled(m.overrides@, all)->Ok_0) == override_map(
            override_views(l.overrides@),
        ),
{
}

/// Whether a node of the graph is a direct dependency with the specifier and of the type of
/// that one.
pub open spec fn has_node_for(graph: Seq<GraphNode>, d: Dependency) -> bool {
    exists|j: int|
        0 <= j < graph.len() && ((#[trigger] graph[j]).direct matches Some(direct)
            && direct.specifier@ == d.specifier@ && direct.ty == d.ty)
}

proof fn lemma_nodes_for_all(graph: Seq<GraphNode>, all: Seq<Dependency>)
    requires
        all_locked(graph, all),
    ensures
        forall|i: int| 0 <= i < all.len() ==> has_node_for(graph, #[trigger] all[i]),
{
    assert forall|i: int| 0 <= i < all.len() implies has_node_for(graph, #[trigger] all[i]) by {
        assert(is_locked(graph, all[i]));
        let j = choose|j: int|
            0 <= j < graph.len() && is_direct(#[trigger] graph[j], all[i].specifier@, all[i].ty);
        assert(graph[j].direct is Some);
    }
}

/// A lockfile that is found up to date has, for each dependency of the manifest, a node whose
/// direct entry has the specifier of the dependency and the same type.
pub proof fn fresh_lockfiles_lock_every_dependency(
    m: Manifest,
    l: Lockfile,
    deps: Vec<Dependency>,
    i: int,
)
    requires
        finding(m, l, Ok::<Vec<Dependency>, Failure>(deps)) is Fresh,
        0 <= i < deps@.len(),
    ensures
        exists|j: int|
            0 <= j < l.graph@.len() && ((#[trigger] l.graph@[j]).direct matches Some(direct)
                && direct.specifier@ == deps@[i].specifier@ && direct.ty == deps@[i].ty),
{
    assert(is_locked(l.graph@, deps@[i]));
    let j = choose|j: int|
        0 <= j < l.graph@.len() && is_direct(
            #[trigger] l.graph@[j],
            deps@[i].specifier@,
            deps@[i].ty,
        );
    assert(l.graph@[j].direct is Some);
}

/// Whether each override of the manifest is in the lockfile under its key, with the
/// specifier that it stands for.
pub open spec fn overrides_kept(
    overrides: Seq<Override>,
    deps: Seq<Dependency>,
    kept: Seq<ResolvedOverride>,
) -> bool {
    forall|i: int|
        #![trigger overrides[i]]
        0 <= i < overrides.len() ==> exists|j: int|
            0 <= j < kept.len() && (#[trigger] kept[j]).key@ == overrides[i].key@ && stands_for(
                overrides[i],
                deps,
                kept[j].specifier@,
            )
}

/// Whether each override of the lockfile is in the manifest under its key, where it stands
/// for that specifier.
pub open spec fn overrides_asked(
    overrides: Seq<Override>,
    deps: Seq<Dependency>,
    kept: Seq<ResolvedOverride>,
) -> bool {
    forall|j: int|
        #![trigger kept[j]]
        0 <= j < kept.len() ==> exists|i: int|
            0 <= i < overrides.len() && (#[trigger] overrides[i]).key@ == kept[j].key@
                && stands_for(overrides[i], deps, kept[j].specifier@)
}

proof fn lemma_settled_as_named(overrides: Seq<Override>, deps: Vec<Dependency>)
    requires
        all_settled(overrides, Ok::<Vec<Dependency>, Failure>(deps)) is Ok,
    ensures
        ({
            let a = all_settled(overrides, Ok::<Vec<Dependency>, Failure>(deps))->Ok_0;
            &&& a.len() == overrides.len()
            &&& forall|i: int|
                0 <= i < a.len() ==> (#[trigger] a[i]).0 == overrides[i].key@ && stands_for(
                    overrides[i],
                    deps@,
                    a[i].1,
                )
        }),
{
    let all = Ok::<Vec<Dependency>, Failure>(deps);
    let a = all_settled(overrides, all)->Ok_0;
    if overrides.len() > 0 {
        settling_keeps_keys(overrides, all, 0);
    }
    assert(a.len() == overrides.len());
    assert forall|i: int| 0 <= i < a.len() implies (#[trigger] a[i]).0 == overrides[i].key@
        && stands_for(overrides[i], deps@, a[i].1) by {
        settling_keeps_keys(overrides, all, i);
        overrides_mean_what_they_name(overrides[i], deps);
    }
}

proof fn lemma_one_specifier(
    o: Override,
    deps: Vec<Dependency>,
    v: SpecifierView,
    w: SpecifierView,
)
    requires
        stands_for(o, deps@, v),
        stands_for(o, deps@, w),
    ensures
        v == w,
{
    overrides_mean_what_they_name(o, deps);
}

proof fn lemma_kept(overrides: Seq<Override>, deps: Vec<Dependency>, kept: Seq<ResolvedOverride>)
    requires
        all_settled(overrides, Ok::<Vec<Dependency>, Failure>(deps)) is Ok,
    ensures
        ({
            let a = all_settled(overrides, Ok::<Vec<Dependency>, Failure>(deps))->Ok_0;
            let b = override_views(kept);
            (forall|i: int| 0 <= i < a.len() ==> b.contains(#[trigger] a[i])) <==> overrides_kept(
                overrides,
                deps@,
                kept,
            )
        }),
{
    let a = all_settled(overrides, Ok::<Vec<Dependency>, Failure>(deps))->Ok_0;
    let b = override_views(kept);
    lemma_settled_as_named(overrides, deps);
    if forall|i: int| 0 <= i < a.len() ==> b.contains(#[trigger] a[i]) {
        assert forall|i: int| #![trigger overrides[i]] 0 <= i < overrides.len() implies exists|
            j: int,
        |
            0 <= j < kept.len() && (#[trigger] kept[j]).key@ == overrides[i].key@ && stands_for(
                overrides[i],
                deps@,
                kept[j].specifier@,
            ) by {
            assert(b.contains(a[i]));
            let j = choose|j: int| 0 <= j < b.len() && b[j] == a[i];
            assert(kept[j]@ == a[i]);
            assert(kept[j].key@ == overrides[i].key@);
        }
    }
    if overrides_kept(overrides, deps@, kept) {
        assert forall|i: int| 0 <= i < a.len() implies b.contains(#[trigger] a[i]) by {
            let o = overrides[i];
            let j = choose|j: int|
                0 <= j < kept.len() && (#[trigger] kept[j]).key@ == o.key@ && stands_for(
                    o,
                    deps@,
                    kept[j].specifier@,
                );
            lemma_one_specifier(o, deps, a[i].1, kept[j].specifier@);
            assert(b[j] == a[i]);
        }
    }
}

proof fn lemma_asked(overrides: Seq<Override>, deps: Vec<Dependency>, kept: Seq<ResolvedOverride>)
    requires
        all_settled(overrides, Ok::<Vec<Dependency>, Failure>(deps)) is Ok,
    ensures
        ({
            let a = all_settled(overrides, Ok::<Vec<Dependency>, Failure>(deps))->Ok_0;
            let b = override_views(kept);
            (forall|j: int| 0 <= j < b.len() ==> a.contains(#[trigger] b[j])) <==> overrides_asked(
                overrides,
                deps@,
                kept,
            )
        }),
{
    let a = all_settled(overrides, Ok::<Vec<Dependency>, Failure>(deps))->Ok_0;
    let b = override_views(kept);
    lemma_settled_as_named(overrides, deps);
    if forall|j: int| 0 <= j < b.len() ==> a.contains(#[trigger] b[j]) {
        assert forall|j: int| #![trigger kept[j]] 0 <= j < kept.len() implies exists|i: int|
            0 <= i < overrides.len() && (#[trigger] overrides[i]).key@ == kept[j].key@
                && stands_for(overrides[i], deps@, kept[j].specifier@) by {
            assert(a.contains(b[j]));
            let i = choose|i: int| 0 <= i < a.len() && a[i] == b[j];
            assert(overrides[i].key@ == kept[j].key@);
        }
    }
    if overrides_asked(overrides, deps@, kept) {
        assert forall|j: int| 0 <= j < b.len() implies a.contains(#[trigger] b[j]) by {
            let o = kept[j];
            let i = choose|i: int|
                0 <= i < overrides.len() && (#[trigger] overrides[i]).key@ == o.key@
                    && stands_for(overrides[i], deps@, o.specifier@);
            lemma_one_specifier(overrides[i], deps, a[i].1, o.specifier@);
            assert(a[i] == b[j]);
        }
    }
}

proof fn lemma_overrides_agree(
    overrides: Seq<Override>,
    deps: Vec<Dependency>,
    kept: Seq<ResolvedOverride>,
)
    requires
        unique_keys(overrides),
        unique_keys(kept),
        all_settled(overrides, Ok::<Vec<Dependency>, Failure>(deps)) is Ok,
    ensures
        override_map(all_settled(overrides, Ok::<Vec<Dependency>, Failure>(deps))->Ok_0)
            == override_map(override_views(kept)) <==> overrides_kept(overrides, deps@, kept)
            && overrides_asked(overrides, deps@, kept),
{
    let a = all_settled(overrides, Ok::<Vec<Dependency>, Failure>(deps))->Ok_0;
    let b = override_views(kept);
    lemma_settled_as_named(overrides, deps);
    assert forall|i: int, j: int| 0 <= i < j < a.len() implies (#[trigger] a[i]).0 != (
    #[trigger] a[j]).0 by {
        assert(overrides[i].key() != overrides[j].key());
    }
    assert forall|i: int, j: int| 0 <= i < j < b.len() implies (#[trigger] b[i]).0 != (
    #[trigger] b[j]).0 by {
        assert(kept[i].key() != kept[j].key());
    }
    overriding_alike(a, b);
    lemma_kept(overrides, deps, kept);
    lemma_asked(overrides, deps, kept);
}

/// A lockfile is up to date if and only if it is of the same package, in the same version
/// and for the same target, overrides the same dependencies by what the manifest replaces
/// them by, and has a node for each dependency, with its specifier and of its type.
pub proof fn what_makes_lockfiles_fresh(m: Manifest, l: Lockfile, deps: Vec<Dependency>)
    requires
        unique_keys(m.overrides@),
        l.well_formed(),
        all_settled(m.overrides@, Ok::<Vec<Dependency>, Failure>(deps)) is Ok,
    ensures
        finding(m, l, Ok::<Vec<Dependency>, Failure>(deps)) is Fresh <==> {
            &&& l.name@ == m.name@
            &&& l.version@ == m.version@
            &&& l.target == m.target.kind
            &&& overrides_kept(m.overrides@, deps@, l.overrides@)
            &&& overrides_asked(m.overrides@, deps@, l.overrides@)
            &&& forall|i: int|
                0 <= i < deps@.len() ==> has_node_for(l.graph@, #[trigger] deps@[i])
        },
        !(finding(m, l, Ok::<Vec<Dependency>, Failure>(deps)) is Fresh) ==> finding(
            m,
            l,
            Ok::<Vec<Dependency>, Failure>(deps),
        ) is Outdated,
{
    lemma_overrides_agree(m.overrides@, deps, l.overrides@);
    assert forall|i: int| 0 <= i < deps@.len() implies has_node_for(
        l.graph@,
        #[trigger] deps@[i],
    ) == is_locked(l.graph@, deps@[i]) by {
        let d = deps@[i];
        if is_locked(l.graph@, d) {
            let j = choose|j: int|
                0 <= j < l.graph@.len() && is_direct(#[trigger] l.graph@[j], d.specifier@, d.ty);
            assert(l.graph@[j].direct is Some);
        }
        if has_node_for(l.graph@, d) {
            let j = choose|j: int|
                0 <= j < l.graph@.len() && ((#[trigger] l.graph@[j]).direct matches Some(direct)
                    && direct.specifier@ == d.specifier@ && direct.ty == d.ty);
            assert(is_direct(l.graph@[j], d.specifier@, d.ty));
        }
    }
}

/// The lockfile that was read is given back, and only if it is of the same package and has a
/// node for each dependency; one that is missing counts as outdated. A manifest or a lockfile
/// that cannot be read is an error.
pub proof fn lockfiles_are_given_back(
    manifest: Result<Manifest, Failure>,
    read: LockfileRead,
    all: Result<Vec<Dependency>, Failure>,
    r: Result<Option<Lockfile>, Failure>,
)
    requires
        is_up_to_date_lockfile(manifest, read, all, r),
    ensures
        manifest matches Err(e) ==> r == Err::<Option<Lockfile>, Failure>(e),
        manifest is Ok ==> (read matches LockfileRead::Failed(e) ==> r == Err::<
            Option<Lockfile>,
            Failure,
        >(e)),
        manifest is Ok && read is NotFound ==> r == Ok::<Option<Lockfile>, Failure>(None),
        r matches Ok(Some(l)) ==> {
            &&& read == LockfileRead::Lockfile(l)
            &&& manifest matches Ok(m)
            &&& m.name@ == l.name@
            &&& m.version@ == l.version@
            &&& m.target.kind == l.target
            &&& all matches Ok(deps)
            &&& forall|i: int|
                0 <= i < deps@.len() ==> has_node_for(l.graph@, #[trigger] deps@[i])
        },
{
    if let Ok(Some(l)) = r {
        lemma_nodes_for_all(l.graph@, all->Ok_0@);
    }
}

/// Where the dependencies of a manifest cannot be listed, no lockfile is up to date. That they
/// cannot is the error, if it gets that far: a lockfile of another package, version or target
/// is outdated all the same, unless an override already needs the dependencies.
pub proof fn dependencies_must_be_listed(m: Manifest, l: Lockfile, e: Failure)
    ensures
        ({
            let f = finding(m, l, Err::<Vec<Dependency>, Failure>(e));
            let aliased = exists|i: int|
                0 <= i < m.overrides@.len() && (#[trigger] m.overrides@[i]).specifier is Alias;
            &&& !(f is Fresh)
            &&& f matches Finding::Error(c) ==> c == seq!["failed to get all dependencies"@] + e@
            &&& aliased ==> f is Error
            &&& !aliased && (m.name@ != l.name@ || m.version@ != l.version@ || m.target.kind
                != l.target) ==> f is Outdated
        }),
{
    let all = Err::<Vec<Dependency>, Failure>(e);
    let overrides = m.overrides@;
    let fails = |i: int| settled(overrides[i], all) is Err;
    search::lemma_first_index_bounds(overrides.len() as int, fails);
    let k = first_unsettled(overrides, all);
    if k < overrides.len() {
        assert(fails(k));
        aliases_take_the_dependencies(overrides[k], e);
        assert(overrides[k].specifier is Alias);
    } else {
        assert forall|i: int| 0 <= i < overrides.len() implies !((
        #[trigger] overrides[i]).specifier is Alias) by {
            assert(!fails(i));
            aliases_take_the_dependencies(overrides[i], e);
        }
    }
}

} // verus!
