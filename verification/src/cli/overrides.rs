//! Settling the overrides of a manifest.

use crate::failure::{caused, plain, Failure};
use crate::keyed::{
    entry, find, index_of_key, lemma_index_of_key, lemma_index_of_key_unique, unique_keys, Keyed,
};
use crate::project::{
    Dependency, DependencySpecifiers, Manifest, Override, OverrideSpecifier, ResolvedOverride,
    SpecifierView,
};
use crate::search;
use crate::text;
use vstd::prelude::*;

verus! {

/// The specifier that an override stands for, given all dependencies of the
/// manifest, or the error that stops it.
pub open spec fn settled(o: Override, all: Result<Vec<Dependency>, Failure>) -> Result<
    SpecifierView,
    Seq<Seq<char>>,
> {
    match o.specifier {
        OverrideSpecifier::Specifier(s) => Ok(s@),
        OverrideSpecifier::Alias(alias) => match all {
            Err(e) => Err(caused("failed to get all dependencies"@, e@)),
            Ok(all) => match entry(all@, alias@) {
                None => Err(plain("alias `"@ + alias@ + "` not found in manifest"@)),
                Some(d) => Ok(d.specifier@),
            },
        },
    }
}

/// The first override that cannot be settled, or the number of overrides.
pub open spec fn first_unsettled(
    overrides: Seq<Override>,
    all: Result<Vec<Dependency>, Failure>,
) -> int {
    search::first_index(overrides.len() as int, |i: int| settled(overrides[i], all) is Err)
}

/// What the overrides stand for, or the first error.
pub open spec fn all_settled(
    overrides: Seq<Override>,
    all: Result<Vec<Dependency>, Failure>,
) -> Result<Seq<(Seq<char>, SpecifierView)>, Seq<Seq<char>>> {
    let k = first_unsettled(overrides, all);
    if k < overrides.len() {
        Err(settled(overrides[k], all)->Err_0)
    } else {
        Ok(overrides.map_values(|o: Override| (o.key@, settled(o, all)->Ok_0)))
    }
}

/// A list of settled overrides.
pub open spec fn override_views(list: Seq<ResolvedOverride>) -> Seq<(Seq<char>, SpecifierView)> {
    list.map_values(|o: ResolvedOverride| o@)
}

fn settle(o: &Override, all: &Result<Vec<Dependency>, Failure>) -> (r: Result<
    DependencySpecifiers,
    Failure,
>)
    ensures
        match r {
            Ok(s) => settled(*o, *all) == Ok::<SpecifierView, Seq<Seq<char>>>(s@),
            Err(e) => settled(*o, *all) == Err::<SpecifierView, Seq<Seq<char>>>(e@),
        },
{
    match &o.specifier {
        OverrideSpecifier::Specifier(s) => Ok(s.copy()),
        OverrideSpecifier::Alias(alias) => match all {
            Err(e) => Err(e.copy().context("failed to get all dependencies")),
            Ok(all) => match find(all, alias.as_str()) {
                None => Err(
                    Failure::new(
                        text::cat3("alias `", alias.as_str(), "` not found in manifest"),
                    ),
                ),
                Some(d) => Ok(d.specifier.copy()),
            },
        },
    }
}

/// Settles the overrides of a manifest, given all its dependencies.
pub fn resolve_overrides(manifest: &Manifest, all: &Result<Vec<Dependency>, Failure>) -> (r: Result<
    Vec<ResolvedOverride>,
    Failure,
>)
    ensures
        match r {
            Ok(list) => all_settled(manifest.overrides@, *all) == Ok::<
                Seq<(Seq<char>, SpecifierView)>,
                Seq<Seq<char>>,
            >(override_views(list@)) && (unique_keys(manifest.overrides@) ==> unique_keys(list@)),
            Err(e) => all_settled(manifest.overrides@, *all) == Err::<
                Seq<(Seq<char>, SpecifierView)>,
                Seq<Seq<char>>,
            >(e@),
        },
{
    let mut list: Vec<ResolvedOverride> = Vec::new();
    let mut i: usize = 0;
    let ghost overrides = manifest.overrides@;
    let ghost fails = |i: int| settled(overrides[i], *all) is Err;
    while i < manifest.overrides.len()
        invariant
            i <= manifest.overrides.len(),
            overrides == manifest.overrides@,
            fails == (|i: int| settled(overrides[i], *all) is Err),
            list@.len() == i,
            forall|j: int| 0 <= j < i ==> !(#[trigger] fails(j)),
            forall|j: int|
                0 <= j < i ==> #[trigger] list@[j]@ == (
                    overrides[j].key@,
                    settled(overrides[j], *all)->Ok_0,
                ),
        decreases manifest.overrides.len() - i,
    {
        let o = &manifest.overrides[i];
        match settle(o, all) {
            Ok(specifier) => {
                assert(!fails(i as int));
                list.push(ResolvedOverride { key: o.key.clone(), specifier });
            },
            Err(e) => {
                assert(fails(i as int));
                proof {
                    search::lemma_first_index(overrides.len() as int, fails, i as int);
                }
                return Err(e);
            },
        }
        i = i + 1;
    }
    proof {
        search::lemma_first_index(overrides.len() as int, fails, i as int);
        assert(override_views(list@) =~= overrides.map_values(
            |o: Override| (o.key@, settled(o, *all)->Ok_0),
        )) by {
            assert forall|j: int| 0 <= j < overrides.len() implies override_views(list@)[j]
                == overrides.map_values(|o: Override| (o.key@, settled(o, *all)->Ok_0))[j] by {
                assert(list@[j]@ == (overrides[j].key@, settled(overrides[j], *all)->Ok_0));
            }
        }
        if unique_keys(overrides) {
            assert forall|i: int, j: int| 0 <= i < j < list@.len() implies (
            #[trigger] list@[i]).key() != (#[trigger] list@[j]).key() by {
                assert(list@[i]@.0 == overrides[i].key());
                assert(list@[j]@.0 == overrides[j].key());
            }
        }
    }
    Ok(list)
}

/// What a list of overrides says: what is replaced, and by what. Of two overrides with
/// the same key the later one counts.
pub open spec fn override_map(list: Seq<(Seq<char>, SpecifierView)>) -> Map<
    Seq<char>,
    SpecifierView,
>
    decreases list.len(),
{
    if list.len() == 0 {
        Map::empty()
    } else {
        override_map(list.drop_last()).insert(list.last().0, list.last().1)
    }
}

/// A key is overridden by the last entry that has it.
proof fn lemma_override_map(list: Seq<(Seq<char>, SpecifierView)>, i: int)
    requires
        0 <= i < list.len(),
        forall|j: int| i < j < list.len() ==> (#[trigger] list[j]).0 != list[i].0,
    ensures
        override_map(list).dom().contains(list[i].0),
        override_map(list)[list[i].0] == list[i].1,
    decreases list.len(),
{
    if i < list.len() - 1 {
        let rest = list.drop_last();
        assert(list.last().0 != list[i].0);
        assert(rest[i] == list[i]);
        assert forall|j: int| i < j < rest.len() implies (#[trigger] rest[j]).0 != rest[i].0 by {
            assert(rest[j] == list[j]);
        }
        lemma_override_map(rest, i);
    }
}

/// Only a key that is in the list is overridden.
proof fn lemma_overridden(list: Seq<(Seq<char>, SpecifierView)>, key: Seq<char>)
    ensures
        override_map(list).dom().contains(key) <==> exists|i: int|
            0 <= i < list.len() && (#[trigger] list[i]).0 == key,
    decreases list.len(),
{
    if list.len() > 0 {
        let rest = list.drop_last();
        lemma_overridden(rest, key);
        if override_map(list).dom().contains(key) {
            if list.last().0 == key {
                assert(list[list.len() - 1].0 == key);
            } else {
                let i = choose|i: int| 0 <= i < rest.len() && (#[trigger] rest[i]).0 == key;
                assert(list[i].0 == key);
            }
        }
        if exists|i: int| 0 <= i < list.len() && (#[trigger] list[i]).0 == key {
            let i = choose|i: int| 0 <= i < list.len() && (#[trigger] list[i]).0 == key;
            if i < rest.len() {
                assert(rest[i].0 == key);
            }
        }
    }
}

fn override_of<'a>(list: &'a Vec<ResolvedOverride>, key: &str) -> (r: Option<
    &'a DependencySpecifiers,
>)
    ensures
        match r {
            Some(s) => override_map(override_views(list@)).dom().contains(key@) && override_map(
                override_views(list@),
            )[key@] == s@,
            None => !override_map(override_views(list@)).dom().contains(key@),
        },
{
    let ghost views = override_views(list@);
    let mut i: usize = list.len();
    while i > 0
        invariant
            i <= list.len(),
            views == override_views(list@),
            forall|j: int| i <= j < list.len() ==> (#[trigger] views[j]).0 != key@,
        decreases i,
    {
        i = i - 1;
        assert(views[i as int] == list@[i as int]@);
        if text::same(list[i].key.as_str(), key) {
            proof {
                lemma_override_map(views, i as int);
            }
            return Some(&list[i].specifier);
        }
    }
    proof {
        lemma_overridden(views, key@);
    }
    None
}

/// Whether each entry of the first list is overridden alike in both.
fn agrees(a: &Vec<ResolvedOverride>, b: &Vec<ResolvedOverride>) -> (r: bool)
    ensures
        r == forall|key: Seq<char>| #[trigger]
            override_map(override_views(a@)).dom().contains(key) ==> override_map(
                override_views(b@),
            ).dom().contains(key) && override_map(override_views(a@))[key] == override_map(
                override_views(b@),
            )[key],
{
    let ghost from = override_map(override_views(a@));
    let ghost to = override_map(override_views(b@));
    let mut i: usize = 0;
    while i < a.len()
        invariant
            i <= a.len(),
            from == override_map(override_views(a@)),
            to == override_map(override_views(b@)),
            forall|j: int|
                0 <= j < i ==> to.dom().contains((#[trigger] a@[j]).key@) && from[a@[j].key@]
                    == to[a@[j].key@],
        decreases a.len() - i,
    {
        let key = a[i].key.as_str();
        proof {
            lemma_overridden(override_views(a@), key@);
            assert(override_views(a@)[i as int].0 == key@);
            assert(from.dom().contains(key@));
        }
        match (override_of(a, key), override_of(b, key)) {
            (Some(x), Some(y)) => {
                if !x.same(y) {
                    return false;
                }
            },
            _ => {
                return false;
            },
        }
        i = i + 1;
    }
    proof {
        assert forall|key: Seq<char>| #[trigger] from.dom().contains(key) implies to.dom().contains(
            key,
        ) && from[key] == to[key] by {
            lemma_overridden(override_views(a@), key);
            let j = choose|j: int|
                0 <= j < override_views(a@).len() && (#[trigger] override_views(a@)[j]).0 == key;
            assert(a@[j].key@ == key);
        }
    }
    true
}

/// Whether two lists override the same dependencies alike. The order is irrelevant.
pub fn same_overrides(a: &Vec<ResolvedOverride>, b: &Vec<ResolvedOverride>) -> (r: bool)
    ensures
        r == (override_map(override_views(a@)) == override_map(override_views(b@))),
{
    let r = agrees(a, b) && agrees(b, a);
    proof {
        if r {
            assert(override_map(override_views(a@)) =~= override_map(override_views(b@)));
        }
    }
    r
}

proof fn lemma_same_entries(a: Seq<ResolvedOverride>, b: Seq<ResolvedOverride>, key: Seq<char>)
    requires
        unique_keys(a),
        unique_keys(b),
        forall|o: ResolvedOverride| #[trigger] a.contains(o) ==> b.contains(o),
        override_map(override_views(a)).dom().contains(key),
    ensures
        override_map(override_views(b)).dom().contains(key),
        override_map(override_views(a))[key] == override_map(override_views(b))[key],
{
    let from = override_views(a);
    let to = override_views(b);
    lemma_overridden(from, key);
    let i = choose|i: int| 0 <= i < from.len() && (#[trigger] from[i]).0 == key;
    assert(a.contains(a[i]));
    let j = choose|j: int| 0 <= j < b.len() && b[j] == a[i];
    assert(to[j] == from[i]);
    assert forall|k: int| i < k < from.len() implies (#[trigger] from[k]).0 != from[i].0 by {
        assert(a[i].key() != a[k].key());
    }
    assert forall|k: int| j < k < to.len() implies (#[trigger] to[k]).0 != to[j].0 by {
        assert(b[j].key() != b[k].key());
    }
    lemma_override_map(from, i);
    lemma_override_map(to, j);
}

/// With unique keys, what overrides say does not depend on their order.
pub proof fn order_of_overrides_keeps_map(a: Seq<ResolvedOverride>, b: Seq<ResolvedOverride>)
    requires
        unique_keys(a),
        unique_keys(b),
        forall|o: ResolvedOverride| #[trigger] a.contains(o) <==> b.contains(o),
    ensures
        override_map(override_views(a)) == override_map(override_views(b)),
{
    let from = override_map(override_views(a));
    let to = override_map(override_views(b));
    assert forall|key: Seq<char>| #[trigger] from.dom().contains(key) implies to.dom().contains(key)
        && from[key] == to[key] by {
        lemma_same_entries(a, b, key);
    }
    assert forall|key: Seq<char>| #[trigger] to.dom().contains(key) implies from.dom().contains(
        key,
    ) by {
        lemma_same_entries(b, a, key);
    }
    assert(from =~= to);
}

/// With unique keys, each override of a manifest is settled under its key, whatever the
/// others are.
pub proof fn overrides_are_settled_under_their_keys(
    overrides: Seq<Override>,
    all: Result<Vec<Dependency>, Failure>,
    i: int,
)
    requires
        unique_keys(overrides),
        all_settled(overrides, all) is Ok,
        0 <= i < overrides.len(),
    ensures
        override_map(all_settled(overrides, all)->Ok_0).dom().contains(overrides[i].key@),
        settled(overrides[i], all) == Ok::<SpecifierView, Seq<Seq<char>>>(
            override_map(all_settled(overrides, all)->Ok_0)[overrides[i].key@],
        ),
{
    let list = all_settled(overrides, all)->Ok_0;
    settling_keeps_keys(overrides, all, i);
    assert forall|j: int| i < j < list.len() implies (#[trigger] list[j]).0 != list[i].0 by {
        settling_keeps_keys(overrides, all, j);
        assert(overrides[i].key() != overrides[j].key());
    }
    lemma_override_map(list, i);
}

/// Overrides that name no alias are settled whatever the dependencies are.
pub proof fn plain_overrides_are_settled(
    overrides: Seq<Override>,
    all: Result<Vec<Dependency>, Failure>,
)
    requires
        forall|i: int|
            0 <= i < overrides.len() ==> (#[trigger] overrides[i]).specifier is Specifier,
    ensures
        all_settled(overrides, all) is Ok,
{
    let fails = |i: int| settled(overrides[i], all) is Err;
    search::lemma_first_index_bounds(overrides.len() as int, fails);
    let k = first_unsettled(overrides, all);
    if k < overrides.len() {
        assert(fails(k));
        assert(overrides[k].specifier is Specifier);
    }
}

/// Settling keeps the overrides, under their keys and in their order.
pub proof fn settling_keeps_keys(
    overrides: Seq<Override>,
    all: Result<Vec<Dependency>, Failure>,
    i: int,
)
    requires
        all_settled(overrides, all) is Ok,
        0 <= i < overrides.len(),
    ensures
        all_settled(overrides, all)->Ok_0.len() == overrides.len(),
        all_settled(overrides, all)->Ok_0[i].0 == overrides[i].key@,
        settled(overrides[i], all) == Ok::<SpecifierView, Seq<Seq<char>>>(
            all_settled(overrides, all)->Ok_0[i].1,
        ),
{
    let fails = |i: int| settled(overrides[i], all) is Err;
    search::lemma_first_index_bounds(overrides.len() as int, fails);
    assert(!fails(i));
}

/// Whether the specifier is the one that the override names: its own, or that of the first
/// dependency with its alias.
pub open spec fn stands_for(o: Override, deps: Seq<Dependency>, v: SpecifierView) -> bool {
    match o.specifier {
        OverrideSpecifier::Specifier(s) => s@ == v,
        OverrideSpecifier::Alias(alias) => exists|n: int|
            {
                &&& 0 <= n < deps.len()
                &&& (#[trigger] deps[n]).alias@ == alias@
                &&& deps[n].specifier@ == v
                &&& forall|j: int| 0 <= j < n ==> (#[trigger] deps[j]).alias@ != alias@
            },
    }
}

/// An override is settled by the specifier that it names, its own or that of the dependency
/// with its alias. It is not settled if and only if it names an alias that no dependency
/// has, which is then told.
pub proof fn overrides_mean_what_they_name(o: Override, deps: Vec<Dependency>)
    ensures
        match settled(o, Ok::<Vec<Dependency>, Failure>(deps)) {
            Ok(v) => stands_for(o, deps@, v),
            Err(e) => o.specifier matches OverrideSpecifier::Alias(alias) && (forall|j: int|
                0 <= j < deps@.len() ==> (#[trigger] deps@[j]).alias@ != alias@) && e == seq![
                "alias `"@ + alias@ + "` not found in manifest"@,
            ],
        },
        forall|v: SpecifierView| #[trigger]
            stands_for(o, deps@, v) ==> settled(o, Ok::<Vec<Dependency>, Failure>(deps)) == Ok::<
                SpecifierView,
                Seq<Seq<char>>,
            >(v),
{
    if let OverrideSpecifier::Alias(alias) = o.specifier {
        lemma_index_of_key(deps@, alias@);
        let n = index_of_key(deps@, alias@) as int;
        if n < deps@.len() {
            assert(deps@[n].alias@ == alias@);
        }
        assert forall|v: SpecifierView| #[trigger] stands_for(o, deps@, v) implies settled(
            o,
            Ok::<Vec<Dependency>, Failure>(deps),
        ) == Ok::<SpecifierView, Seq<Seq<char>>>(v) by {
            let k = choose|k: int|
                {
                    &&& 0 <= k < deps@.len()
                    &&& (#[trigger] deps@[k]).alias@ == alias@
                    &&& deps@[k].specifier@ == v
                    &&& forall|j: int| 0 <= j < k ==> (#[trigger] deps@[j]).alias@ != alias@
                };
            lemma_index_of_key_unique(deps@, alias@, k as nat);
        }
    }
}

/// The overrides of a manifest fail with the error of the first one that names an alias that
/// no dependency has, and only if there is one.
pub proof fn first_unknown_alias_is_told(
    overrides: Seq<Override>,
    deps: Vec<Dependency>,
    i: int,
    alias: String,
)
    requires
        0 <= i < overrides.len(),
        overrides[i].specifier == OverrideSpecifier::Alias(alias),
        forall|j: int| 0 <= j < deps@.len() ==> (#[trigger] deps@[j]).alias@ != alias@,
        forall|k: int|
            #![trigger overrides[k]]
            0 <= k < i ==> (overrides[k].specifier matches OverrideSpecifier::Alias(a)
                ==> exists|j: int| 0 <= j < deps@.len() && (#[trigger] deps@[j]).alias@ == a@),
    ensures
        all_settled(overrides, Ok::<Vec<Dependency>, Failure>(deps)) == Err::<
            Seq<(Seq<char>, SpecifierView)>,
            Seq<Seq<char>>,
        >(seq!["alias `"@ + alias@ + "` not found in manifest"@]),
{
    let all = Ok::<Vec<Dependency>, Failure>(deps);
    let fails = |i: int| settled(overrides[i], all) is Err;
    overrides_mean_what_they_name(overrides[i], deps);
    if settled(overrides[i], all) is Ok {
        let v = settled(overrides[i], all)->Ok_0;
        let n = choose|n: int|
            0 <= n < deps@.len() && (#[trigger] deps@[n]).alias@ == alias@ && deps@[n].specifier@
                == v;
        assert(false);
    }
    assert forall|k: int| 0 <= k < i implies !(#[trigger] fails(k)) by {
        overrides_mean_what_they_name(overrides[k], deps);
        if settled(overrides[k], all) is Err {
            let a = overrides[k].specifier->Alias_0;
            assert(overrides[k].specifier == OverrideSpecifier::Alias(a));
            let j = choose|j: int| 0 <= j < deps@.len() && (#[trigger] deps@[j]).alias@ == a@;
            assert(deps@[j].alias@ != a@);
        }
    }
    assert(fails(i));
    search::lemma_first_index(overrides.len() as int, fails, i);
}

/// Two lists without repeated keys override alike if and only if each entry of one is also
/// in the other.
pub proof fn overriding_alike(
    a: Seq<(Seq<char>, SpecifierView)>,
    b: Seq<(Seq<char>, SpecifierView)>,
)
    requires
        forall|i: int, j: int|
            0 <= i < j < a.len() ==> (#[trigger] a[i]).0 != (#[trigger] a[j]).0,
        forall|i: int, j: int|
            0 <= i < j < b.len() ==> (#[trigger] b[i]).0 != (#[trigger] b[j]).0,
    ensures
        override_map(a) == override_map(b) <==> (forall|i: int|
            0 <= i < a.len() ==> b.contains(#[trigger] a[i])) && (forall|j: int|
            0 <= j < b.len() ==> a.contains(#[trigger] b[j])),
{
    if override_map(a) == override_map(b) {
        assert forall|i: int| 0 <= i < a.len() implies b.contains(#[trigger] a[i]) by {
            lemma_listed_alike(a, b, i);
        }
        assert forall|j: int| 0 <= j < b.len() implies a.contains(#[trigger] b[j]) by {
            lemma_listed_alike(b, a, j);
        }
    }
    if (forall|i: int| 0 <= i < a.len() ==> b.contains(#[trigger] a[i])) && (forall|j: int|
        0 <= j < b.len() ==> a.contains(#[trigger] b[j])) {
        assert forall|key: Seq<char>| #[trigger]
            override_map(a).dom().contains(key) implies override_map(b).dom().contains(key)
            && override_map(a)[key] == override_map(b)[key] by {
            lemma_overridden_alike(a, b, key);
        }
        assert forall|key: Seq<char>| #[trigger]
            override_map(b).dom().contains(key) implies override_map(a).dom().contains(key) by {
            lemma_overridden_alike(b, a, key);
        }
        assert(override_map(a) =~= override_map(b));
    }
}

proof fn lemma_listed_alike(
    a: Seq<(Seq<char>, SpecifierView)>,
    b: Seq<(Seq<char>, SpecifierView)>,
    i: int,
)
    requires
        forall|i: int, j: int|
            0 <= i < j < a.len() ==> (#[trigger] a[i]).0 != (#[trigger] a[j]).0,
        forall|i: int, j: int|
            0 <= i < j < b.len() ==> (#[trigger] b[i]).0 != (#[trigger] b[j]).0,
        override_map(a) == override_map(b),
        0 <= i < a.len(),
    ensures
        b.contains(a[i]),
{
    lemma_override_map(a, i);
    lemma_overridden(b, a[i].0);
    let j = choose|j: int| 0 <= j < b.len() && (#[trigger] b[j]).0 == a[i].0;
    lemma_override_map(b, j);
    assert(b[j] == a[i]);
}

proof fn lemma_overridden_alike(
    a: Seq<(Seq<char>, SpecifierView)>,
    b: Seq<(Seq<char>, SpecifierView)>,
    key: Seq<char>,
)
    requires
        forall|i: int, j: int|
            0 <= i < j < a.len() ==> (#[trigger] a[i]).0 != (#[trigger] a[j]).0,
        forall|i: int, j: int|
            0 <= i < j < b.len() ==> (#[trigger] b[i]).0 != (#[trigger] b[j]).0,
        forall|i: int| 0 <= i < a.len() ==> b.contains(#[trigger] a[i]),
        override_map(a).dom().contains(key),
    ensures
        override_map(b).dom().contains(key),
        override_map(b)[key] == override_map(a)[key],
{
    lemma_overridden(a, key);
    let i = choose|i: int| 0 <= i < a.len() && (#[trigger] a[i]).0 == key;
    lemma_override_map(a, i);
    assert(b.contains(a[i]));
    let j = choose|j: int| 0 <= j < b.len() && b[j] == a[i];
    lemma_override_map(b, j);
}

/// Where the dependencies of a manifest cannot be listed, an override with a specifier of its
/// own is settled all the same, and one that names an alias fails because of that.
pub proof fn aliases_take_the_dependencies(o: Override, e: Failure)
    ensures
        o.specifier matches OverrideSpecifier::Specifier(s) ==> settled(
            o,
            Err::<Vec<Dependency>, Failure>(e),
        ) == Ok::<SpecifierView, Seq<Seq<char>>>(s@),
        o.specifier is Alias ==> settled(o, Err::<Vec<Dependency>, Failure>(e)) == Err::<
            SpecifierView,
            Seq<Seq<char>>,
        >(seq!["failed to get all dependencies"@] + e@),
{
}

} // verus!
