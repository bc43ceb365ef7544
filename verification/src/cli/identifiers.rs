//! How packages are named on the command line.

use crate::failure::{plain, Failure};
use crate::git_url::{parse_gix_url, parsed_git_url, portable, GitUrl, GitUrlParts};
use crate::project::{package_id_text, GraphNode, PackageId, VersionTypeOrReq};
use crate::search;
use crate::text;
use crate::version::{parse_requirement, parsed_requirement, VersionReq};
use vstd::prelude::*;

verus! {

/// The name of a package, and a version if one was given.
#[derive(Debug)]
pub struct VersionedPackageName<V, N>(pub N, pub Option<V>);

/// A text cut into the name and, behind the first `@`, the version.
pub open spec fn name_and_version(s: Seq<char>) -> (Seq<char>, Option<Seq<char>>) {
    match text::cut(s, '@') {
        Some((name, version)) => (name, Some(version)),
        None => (s, None),
    }
}

/// Cuts a text into the name and the version.
pub fn split_versioned(s: &str) -> (r: (&str, Option<&str>))
    ensures
        r.0@ == name_and_version(s@).0,
        match r.1 {
            Some(v) => name_and_version(s@).1 == Some(v@),
            None => name_and_version(s@).1 is None,
        },
{
    match text::split_once(s, '@') {
        Some((name, version)) => (name, Some(version)),
        None => (s, None),
    }
}

/// The name with the version, given what the two were read as. An error in the
/// version comes first.
pub open spec fn versioned<V, N>(
    version: Option<Result<V, Failure>>,
    name: Result<N, Failure>,
) -> Result<VersionedPackageName<V, N>, Failure> {
    match version {
        Some(Err(e)) => Err(e),
        Some(Ok(v)) => match name {
            Err(e) => Err(e),
            Ok(n) => Ok(VersionedPackageName(n, Some(v))),
        },
        None => match name {
            Err(e) => Err(e),
            Ok(n) => Ok(VersionedPackageName(n, None)),
        },
    }
}

impl<V, N> VersionedPackageName<V, N> {
    /// Puts a name and a version together, given what the two were read as.
    pub fn from_parts(version: Option<Result<V, Failure>>, name: Result<N, Failure>) -> (r: Result<
        VersionedPackageName<V, N>,
        Failure,
    >)
        ensures
            r == versioned(version, name),
    {
        let version = match version {
            Some(Err(e)) => {
                return Err(e);
            },
            Some(Ok(v)) => Some(v),
            None => None,
        };
        match name {
            Err(e) => Err(e),
            Ok(n) => Ok(VersionedPackageName(n, version)),
        }
    }
}

/// Whether `r` is the name with the requirement in a text, given what the name is read as.
pub open spec fn is_required_package<N>(
    s: Seq<char>,
    name: Result<N, Failure>,
    r: Result<VersionedPackageName<VersionReq, N>, Failure>,
) -> bool {
    match name_and_version(s).1 {
        None => r == versioned::<VersionReq, N>(None, name),
        Some(v) => match parsed_requirement(v) {
            Err(e) => r is Err && r->Err_0@ == plain(e),
            Ok(q) => match name {
                Err(e) => r == Err::<VersionedPackageName<VersionReq, N>, Failure>(e),
                Ok(n) => {
                    &&& r is Ok
                    &&& r->Ok_0.0 == n
                    &&& r->Ok_0.1 is Some
                    &&& r->Ok_0.1->0@ == q
                },
            },
        },
    }
}

impl<N> VersionedPackageName<VersionReq, N> {
    /// Reads a name with a version requirement, given what the name is read as.
    pub fn from_str(s: &str, name: Result<N, Failure>) -> (r: Result<
        VersionedPackageName<VersionReq, N>,
        Failure,
    >)
        ensures
            is_required_package(s@, name, r),
            match name_and_version(s@).1 {
                None => r == versioned::<VersionReq, N>(None, name),
                Some(v) => match parsed_requirement(v) {
                    Err(e) => r is Err && r->Err_0@ == plain(e),
                    Ok(q) => match name {
                        Err(e) => r == Err::<VersionedPackageName<VersionReq, N>, Failure>(e),
                        Ok(n) => {
                            &&& r is Ok
                            &&& r->Ok_0.0 == n
                            &&& r->Ok_0.1 is Some
                            &&& r->Ok_0.1->0@ == q
                        },
                    },
                },
            },
    {
        let version = match split_versioned(s).1 {
            None => None,
            Some(v) => match parse_requirement(v) {
                Ok(q) => Some(Ok(q)),
                Err(e) => Some(Err(Failure::new(e))),
            },
        };
        VersionedPackageName::from_parts(version, name)
    }
}

// Picking a package of the graph.

/// Whether the package has that name.
pub open spec fn is_named(node: GraphNode, name: Seq<char>) -> bool {
    node.id.name@ == name
}

/// The packages of the graph with that name.
pub open spec fn all_named(graph: Seq<GraphNode>, name: Seq<char>) -> Seq<int> {
    search::indices(graph.len() as int, |i: int| is_named(graph[i], name))
}

/// The ids of those packages, as they are shown.
pub open spec fn shown_ids(graph: Seq<GraphNode>, picked: Seq<int>) -> Seq<Seq<char>> {
    picked.map_values(|i: int| package_id_text(graph[i].id@))
}

/// The package that is meant, or why it is not clear.
pub open spec fn meant(
    name: Seq<char>,
    version: Option<Seq<char>>,
    graph: Seq<GraphNode>,
) -> Result<(Seq<char>, Seq<char>), Seq<char>> {
    match version {
        Some(v) => Ok((name, v)),
        None => {
            let found = all_named(graph, name);
            if found.len() == 0 {
                Err("package not found"@)
            } else if found.len() == 1 {
                Ok((name, graph[found[0]].id.version_id@))
            } else {
                Err(
                    "multiple versions found, please specify one of: "@ + text::joined(
                        shown_ids(graph, found),
                        ", "@,
                    ),
                )
            }
        },
    }
}

fn find_all_named(graph: &Vec<GraphNode>, name: &str) -> (r: Vec<usize>)
    ensures
        r@.map_values(|i: usize| i as int) == all_named(graph@, name@),
        forall|k: int| 0 <= k < r@.len() ==> (#[trigger] r@[k]) < graph@.len(),
{
    let mut r: Vec<usize> = Vec::new();
    let mut i: usize = 0;
    let ghost holds = |i: int| is_named(graph@[i], name@);
    while i < graph.len()
        invariant
            i <= graph.len(),
            holds == (|i: int| is_named(graph@[i], name@)),
            r@.map_values(|i: usize| i as int) == search::indices(i as int, holds),
            forall|k: int| 0 <= k < r@.len() ==> (#[trigger] r@[k]) < graph@.len(),
        decreases graph.len() - i,
    {
        let ghost prior = r@.map_values(|i: usize| i as int);
        if text::same(graph[i].id.name.as_str(), name) {
            r.push(i);
            assert(r@.map_values(|i: usize| i as int) =~= prior.push(i as int));
        }
        i = i + 1;
    }
    r
}

fn show_ids(graph: &Vec<GraphNode>, picked: &Vec<usize>) -> (r: Vec<String>)
    requires
        forall|k: int| 0 <= k < picked@.len() ==> (#[trigger] picked@[k]) < graph@.len(),
    ensures
        text::texts(r@) == shown_ids(graph@, picked@.map_values(|i: usize| i as int)),
{
    let mut r: Vec<String> = Vec::new();
    let mut k: usize = 0;
    let ghost all = picked@.map_values(|i: usize| i as int);
    while k < picked.len()
        invariant
            k <= picked.len(),
            all == picked@.map_values(|i: usize| i as int),
            forall|k: int| 0 <= k < picked@.len() ==> (#[trigger] picked@[k]) < graph@.len(),
            text::texts(r@) == shown_ids(graph@, all.take(k as int)),
        decreases picked.len() - k,
    {
        let ghost prior = text::texts(r@);
        let shown = graph[picked[k]].id.to_text();
        r.push(shown);
        assert(text::texts(r@) =~= prior.push(shown@));
        assert(shown_ids(graph@, all.take(k + 1)) =~= shown_ids(graph@, all.take(k as int)).push(
            package_id_text(graph@[all[k as int]].id@),
        ));
        k = k + 1;
    }
    assert(all.take(k as int) =~= all);
    r
}

impl VersionedPackageName<String, String> {
    /// The package of the graph that is meant.
    pub fn get(self, graph: &Vec<GraphNode>) -> (r: Result<PackageId, Failure>)
        ensures
            ({
                let version = match self.1 {
                    Some(v) => Some(v@),
                    None => None,
                };
                match r {
                    Ok(id) => meant(self.0@, version, graph@) == Ok::<
                        (Seq<char>, Seq<char>),
                        Seq<char>,
                    >(id@),
                    Err(e) => meant(self.0@, version, graph@) is Err && e@ == plain(
                        meant(self.0@, version, graph@)->Err_0,
                    ),
                }
            }),
    {
        let version_id = match self.1 {
            Some(version) => version,
            None => {
                let found = find_all_named(graph, self.0.as_str());
                let ghost all = found@.map_values(|i: usize| i as int);
                assert(all.len() == found@.len());
                if found.len() == 0 {
                    return Err(Failure::of("package not found"));
                } else if found.len() == 1 {
                    assert(all[0] == found@[0] as int);
                    graph[found[0]].id.version_id.clone()
                } else {
                    let ids = text::join(&show_ids(graph, &found), ", ");
                    return Err(
                        Failure::new(
                            text::cat(
                                "multiple versions found, please specify one of: ",
                                ids.as_str(),
                            ),
                        ),
                    );
                }
            },
        };
        Ok(PackageId { name: self.0, version_id })
    }
}

/// A package that is picked without a version is the only one with its name.
pub proof fn picked_without_version(name: Seq<char>, graph: Seq<GraphNode>, other: int)
    requires
        meant(name, None, graph) is Ok,
        0 <= other < graph.len(),
        graph[other].id.name@ == name,
    ensures
        graph[other].id@ == meant(name, None, graph)->Ok_0,
{
    let holds = |i: int| is_named(graph[i], name);
    search::lemma_indices(graph.len() as int, holds, other);
    assert(holds(other));
    assert(all_named(graph, name).contains(other));
}

/// Each version that is offered picks the package that it belongs to.
pub proof fn offered_versions_are_there(name: Seq<char>, graph: Seq<GraphNode>, k: int)
    requires
        0 <= k < all_named(graph, name).len(),
    ensures
        0 <= all_named(graph, name)[k] < graph.len(),
        meant(name, Some(graph[all_named(graph, name)[k]].id.version_id@), graph) == Ok::<
            (Seq<char>, Seq<char>),
            Seq<char>,
        >(graph[all_named(graph, name)[k]].id@),
{
    let holds = |i: int| is_named(graph[i], name);
    let found = all_named(graph, name);
    search::lemma_indices(graph.len() as int, holds, found[k]);
    assert(found.contains(found[k]));
    assert(holds(found[k]));
}

/// The text of an id is read back as its name and its version, if the name has
/// no `@` in it.
pub proof fn id_text_reads_back(name: Seq<char>, version: Seq<char>)
    requires
        !name.contains('@'),
    ensures
        name_and_version(package_id_text((name, version))) == (name, Some(version)),
{
    reveal_strlit("@");
    let t = package_id_text((name, version));
    assert(t[name.len() as int] == '@');
    assert forall|i: int| 0 <= i < name.len() implies t[i] != '@' by {
        assert(t[i] == name[i]);
        assert(name.contains(name[i]));
    }
    text::lemma_lead_len_unique(t, '@', name.len());
    assert(t.take(name.len() as int) =~= name);
    assert(t.skip(name.len() as int + 1) =~= version);
}

// Naming a package in any way.

/// A package, named in one of the ways that are understood.
#[derive(Debug)]
pub enum AnyPackageIdentifier<V, N> {
    PackageName(VersionedPackageName<V, N>),
    /// A repository, and the revision of it.
    Url((GitUrl, String)),
    /// A member of the workspace.
    Workspace(VersionedPackageName<VersionTypeOrReq, String>),
    Path(String),
}

/// The way in which a text names a package.
#[derive(Debug)]
pub enum Form {
    /// A repository, and the revision of it.
    Url { url: String, rev: String },
    /// A repository without a revision.
    NoRevision,
    /// A member of the workspace, under this name.
    Workspace(String),
    Path(String),
    /// A package of an index, under this name.
    Name(String),
}

pub enum FormView {
    Url { url: Seq<char>, rev: Seq<char> },
    NoRevision,
    Workspace(Seq<char>),
    Path(Seq<char>),
    Name(Seq<char>),
}

impl View for Form {
    type V = FormView;

    open spec fn view(&self) -> FormView {
        match self {
            Form::Url { url, rev } => FormView::Url { url: url@, rev: rev@ },
            Form::NoRevision => FormView::NoRevision,
            Form::Workspace(s) => FormView::Workspace(s@),
            Form::Path(s) => FormView::Path(s@),
            Form::Name(s) => FormView::Name(s@),
        }
    }
}

/// A URL with the revision behind its first `#`.
pub open spec fn url_and_revision(s: Seq<char>) -> FormView {
    match text::cut(s, '#') {
        Some((url, rev)) => FormView::Url { url, rev },
        None => FormView::NoRevision,
    }
}

/// The way in which a text names a package.
pub open spec fn form_of(s: Seq<char>) -> FormView {
    if "gh#"@.is_prefix_of(s) {
        url_and_revision("https://github.com/"@ + s.skip("gh#"@.len() as int))
    } else if "workspace:"@.is_prefix_of(s) {
        FormView::Workspace(s.skip("workspace:"@.len() as int))
    } else if "path:"@.is_prefix_of(s) {
        FormView::Path(s.skip("path:"@.len() as int))
    } else if s.contains(':') {
        url_and_revision(s)
    } else {
        FormView::Name(s)
    }
}

fn split_revision(s: &str) -> (r: Form)
    ensures
        r@ == url_and_revision(s@),
{
    match text::split_once(s, '#') {
        Some((url, rev)) => Form::Url { url: url.to_owned(), rev: rev.to_owned() },
        None => Form::NoRevision,
    }
}

/// Tells in which way a text names a package.
pub fn read_form(s: &str) -> (r: Form)
    ensures
        r@ == form_of(s@),
{
    if let Some(rest) = text::strip_prefix(s, "gh#") {
        return split_revision(text::cat("https://github.com/", rest).as_str());
    }
    if let Some(rest) = text::strip_prefix(s, "workspace:") {
        return Form::Workspace(rest.to_owned());
    }
    if let Some(rest) = text::strip_prefix(s, "path:") {
        return Form::Path(rest.to_owned());
    }
    if text::has_char(s, ':') {
        split_revision(s)
    } else {
        Form::Name(s.to_owned())
    }
}

/// What the name in a text is read as, where there is one.
#[derive(Debug)]
pub enum ReadName<V, N> {
    Nothing,
    Package(Result<VersionedPackageName<V, N>, Failure>),
    Member(Result<VersionedPackageName<VersionTypeOrReq, String>, Failure>),
}

/// Whether a name was read exactly where the text has one.
pub open spec fn fits<V, N>(form: FormView, name: ReadName<V, N>) -> bool {
    match form {
        FormView::Name(_) => name is Package,
        FormView::Workspace(_) => name is Member,
        _ => name is Nothing,
    }
}

/// The package that a text of that form names, given what the repository is
/// read as and what the name is read as.
pub open spec fn is_identifier<V, N>(
    form: FormView,
    url: Result<GitUrlParts, Seq<Seq<char>>>,
    name: ReadName<V, N>,
    r: Result<AnyPackageIdentifier<V, N>, Failure>,
) -> bool {
    match form {
        FormView::NoRevision => r is Err && r->Err_0@ == plain("missing revision"@),
        FormView::Path(p) => r matches Ok(AnyPackageIdentifier::Path(q)) && q@ == p,
        FormView::Url { url: _, rev } => match url {
            Err(e) => r is Err && r->Err_0@ == e,
            Ok(u) => r matches Ok(AnyPackageIdentifier::Url((site, revision))) && site@ == u
                && revision@ == rev,
        },
        FormView::Workspace(_) => match name {
            ReadName::Member(Ok(n)) => r == Ok::<AnyPackageIdentifier<V, N>, Failure>(
                AnyPackageIdentifier::Workspace(n),
            ),
            ReadName::Member(Err(e)) => r == Err::<AnyPackageIdentifier<V, N>, Failure>(e),
            _ => true,
        },
        FormView::Name(_) => match name {
            ReadName::Package(Ok(n)) => r == Ok::<AnyPackageIdentifier<V, N>, Failure>(
                AnyPackageIdentifier::PackageName(n),
            ),
            ReadName::Package(Err(e)) => r == Err::<AnyPackageIdentifier<V, N>, Failure>(e),
            _ => true,
        },
    }
}

/// What the repository of a form is read as, where there is one.
pub open spec fn url_of(form: FormView) -> Result<GitUrlParts, Seq<Seq<char>>> {
    match form {
        FormView::Url { url, rev } => parsed_git_url(url),
        _ => Err(Seq::empty()),
    }
}

/// Whether the repository of a form, if it has one, is read in the same way on
/// every platform.
pub open spec fn form_portable(form: FormView) -> bool {
    form matches FormView::Url { url, rev } ==> portable(url)
}

/// What the repository of a form was read as.
pub open spec fn site_view(site: Option<Result<GitUrl, Failure>>) -> Result<
    GitUrlParts,
    Seq<Seq<char>>,
> {
    match site {
        Some(Ok(u)) => Ok(u@),
        Some(Err(e)) => Err(e@),
        None => Err(Seq::empty()),
    }
}

impl<V, N> AnyPackageIdentifier<V, N> {
    /// The package that a text of that form names, given what its repository
    /// and its name are read as.
    pub fn from_form(
        form: Form,
        site: Option<Result<GitUrl, Failure>>,
        name: ReadName<V, N>,
    ) -> (r: Result<AnyPackageIdentifier<V, N>, Failure>)
        requires
            fits(form@, name),
            site is Some <==> form@ is Url,
        ensures
            is_identifier(form@, site_view(site), name, r),
    {
        match (form, site, name) {
            (Form::NoRevision, _, _) => Err(Failure::of("missing revision")),
            (Form::Path(path), _, _) => Ok(AnyPackageIdentifier::Path(path)),
            (Form::Url { url: _, rev }, Some(site), _) => match site {
                Ok(site) => Ok(AnyPackageIdentifier::Url((site, rev))),
                Err(e) => Err(e),
            },
            (Form::Workspace(_), _, ReadName::Member(name)) => match name {
                Ok(name) => Ok(AnyPackageIdentifier::Workspace(name)),
                Err(e) => Err(e),
            },
            (Form::Name(_), _, ReadName::Package(name)) => match name {
                Ok(name) => Ok(AnyPackageIdentifier::PackageName(name)),
                Err(e) => Err(e),
            },
            _ => Err(Failure::of("missing revision")),
        }
    }

    /// Reads a package that is named in any way, given what the name in the
    /// text is read as. How a URL that is not portable is read is left to the
    /// platform; the revision is the same all the same.
    pub fn from_str(s: &str, name: ReadName<V, N>) -> (r: Result<
        AnyPackageIdentifier<V, N>,
        Failure,
    >)
        requires
            fits(form_of(s@), name),
        ensures
            form_portable(form_of(s@)) ==> is_identifier(form_of(s@), url_of(form_of(s@)), name, r),
            !form_portable(form_of(s@)) ==> exists|url: Result<GitUrlParts, Seq<Seq<char>>>|
                is_identifier(form_of(s@), url, name, r),
    {
        let form = read_form(s);
        let site = match &form {
            Form::Url { url, rev: _ } => Some(parse_gix_url(url.as_str())),
            _ => None,
        };
        let ghost read = site_view(site);
        let r = AnyPackageIdentifier::from_form(form, site, name);
        assert(is_identifier(form_of(s@), read, name, r));
        r
    }
}

/// The name of a package ends at the first `@` of the text, and the version is all that comes
/// behind it. Without one the whole text is the name, and there is no version.
pub proof fn names_end_at_the_first_sign(s: Seq<char>)
    ensures
        ({
            let (name, version) = name_and_version(s);
            &&& !name.contains('@')
            &&& match version {
                Some(v) => s == name + seq!['@'] + v,
                None => s == name,
            }
        }),
{
    text::where_texts_are_cut(s, '@');
}

/// A name and a version make a package only if both were read; an error in the version is
/// told before one in the name, and without a version there is none.
pub proof fn both_parts_must_be_readable<V, N>(
    version: Option<Result<V, Failure>>,
    name: Result<N, Failure>,
)
    ensures
        version matches Some(Err(e)) ==> versioned(version, name) == Err::<
            VersionedPackageName<V, N>,
            Failure,
        >(e),
        !(version matches Some(Err(_))) ==> (name matches Err(e) ==> versioned(version, name)
            == Err::<VersionedPackageName<V, N>, Failure>(e)),
        name matches Ok(n) ==> (version matches Some(Ok(v)) ==> (versioned(version, name) matches Ok(
            r,
        ) && r.0 == n && r.1 == Some(v))),
        name matches Ok(n) ==> (version is None ==> (versioned(version, name) matches Ok(r) && r.0
            == n && r.1 is None)),
{
}

/// With a version, that version of the package is meant, whatever the graph holds. Without
/// one, the only package of the graph with that name is meant, whether it is a dependency of
/// the manifest or not; that there is none, or more than one, is told, with all of them.
pub proof fn named_packages_are_picked(
    name: Seq<char>,
    version: Option<Seq<char>>,
    graph: Seq<GraphNode>,
)
    ensures
        version matches Some(v) ==> meant(name, version, graph) == Ok::<
            (Seq<char>, Seq<char>),
            Seq<char>,
        >((name, v)),
        version is None ==> (meant(name, version, graph) == Err::<
            (Seq<char>, Seq<char>),
            Seq<char>,
        >("package not found"@) <==> forall|i: int|
            0 <= i < graph.len() ==> (#[trigger] graph[i]).id.name@ != name),
        version is None ==> forall|i: int|
            #![trigger graph[i]]
            0 <= i < graph.len() && graph[i].id.name@ == name && (forall|j: int|
                0 <= j < graph.len() && j != i ==> (#[trigger] graph[j]).id.name@ != name) ==> meant(
                name,
                version,
                graph,
            ) == Ok::<(Seq<char>, Seq<char>), Seq<char>>((name, graph[i].id.version_id@)),
        version is None ==> forall|i: int, j: int|
            #![trigger graph[i], graph[j]]
            0 <= i < j < graph.len() && graph[i].id.name@ == name && graph[j].id.name@ == name ==> (
            meant(name, version, graph) matches Err(e) && exists|all: Seq<int>|
                lists_all_named(graph, name, all) && e
                    == "multiple versions found, please specify one of: "@ + #[trigger] ids_joined(
                    graph,
                    all,
                )),
{
    if version is None {
        let n = graph.len() as int;
        let holds = |i: int| is_named(graph[i], name);
        let found = all_named(graph, name);
        reveal_strlit("package not found");
        reveal_strlit("multiple versions found, please specify one of: ");
        assert("package not found"@.len() == 17);
        assert("multiple versions found, please specify one of: "@.len() == 48);
        search::lemma_indices_ascend(n, holds);
        assert forall|i: int| 0 <= i < n implies found.contains(i) == (
        #[trigger] graph[i].id.name@ == name) by {
            search::lemma_indices(n, holds, i);
            assert(holds(i) == (graph[i].id.name@ == name));
        }
        assert forall|k: int| 0 <= k < found.len() implies 0 <= #[trigger] found[k] < n
            && graph[found[k]].id.name@ == name by {
            search::lemma_indices(n, holds, found[k]);
            assert(found.contains(found[k]));
        }
        assert(lists_all_named(graph, name, found));
        assert(ids_joined(graph, found) == text::joined(shown_ids(graph, found), ", "@)) by {
            assert(shown_ids(graph, found) =~= Seq::new(
                found.len(),
                |k: int| graph[found[k]].id.name@ + "@"@ + graph[found[k]].id.version_id@,
            ));
        }
        if found.len() == 0 {
            assert forall|i: int| 0 <= i < n implies (#[trigger] graph[i]).id.name@ != name by {
                assert(!found.contains(i));
            }
        } else {
            assert(graph[found[0]].id.name@ == name);
        }
        assert forall|i: int|
            #![trigger graph[i]]
            0 <= i < n && graph[i].id.name@ == name && (forall|j: int|
                0 <= j < n && j != i ==> (#[trigger] graph[j]).id.name@ != name) implies meant(
            name,
            version,
            graph,
        ) == Ok::<(Seq<char>, Seq<char>), Seq<char>>((name, graph[i].id.version_id@)) by {
            assert(found.contains(i));
            assert(found[0] == i);
            if found.len() > 1 {
                assert(found[0] < found[1]);
                assert(graph[found[1]].id.name@ == name);
            }
        }
        assert forall|i: int, j: int|
            #![trigger graph[i], graph[j]]
            0 <= i < j < n && graph[i].id.name@ == name && graph[j].id.name@ == name implies
            found.len() > 1 by {
            assert(found.contains(i));
            assert(found.contains(j));
        }
    }
}

/// Whether that lists all packages of the graph with that name, in their order.
pub open spec fn lists_all_named(graph: Seq<GraphNode>, name: Seq<char>, all: Seq<int>) -> bool {
    &&& forall|k: int|
        0 <= k < all.len() ==> 0 <= #[trigger] all[k] < graph.len() && graph[all[k]].id.name@
            == name
    &&& forall|i: int|
        0 <= i < graph.len() && (#[trigger] graph[i]).id.name@ == name ==> all.contains(i)
    &&& forall|a: int, b: int| 0 <= a < b < all.len() ==> #[trigger] all[a] < #[trigger] all[b]
}

/// The ids of the packages, each as its name, `@` and its version, with commas between them.
pub open spec fn ids_joined(graph: Seq<GraphNode>, all: Seq<int>) -> Seq<char> {
    text::joined(
        Seq::new(
            all.len(),
            |k: int| graph[all[k]].id.name@ + "@"@ + graph[all[k]].id.version_id@,
        ),
        ", "@,
    )
}

proof fn lemma_cut_at(head: Seq<char>, c: char, rest: Seq<char>)
    requires
        !head.contains(c),
    ensures
        text::cut(head + seq![c] + rest, c) == Some((head, rest)),
        text::cut(head, c) is None,
{
    let t = head + seq![c] + rest;
    assert(t[head.len() as int] == c);
    assert forall|i: int| 0 <= i < head.len() implies t[i] != c by {
        assert(t[i] == head[i]);
        assert(head.contains(head[i]));
    }
    text::lemma_lead_len_unique(t, c, head.len());
    assert(t.take(head.len() as int) =~= head);
    assert(t.skip(head.len() as int + 1) =~= rest);
    text::where_texts_are_cut(head, c);
    if let Some((a, b)) = text::cut(head, c) {
        assert((a + seq![c] + b)[a.len() as int] == c);
        assert(false);
    }
}

/// A repository on GitHub is named behind `gh#`, with a revision behind the next `#`.
pub proof fn github_repositories_by_name(repo: Seq<char>, rev: Seq<char>)
    requires
        !repo.contains('#'),
    ensures
        form_of("gh#"@ + repo + seq!['#'] + rev) == (FormView::Url {
            url: "https://github.com/"@ + repo,
            rev,
        }),
        form_of("gh#"@ + repo) == FormView::NoRevision,
{
    reveal_strlit("gh#");
    reveal_strlit("https://github.com/");
    let site = "https://github.com/"@ + repo;
    assert forall|i: int| 0 <= i < site.len() implies site[i] != '#' by {
        if i >= "https://github.com/"@.len() {
            assert(site[i] == repo[i - "https://github.com/"@.len()]);
            assert(repo.contains(site[i]));
        }
    }
    assert(!site.contains('#'));
    lemma_cut_at(site, '#', rev);
    let s = "gh#"@ + repo + seq!['#'] + rev;
    assert(s.subrange(0, 3) =~= "gh#"@);
    assert("gh#"@.is_prefix_of(s));
    assert("https://github.com/"@ + s.skip(3) =~= site + seq!['#'] + rev);
    let t = "gh#"@ + repo;
    assert(t.subrange(0, 3) =~= "gh#"@);
    assert("gh#"@.is_prefix_of(t));
    assert("https://github.com/"@ + t.skip(3) =~= site);
}

/// What comes behind `workspace:` is the name of a workspace member, and what comes behind
/// `path:` is a path, whatever it is.
pub proof fn members_and_paths_by_prefix(rest: Seq<char>)
    ensures
        form_of("workspace:"@ + rest) == FormView::Workspace(rest),
        form_of("path:"@ + rest) == FormView::Path(rest),
{
    reveal_strlit("gh#");
    reveal_strlit("workspace:");
    reveal_strlit("path:");
    let w = "workspace:"@ + rest;
    let p = "path:"@ + rest;
    assert(w[0] == 'w' && p[0] == 'p');
    if "gh#"@.is_prefix_of(w) {
        assert(w.subrange(0, 3)[0] == 'g');
    }
    if "gh#"@.is_prefix_of(p) {
        assert(p.subrange(0, 3)[0] == 'g');
    }
    if "workspace:"@.is_prefix_of(p) {
        assert(p.subrange(0, 10)[0] == 'w');
    }
    assert(w.subrange(0, 10) =~= "workspace:"@);
    assert("workspace:"@.is_prefix_of(w));
    assert(w.skip(10) =~= rest);
    assert(p.subrange(0, 5) =~= "path:"@);
    assert("path:"@.is_prefix_of(p));
    assert(p.skip(5) =~= rest);
}

/// Any other text is a URL with a revision behind its first `#` if it holds a colon, and else
/// the name of a package.
pub proof fn other_texts_are_urls_or_names(s: Seq<char>)
    requires
        !"gh#"@.is_prefix_of(s),
        !"workspace:"@.is_prefix_of(s),
        !"path:"@.is_prefix_of(s),
    ensures
        !s.contains(':') ==> form_of(s) == FormView::Name(s),
        s.contains(':') && !s.contains('#') ==> form_of(s) == FormView::NoRevision,
        s.contains(':') && s.contains('#') ==> (form_of(s) matches FormView::Url { url, rev } && s
            == url + seq!['#'] + rev && !url.contains('#')),
{
    text::where_texts_are_cut(s, '#');
    if let Some((a, b)) = text::cut(s, '#') {
        assert((a + seq!['#'] + b)[a.len() as int] == '#');
    }
}

/// What a text names: a repository with its revision, if its URL can be read; a path as it is
/// written; a member or a package as its name was read; and nothing if a revision is missing.
pub proof fn identifiers_mean_what_is_written<V, N>(
    form: FormView,
    url: Result<GitUrlParts, Seq<Seq<char>>>,
    name: ReadName<V, N>,
    r: Result<AnyPackageIdentifier<V, N>, Failure>,
)
    requires
        fits(form, name),
        is_identifier(form, url, name, r),
    ensures
        r matches Ok(AnyPackageIdentifier::Url((site, revision))) ==> (form matches FormView::Url {
            url: _,
            rev,
        } && revision@ == rev && url == Ok::<GitUrlParts, Seq<Seq<char>>>(
            (site.text@, site.shown@),
        )),
        r matches Ok(AnyPackageIdentifier::Path(p)) ==> (form matches FormView::Path(q) && p@ == q),
        r matches Ok(AnyPackageIdentifier::PackageName(n)) ==> form is Name && (name matches
            ReadName::Package(Ok(m)) && m == n),
        r matches Ok(AnyPackageIdentifier::Workspace(n)) ==> form is Workspace && (name matches
            ReadName::Member(Ok(m)) && m == n),
        form is NoRevision ==> (r matches Err(e) && e@ == seq!["missing revision"@]),
        form is Url ==> (r is Ok <==> url is Ok),
        form is Path ==> r is Ok,
        form is Name ==> (r is Ok <==> name matches ReadName::Package(Ok(_))),
        form is Workspace ==> (r is Ok <==> name matches ReadName::Member(Ok(_))),
{
}

/// What comes behind the first `@` of a text is read as the versions of the package that are
/// asked for, and the package is the one that the name is read as. Without an `@` no versions
/// are asked for.
pub proof fn requirements_come_behind_the_sign<N>(
    s: Seq<char>,
    name: Result<N, Failure>,
    r: Result<VersionedPackageName<VersionReq, N>, Failure>,
)
    requires
        is_required_package(s, name, r),
    ensures
        !s.contains('@') ==> (name matches Ok(n) ==> (r matches Ok(p) && p.0 == n && p.1 is None)),
        forall|head: Seq<char>, v: Seq<char>|
            #![trigger head + seq!['@'] + v]
            s == head + seq!['@'] + v && !head.contains('@') ==> match parsed_requirement(v) {
                Ok(q) => name matches Ok(n) ==> (r matches Ok(p) && p.0 == n && (p.1 matches Some(
                    asked,
                ) && asked.text@ == q)),
                Err(e) => r matches Err(f) && f@ == seq![e],
            },
        name matches Err(e) ==> r is Err,
{
    text::where_texts_are_cut(s, '@');
    if let Some((a, b)) = text::cut(s, '@') {
        assert((a + seq!['@'] + b)[a.len() as int] == '@');
    }
    assert forall|head: Seq<char>, v: Seq<char>|
        #![trigger head + seq!['@'] + v]
        s == head + seq!['@'] + v && !head.contains('@') implies name_and_version(s) == (
        head,
        Some(v),
    ) by {
        lemma_cut_at(head, '@', v);
    }
}

} // verus!
