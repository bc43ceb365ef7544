//! Projects, their manifests and lockfiles, as far as the command line reads them.

use crate::engine::EngineReqs;
use crate::git_url::{GitUrl, GitUrlParts};
use crate::keyed::{
    entry, entry_of_own_key, ordered_keys, ordered_keys_are_unique, unique_keys, Keyed,
};
use crate::search;
use crate::text;
use crate::version::{Version, VersionReq};
use vstd::prelude::*;

verus! {

/// The name of the index that is used when none is named.
pub const DEFAULT_INDEX_NAME: &'static str = "default";

/// The name of the manifest file.
pub const MANIFEST_FILE_NAME: &'static str = "pesde.toml";

/// The environments that a package can be written for.
#[derive(Debug, PartialEq, Eq, Clone, Copy, Structural)]
pub enum TargetKind {
    Roblox,
    RobloxServer,
    Lune,
    Luau,
}

/// The sections of a manifest that a dependency can stand in.
#[derive(Debug, PartialEq, Eq, Clone, Copy, Structural)]
pub enum DependencyType {
    Standard,
    Peer,
    Dev,
}

/// A script of a target, or of a manifest: its name and what it points to.
#[derive(Debug)]
pub struct Script {
    pub name: String,
    pub path: String,
}

impl Keyed for Script {
    open spec fn key(&self) -> Seq<char> {
        self.name@
    }

    fn key_text(&self) -> (r: &str) {
        self.name.as_str()
    }
}

/// What a package exports.
#[derive(Debug)]
pub struct Target {
    pub kind: TargetKind,
    pub lib_path: Option<String>,
    pub bin_path: Option<String>,
    /// The files that are built, in ascending order. Only Roblox targets have any.
    pub build_files: Option<Vec<String>>,
    /// The scripts, in ascending order of their names.
    pub scripts: Option<Vec<Script>>,
    /// The target as it is shown to the user.
    pub shown: String,
}

impl Target {
    /// The files that are built are listed in ascending order, and so are the scripts by
    /// their names: nothing occurs twice.
    pub open spec fn well_formed(&self) -> bool {
        &&& self.build_files is Some ==> search::ascending(text::texts(self.build_files->0@))
        &&& self.scripts is Some ==> ordered_keys(self.scripts->0@)
    }
}

/// Whether the target is one of the two for Roblox.
pub open spec fn is_roblox(kind: TargetKind) -> bool {
    kind == TargetKind::Roblox || kind == TargetKind::RobloxServer
}

impl TargetKind {
    /// Whether the target is one of the two for Roblox.
    pub fn is_roblox(&self) -> (r: bool)
        ensures
            r == is_roblox(*self),
    {
        match self {
            TargetKind::Roblox => true,
            TargetKind::RobloxServer => true,
            TargetKind::Lune => false,
            TargetKind::Luau => false,
        }
    }
}

/// How a workspace dependency names the versions that it accepts.
#[derive(Debug)]
pub enum VersionTypeOrReq {
    /// Any version.
    Wildcard,
    /// The version of the workspace member, with this sign before it.
    Sign(String),
    /// This requirement.
    Req(VersionReq),
}

pub enum VersionTypeOrReqView {
    Wildcard,
    Sign(Seq<char>),
    Req(Seq<char>),
}

impl View for VersionTypeOrReq {
    type V = VersionTypeOrReqView;

    open spec fn view(&self) -> VersionTypeOrReqView {
        match self {
            VersionTypeOrReq::Wildcard => VersionTypeOrReqView::Wildcard,
            VersionTypeOrReq::Sign(s) => VersionTypeOrReqView::Sign(s@),
            VersionTypeOrReq::Req(q) => VersionTypeOrReqView::Req(q@),
        }
    }
}

impl VersionTypeOrReq {
    pub fn copy(&self) -> (r: VersionTypeOrReq)
        ensures
            r@ == self@,
    {
        match self {
            VersionTypeOrReq::Wildcard => VersionTypeOrReq::Wildcard,
            VersionTypeOrReq::Sign(s) => VersionTypeOrReq::Sign(s.clone()),
            VersionTypeOrReq::Req(q) => VersionTypeOrReq::Req(VersionReq { text: q.text.clone() }),
        }
    }

    pub fn same(&self, other: &VersionTypeOrReq) -> (r: bool)
        ensures
            r == (self@ == other@),
    {
        match (self, other) {
            (VersionTypeOrReq::Wildcard, VersionTypeOrReq::Wildcard) => true,
            (VersionTypeOrReq::Sign(a), VersionTypeOrReq::Sign(b)) => *a == *b,
            (VersionTypeOrReq::Req(a), VersionTypeOrReq::Req(b)) => a.text == b.text,
            _ => false,
        }
    }
}

/// Where a dependency comes from, and which versions of it are accepted.
#[derive(Debug)]
pub enum DependencySpecifiers {
    /// A package of a pesde index.
    Pesde { name: String, version: VersionReq, index: String, target: Option<TargetKind> },
    /// A package of a Wally index.
    Wally { package: String, index: String },
    /// A package in a git repository.
    Git(String),
    /// A member of the same workspace.
    Workspace { name: String, accepts: VersionTypeOrReq, target: Option<TargetKind> },
    /// A package in a directory.
    Path(String),
}

pub enum SpecifierView {
    Pesde { name: Seq<char>, version: Seq<char>, index: Seq<char>, target: Option<TargetKind> },
    Wally { package: Seq<char>, index: Seq<char> },
    Git(Seq<char>),
    Workspace { name: Seq<char>, accepts: VersionTypeOrReqView, target: Option<TargetKind> },
    Path(Seq<char>),
}

impl View for DependencySpecifiers {
    type V = SpecifierView;

    open spec fn view(&self) -> SpecifierView {
        match self {
            DependencySpecifiers::Pesde { name, version, index, target } => SpecifierView::Pesde {
                name: name@,
                version: version@,
                index: index@,
                target: *target,
            },
            DependencySpecifiers::Wally { package, index } => SpecifierView::Wally {
                package: package@,
                index: index@,
            },
            DependencySpecifiers::Git(s) => SpecifierView::Git(s@),
            DependencySpecifiers::Workspace { name, accepts, target } => SpecifierView::Workspace {
                name: name@,
                accepts: accepts@,
                target: *target,
            },
            DependencySpecifiers::Path(s) => SpecifierView::Path(s@),
        }
    }
}

impl DependencySpecifiers {
    /// A copy of the specifier.
    pub fn copy(&self) -> (r: DependencySpecifiers)
        ensures
            r@ == self@,
    {
        match self {
            DependencySpecifiers::Pesde { name, version, index, target } => {
                DependencySpecifiers::Pesde {
                    name: name.clone(),
                    version: VersionReq { text: version.text.clone() },
                    index: index.clone(),
                    target: *target,
                }
            },
            DependencySpecifiers::Wally { package, index } => DependencySpecifiers::Wally {
                package: package.clone(),
                index: index.clone(),
            },
            DependencySpecifiers::Git(s) => DependencySpecifiers::Git(s.clone()),
            DependencySpecifiers::Workspace { name, accepts, target } => {
                DependencySpecifiers::Workspace {
                    name: name.clone(),
                    accepts: accepts.copy(),
                    target: *target,
                }
            },
            DependencySpecifiers::Path(s) => DependencySpecifiers::Path(s.clone()),
        }
    }

    /// Whether two specifiers say the same.
    pub fn same(&self, other: &DependencySpecifiers) -> (r: bool)
        ensures
            r == (self@ == other@),
    {
        match (self, other) {
            (
                DependencySpecifiers::Pesde { name, version, index, target },
                DependencySpecifiers::Pesde { name: n, version: v, index: i, target: t },
            ) => *name == *n && version.text == v.text && *index == *i && same_target(target, t),
            (
                DependencySpecifiers::Wally { package, index },
                DependencySpecifiers::Wally { package: p, index: i },
            ) => *package == *p && *index == *i,
            (DependencySpecifiers::Git(a), DependencySpecifiers::Git(b)) => *a == *b,
            (
                DependencySpecifiers::Workspace { name, accepts, target },
                DependencySpecifiers::Workspace { name: n, accepts: a, target: t },
            ) => *name == *n && accepts.same(a) && same_target(target, t),
            (DependencySpecifiers::Path(a), DependencySpecifiers::Path(b)) => *a == *b,
            _ => false,
        }
    }
}

fn same_target(a: &Option<TargetKind>, b: &Option<TargetKind>) -> (r: bool)
    ensures
        r == (*a == *b),
{
    match (a, b) {
        (Some(x), Some(y)) => *x == *y,
        (None, None) => true,
        _ => false,
    }
}

/// A dependency of a manifest.
#[derive(Debug)]
pub struct Dependency {
    pub alias: String,
    pub specifier: DependencySpecifiers,
    pub ty: DependencyType,
}

impl Keyed for Dependency {
    open spec fn key(&self) -> Seq<char> {
        self.alias@
    }

    fn key_text(&self) -> (r: &str) {
        self.alias.as_str()
    }
}

/// Where the section of a dependency stands in a list of all dependencies.
pub open spec fn section(ty: DependencyType) -> int {
    match ty {
        DependencyType::Standard => 0,
        DependencyType::Dev => 1,
        DependencyType::Peer => 2,
    }
}

/// The dependencies are listed section by section, and in each in ascending order of
/// their aliases.
pub open spec fn ordered_dependencies(list: Seq<Dependency>) -> bool {
    forall|i: int, j: int|
        0 <= i < j < list.len() ==> section((#[trigger] list[i]).ty) < section(
            (#[trigger] list[j]).ty,
        ) || (list[i].ty == list[j].ty && text::before(list[i].alias@, list[j].alias@))
}

/// What a dependency is replaced by.
#[derive(Debug)]
pub enum OverrideSpecifier {
    /// This specifier.
    Specifier(DependencySpecifiers),
    /// The specifier of the dependency with this alias.
    Alias(String),
}

/// An override of a manifest.
#[derive(Debug)]
pub struct Override {
    pub key: String,
    pub specifier: OverrideSpecifier,
}

impl Keyed for Override {
    open spec fn key(&self) -> Seq<char> {
        self.key@
    }

    fn key_text(&self) -> (r: &str) {
        self.key.as_str()
    }
}

/// An override whose specifier is settled.
#[derive(Debug)]
pub struct ResolvedOverride {
    pub key: String,
    pub specifier: DependencySpecifiers,
}

impl Keyed for ResolvedOverride {
    open spec fn key(&self) -> Seq<char> {
        self.key@
    }

    fn key_text(&self) -> (r: &str) {
        self.key.as_str()
    }
}

impl View for ResolvedOverride {
    type V = (Seq<char>, SpecifierView);

    open spec fn view(&self) -> (Seq<char>, SpecifierView) {
        (self.key@, self.specifier@)
    }
}

/// The name of an index, and where it is.
#[derive(Debug)]
pub struct Index {
    pub name: String,
    pub url: GitUrl,
}

impl Keyed for Index {
    open spec fn key(&self) -> Seq<char> {
        self.name@
    }

    fn key_text(&self) -> (r: &str) {
        self.name.as_str()
    }
}

/// A package in one version.
#[derive(Debug)]
pub struct PackageId {
    pub name: String,
    pub version_id: String,
}

impl View for PackageId {
    type V = (Seq<char>, Seq<char>);

    open spec fn view(&self) -> (Seq<char>, Seq<char>) {
        (self.name@, self.version_id@)
    }
}

/// How a package in one version is written: `name@version`.
pub open spec fn package_id_text(id: (Seq<char>, Seq<char>)) -> Seq<char> {
    id.0 + "@"@ + id.1
}

impl PackageId {
    /// The id as it is shown and typed.
    pub fn to_text(&self) -> (r: String)
        ensures
            r@ == package_id_text(self@),
    {
        let mut r = self.name.clone();
        r.append("@");
        r.append(self.version_id.as_str());
        r
    }

    /// A copy of the id.
    pub fn copy(&self) -> (r: PackageId)
        ensures
            r@ == self@,
    {
        PackageId { name: self.name.clone(), version_id: self.version_id.clone() }
    }
}

/// A package of the dependency graph.
#[derive(Debug)]
pub struct GraphNode {
    pub id: PackageId,
    /// The dependency of the manifest that the package is there for, if any.
    pub direct: Option<Dependency>,
}

/// What an installation was made from.
#[derive(Debug)]
pub struct Lockfile {
    pub name: String,
    pub version: Version,
    pub target: TargetKind,
    pub overrides: Vec<ResolvedOverride>,
    pub graph: Vec<GraphNode>,
}

/// No package is in the graph twice in the same version.
pub open spec fn distinct_packages(graph: Seq<GraphNode>) -> bool {
    forall|i: int, j: int|
        0 <= i < j < graph.len() ==> (#[trigger] graph[i]).id@ != (#[trigger] graph[j]).id@
}

impl Lockfile {
    /// Each override stands under its own key, and each package occurs once.
    pub open spec fn well_formed(&self) -> bool {
        &&& unique_keys(self.overrides@)
        &&& distinct_packages(self.graph@)
    }
}

/// A token that is sent to a site.
#[derive(Debug)]
pub struct Token {
    pub url: GitUrl,
    pub token: String,
}

impl Keyed for Token {
    open spec fn key(&self) -> Seq<char> {
        self.url.text@
    }

    fn key_text(&self) -> (r: &str) {
        self.url.text.as_str()
    }
}

/// The tokens of the user, one for each site.
#[derive(Debug)]
pub struct AuthConfig {
    pub tokens: Vec<Token>,
}

impl AuthConfig {
    /// No site has two tokens.
    pub open spec fn well_formed(&self) -> bool {
        unique_keys(self.tokens@)
    }
}

/// A list of tokens as pairs of site and token.
pub open spec fn token_pairs(tokens: Seq<Token>) -> Seq<(GitUrlParts, Seq<char>)> {
    tokens.map_values(|t: Token| (t.url@, t.token@))
}

impl AuthConfig {
    /// A copy of the tokens.
    pub fn copy(&self) -> (r: AuthConfig)
        ensures
            token_pairs(r.tokens@) == token_pairs(self.tokens@),
            self.well_formed() ==> r.well_formed(),
    {
        let mut tokens: Vec<Token> = Vec::new();
        let mut i: usize = 0;
        while i < self.tokens.len()
            invariant
                i <= self.tokens.len(),
                token_pairs(tokens@) == token_pairs(self.tokens@.take(i as int)),
            decreases self.tokens.len() - i,
        {
            let t = &self.tokens[i];
            let copied = Token { url: t.url.copy(), token: t.token.clone() };
            let ghost pairs = token_pairs(tokens@);
            tokens.push(copied);
            assert(token_pairs(tokens@) =~= pairs.push((copied.url@, copied.token@)));
            assert(token_pairs(self.tokens@.take(i + 1)) =~= token_pairs(
                self.tokens@.take(i as int),
            ).push((t.url@, t.token@)));
            i = i + 1;
        }
        assert(self.tokens@.take(i as int) =~= self.tokens@);
        proof {
            lemma_same_sites(self.tokens@, tokens@);
        }
        AuthConfig { tokens }
    }
}

proof fn lemma_same_sites(a: Seq<Token>, b: Seq<Token>)
    requires
        token_pairs(a) == token_pairs(b),
    ensures
        unique_keys(a) ==> unique_keys(b),
{
    if unique_keys(a) {
        assert(token_pairs(a).len() == a.len() && token_pairs(b).len() == b.len());
        assert forall|i: int, j: int| 0 <= i < j < b.len() implies (#[trigger] b[i]).key() != (
        #[trigger] b[j]).key() by {
            assert(token_pairs(a)[i] == token_pairs(b)[i]);
            assert(token_pairs(a)[j] == token_pairs(b)[j]);
            assert(a[i].key() != a[j].key());
        }
    }
}

/// A package directory that commands are run in.
#[derive(Debug)]
pub struct Project {
    pub package_dir: String,
    /// The root of the workspace that the package is a member of, if it is one.
    pub workspace_dir: Option<String>,
    pub data_dir: String,
    pub cas_dir: String,
    pub auth_config: AuthConfig,
}

/// The description of a package.
#[derive(Debug)]
pub struct Manifest {
    pub name: String,
    pub version: Version,
    pub description: Option<String>,
    pub license: Option<String>,
    pub authors: Vec<String>,
    pub repository: Option<String>,
    pub target: Target,
    pub private: bool,
    pub scripts: Vec<Script>,
    pub indices: Vec<Index>,
    pub wally_indices: Vec<Index>,
    pub overrides: Vec<Override>,
    pub engines: EngineReqs,
    /// The dependencies, then the development and then the peer dependencies.
    pub dependencies: Vec<Dependency>,
}

impl Manifest {
    /// Scripts, indices and overrides stand under a name of their own each, and so do the
    /// dependencies of a section. All but the overrides are listed in ascending order.
    pub open spec fn well_formed(&self) -> bool {
        &&& self.target.well_formed()
        &&& ordered_keys(self.scripts@)
        &&& ordered_keys(self.indices@)
        &&& ordered_keys(self.wally_indices@)
        &&& unique_keys(self.overrides@)
        &&& ordered_dependencies(self.dependencies@)
    }
}

/// In a well-formed manifest, the name of a script or of an index leads to it and to no
/// other.
pub proof fn names_lead_to_their_entries(m: Manifest, i: int)
    requires
        m.well_formed(),
        0 <= i,
    ensures
        i < m.scripts@.len() ==> entry(m.scripts@, m.scripts@[i].name@) == Some(m.scripts@[i]),
        i < m.indices@.len() ==> entry(m.indices@, m.indices@[i].name@) == Some(m.indices@[i]),
        i < m.wally_indices@.len() ==> entry(m.wally_indices@, m.wally_indices@[i].name@) == Some(
            m.wally_indices@[i],
        ),
{
    ordered_keys_are_unique(m.scripts@);
    ordered_keys_are_unique(m.indices@);
    ordered_keys_are_unique(m.wally_indices@);
    if i < m.scripts@.len() {
        entry_of_own_key(m.scripts@, i);
    }
    if i < m.indices@.len() {
        entry_of_own_key(m.indices@, i);
    }
    if i < m.wally_indices@.len() {
        entry_of_own_key(m.wally_indices@, i);
    }
}

/// Two specifiers are the same if and only if they are of the same kind and agree in all that
/// they say.
pub proof fn specifiers_are_told_apart(a: DependencySpecifiers, b: DependencySpecifiers)
    ensures
        a@ == b@ <==> match (a, b) {
            (
                DependencySpecifiers::Pesde { name, version, index, target },
                DependencySpecifiers::Pesde { name: n, version: v, index: i, target: t },
            ) => name@ == n@ && version.text@ == v.text@ && index@ == i@ && target == t,
            (
                DependencySpecifiers::Wally { package, index },
                DependencySpecifiers::Wally { package: p, index: i },
            ) => package@ == p@ && index@ == i@,
            (DependencySpecifiers::Git(s), DependencySpecifiers::Git(t)) => s@ == t@,
            (
                DependencySpecifiers::Workspace { name, accepts, target },
                DependencySpecifiers::Workspace { name: n, accepts: x, target: t },
            ) => name@ == n@ && accepts@ == x@ && target == t,
            (DependencySpecifiers::Path(s), DependencySpecifiers::Path(t)) => s@ == t@,
            _ => false,
        },
{
}

/// Two ways to accept versions are the same if and only if they are of the same kind and
/// agree in the sign or in the requirement.
pub proof fn accepted_versions_are_told_apart(a: VersionTypeOrReq, b: VersionTypeOrReq)
    ensures
        a@ == b@ <==> match (a, b) {
            (VersionTypeOrReq::Wildcard, VersionTypeOrReq::Wildcard) => true,
            (VersionTypeOrReq::Sign(s), VersionTypeOrReq::Sign(t)) => s@ == t@,
            (VersionTypeOrReq::Req(q), VersionTypeOrReq::Req(r)) => q.text@ == r.text@,
            _ => false,
        },
{
}

/// The id of a package is shown as its name, `@` and its version, and two packages are the
/// same if and only if they agree in both.
pub proof fn packages_are_told_apart(a: PackageId, b: PackageId)
    ensures
        package_id_text(a@) == a.name@ + "@"@ + a.version_id@,
        a@ == b@ <==> a.name@ == b.name@ && a.version_id@ == b.version_id@,
{
}

/// Roblox and its server are the targets for Roblox.
pub proof fn targets_for_roblox(kind: TargetKind)
    ensures
        is_roblox(kind) <==> kind == TargetKind::Roblox || kind == TargetKind::RobloxServer,
        !is_roblox(kind) <==> kind == TargetKind::Lune || kind == TargetKind::Luau,
{
}

} // verus!
