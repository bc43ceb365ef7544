//! Where a package goes, and what of its manifest stays as it was read.

use super::errors::PublishError;
use super::included::Rules;
use super::laws::{admitted, is_run, manifest_of};
use super::notices::Notice;
use super::steps::{
    awaits, is_step, respecified, status_line, IndexConfig, PublishAction, PublishCommand, PublishEvent,
    PublishState, PublishStep, Reply,
};
use crate::failure::Failure;
use crate::git_url::GitUrl;
use crate::keyed::{entry, index_of_key, lemma_index_of_key};
use crate::project::{Index, Manifest, Project, Token};
use vstd::prelude::*;

verus! {

/// Whether two manifests are the same but for the specifiers of their dependencies and the
/// files that are built.
pub open spec fn same_package(m: Manifest, n: Manifest) -> bool {
    &&& n.name == m.name
    &&& n.version == m.version
    &&& n.description == m.description
    &&& n.license == m.license
    &&& n.authors == m.authors
    &&& n.repository == m.repository
    &&& n.target.kind == m.target.kind
    &&& n.target.lib_path == m.target.lib_path
    &&& n.target.bin_path == m.target.bin_path
    &&& n.target.scripts == m.target.scripts
    &&& n.target.shown == m.target.shown
    &&& n.private == m.private
    &&& n.scripts == m.scripts
    &&& n.indices == m.indices
    &&& n.wally_indices == m.wally_indices
    &&& n.overrides == m.overrides
    &&& n.engines == m.engines
    &&& n.dependencies@.len() == m.dependencies@.len()
    &&& forall|i: int|
        0 <= i < m.dependencies@.len() ==> (#[trigger] n.dependencies@[i]).alias
            == m.dependencies@[i].alias && n.dependencies@[i].ty == m.dependencies@[i].ty
}

#[verifier::rlimit(40)]
#[verifier::spinoff_prover]
proof fn same_package_in_step(
    cmd: PublishCommand,
    project: Project,
    rules: Rules,
    s: PublishState,
    e: PublishEvent,
    out: PublishStep,
)
    requires
        awaits(s, e),
        is_step(cmd, project, rules, s, e, out),
        manifest_of(out.state) is Some,
    ensures
        match manifest_of(s) {
            Some(m) => same_package(m, manifest_of(out.state)->0),
            None => e matches PublishEvent::Manifest(Ok(m)) && m == manifest_of(out.state)->0,
        },
{
    match (s, e) {
        (PublishState::AwaitExportPath(d, which, contents), PublishEvent::Canonical(Ok(file))) => {
            if !(out.state is AwaitExportErrors) {
                let d2 = admitted(d, which, file, out);
            }
        },
        (PublishState::AwaitExportErrors(d, which, file), _) => {
            let d2 = admitted(d, which, file, out);
        },
        (PublishState::Dependencies(d, i), _) => {
            if let PublishState::Dependencies(d2, k) = out.state {
                let v = d2.manifest.dependencies@[i as int].specifier@;
                assert(respecified(d, i, v, d2));
            }
        },
        (PublishState::AwaitMember(d, i), _) => {
            if let PublishState::Dependencies(d2, k) = out.state {
                let v = d2.manifest.dependencies@[i as int].specifier@;
                assert(respecified(d, i, v, d2));
            }
        },
        (PublishState::AwaitManifest, _) => {},
        (PublishState::AwaitFiles(m), _) => {
            assert(manifest_of(out.state)->0 == m);
        },
        _ => {
            assert(manifest_of(out.state) == manifest_of(s));
        },
    }
}

/// Only the first event of a publication is that of a manifest, so that every manifest that
/// comes up is the one that was read, but for the specifiers of its dependencies and the
/// files that are built.
pub proof fn manifest_stays_that_of_the_package(
    cmd: PublishCommand,
    project: Project,
    rules: Rules,
    states: Seq<PublishState>,
    events: Seq<PublishEvent>,
    outs: Seq<PublishStep>,
    k: int,
)
    requires
        is_run(cmd, project, rules, states, events, outs),
        0 <= k <= events.len(),
    ensures
        manifest_of(states[k]) matches Some(n) ==> k > 0 && (events[0] matches
            PublishEvent::Manifest(Ok(m)) && same_package(m, n)),
        states[k] == PublishState::AwaitManifest ==> k == 0,
    decreases k,
{
    if k > 0 {
        manifest_stays_that_of_the_package(cmd, project, rules, states, events, outs, k - 1);
        let first = events[0];
        let e = events[k - 1];
        let out = outs[k - 1];
        assert(is_step(cmd, project, rules, states[k - 1], e, out));
        if manifest_of(states[k]) is Some {
            same_package_in_step(cmd, project, rules, states[k - 1], e, out);
        }
    }
}

/// Whether the entry with that number is the first of the indices with that name.
pub open spec fn first_named(indices: Seq<Index>, name: Seq<char>, i: int) -> bool {
    &&& 0 <= i < indices.len()
    &&& indices[i].name@ == name
    &&& forall|j: int| 0 <= j < i ==> (#[trigger] indices[j]).name@ != name
}

/// The index of a publication, in the states in which it is talked to.
pub open spec fn site_of(s: PublishState) -> Option<GitUrl> {
    match s {
        PublishState::AwaitRefresh(_, url) => Some(url),
        PublishState::AwaitConfig(_, url) => Some(url),
        _ => None,
    }
}

/// Over every publication, the index that is refreshed and whose configuration is read is
/// the one that the manifest has under the name that the user gave.
pub proof fn asked_index_is_used(
    cmd: PublishCommand,
    project: Project,
    rules: Rules,
    states: Seq<PublishState>,
    events: Seq<PublishEvent>,
    outs: Seq<PublishStep>,
    k: int,
)
    requires
        is_run(cmd, project, rules, states, events, outs),
        0 <= k <= events.len(),
    ensures
        site_of(states[k]) matches Some(url) ==> k > 0 && (events[0] matches
            PublishEvent::Manifest(Ok(m)) && exists|i: int|
            {
                &&& 0 <= i < m.indices@.len()
                &&& (#[trigger] m.indices@[i]).name@ == cmd.index@
                &&& m.indices@[i].url.text@ == url.text@
                &&& m.indices@[i].url.shown@ == url.shown@
                &&& forall|j: int| 0 <= j < i ==> (#[trigger] m.indices@[j]).name@ != cmd.index@
            }),
    decreases k,
{
    if k > 0 {
        asked_index_is_used(cmd, project, rules, states, events, outs, k - 1);
        let first = events[0];
        let e = events[k - 1];
        let s = states[k - 1];
        assert(is_step(cmd, project, rules, s, e, outs[k - 1]));
        if let PublishState::AwaitArchive(d) = s {
            manifest_stays_that_of_the_package(
                cmd,
                project,
                rules,
                states,
                events,
                outs,
                k - 1,
            );
            lemma_index_of_key(d.manifest.indices@, cmd.index@);
            if site_of(states[k]) is Some {
                let n = index_of_key(d.manifest.indices@, cmd.index@) as int;
                assert(d.manifest.indices@[n].name@ == cmd.index@);
            }
        }
    }
}

/// What is asked of an index is asked of the one that the manifest has under the name that
/// the user gave: it is refreshed, its configuration is read, and what is uploaded goes to
/// the address of packages below the one that this configuration names, with the token
/// that the user has for that index, if there is one.
pub proof fn everything_goes_to_the_asked_index(
    cmd: PublishCommand,
    project: Project,
    rules: Rules,
    states: Seq<PublishState>,
    events: Seq<PublishEvent>,
    outs: Seq<PublishStep>,
    k: int,
    m: Manifest,
)
    requires
        is_run(cmd, project, rules, states, events, outs),
        0 <= k < events.len(),
        events[0] == PublishEvent::Manifest(Ok::<Manifest, Failure>(m)),
    ensures
        outs[k].action matches PublishAction::Refresh(u) ==> exists|i: int|
            #[trigger] first_named(m.indices@, cmd.index@, i) && m.indices@[i].url.text@ == u.text@
                && m.indices@[i].url.shown@ == u.shown@,
        outs[k].action matches PublishAction::ReadConfig(u) ==> exists|i: int|
            #[trigger] first_named(m.indices@, cmd.index@, i) && m.indices@[i].url.text@ == u.text@
                && m.indices@[i].url.shown@ == u.shown@,
        outs[k].action matches PublishAction::Upload { url, token } ==> !cmd.dry_run && (
        events[k] matches PublishEvent::Config(Ok(config)) && url@ == config.api@
            + "/v1/packages"@) && exists|i: int|
            #[trigger] first_named(m.indices@, cmd.index@, i) && is_token_for(
                project.auth_config.tokens@,
                m.indices@[i].url.text@,
                token,
            ),
        (forall|i: int|
            0 <= i < m.indices@.len() ==> (#[trigger] m.indices@[i]).name@ != cmd.index@) ==> !(
        outs[k].action is Refresh) && !(outs[k].action is ReadConfig) && !(outs[k].action
            is WriteTarball) && !(outs[k].action is Upload),
{
    let e = events[k];
    let s = states[k];
    assert(is_step(cmd, project, rules, s, e, outs[k]));
    asked_index_is_used(cmd, project, rules, states, events, outs, k);
    asked_index_is_used(cmd, project, rules, states, events, outs, k + 1);
    assert(states[k + 1] == outs[k].state);
    if site_of(s) is Some {
        let url = site_of(s)->0;
        let i = choose|i: int|
            {
                &&& 0 <= i < m.indices@.len()
                &&& (#[trigger] m.indices@[i]).name@ == cmd.index@
                &&& m.indices@[i].url.text@ == url.text@
                &&& m.indices@[i].url.shown@ == url.shown@
                &&& forall|j: int| 0 <= j < i ==> (#[trigger] m.indices@[j]).name@ != cmd.index@
            };
        assert(first_named(m.indices@, cmd.index@, i));
        lemma_token(project.auth_config.tokens@, url.text@);
    }
    if site_of(outs[k].state) is Some {
        let url = site_of(outs[k].state)->0;
        let i = choose|i: int|
            {
                &&& 0 <= i < m.indices@.len()
                &&& (#[trigger] m.indices@[i]).name@ == cmd.index@
                &&& m.indices@[i].url.text@ == url.text@
                &&& m.indices@[i].url.shown@ == url.shown@
                &&& forall|j: int| 0 <= j < i ==> (#[trigger] m.indices@[j]).name@ != cmd.index@
            };
        assert(first_named(m.indices@, cmd.index@, i));
    }
}

/// Whether that is the token that the user has for the site with that address: that of the
/// first entry for it, or none if there is no such entry.
pub open spec fn is_token_for(tokens: Seq<Token>, site: Seq<char>, token: Option<String>) -> bool {
    match token {
        Some(t) => exists|n: int|
            {
                &&& 0 <= n < tokens.len()
                &&& (#[trigger] tokens[n]).url.text@ == site
                &&& tokens[n].token == t
                &&& forall|j: int| 0 <= j < n ==> (#[trigger] tokens[j]).url.text@ != site
            },
        None => forall|j: int| 0 <= j < tokens.len() ==> (#[trigger] tokens[j]).url.text@ != site,
    }
}

proof fn lemma_token(tokens: Seq<Token>, site: Seq<char>)
    ensures
        is_token_for(
            tokens,
            site,
            match entry(tokens, site) {
                Some(t) => Some(t.token),
                None => None,
            },
        ),
{
    lemma_index_of_key(tokens, site);
    let n = index_of_key(tokens, site) as int;
    if n < tokens.len() {
        assert(tokens[n].url.text@ == site);
    }
}

/// A package whose manifest has an index under the name that the user gave is not refused
/// for want of one, and one whose manifest has none is refused once it is packed, with
/// that name.
pub proof fn missing_index_is_told(
    cmd: PublishCommand,
    project: Project,
    rules: Rules,
    states: Seq<PublishState>,
    events: Seq<PublishEvent>,
    outs: Seq<PublishStep>,
    k: int,
    m: Manifest,
)
    requires
        is_run(cmd, project, rules, states, events, outs),
        0 <= k < events.len(),
        events[0] == PublishEvent::Manifest(Ok::<Manifest, Failure>(m)),
        events[k] matches PublishEvent::Archived(Ok(_)),
    ensures
        if exists|i: int|
            0 <= i < m.indices@.len() && (#[trigger] m.indices@[i]).name@ == cmd.index@ {
            outs[k].action is Refresh
        } else {
            outs[k].action matches PublishAction::Done(Err(PublishError::MissingIndex(name)))
                && name@ == cmd.index@
        },
{
    let e = events[k];
    assert(is_step(cmd, project, rules, states[k], e, outs[k]));
    manifest_stays_that_of_the_package(cmd, project, rules, states, events, outs, k);
    lemma_index_of_key(m.indices@, cmd.index@);
    let n = index_of_key(m.indices@, cmd.index@) as int;
    if n < m.indices@.len() {
        assert(m.indices@[n].name@ == cmd.index@);
    }
}

/// What an index says of itself decides on the archive whose size was told when it was
/// finished: one that is larger than the index takes is refused, with the limit and what
/// there is over it; one that is not is written to a file in a dry run, and else uploaded.
pub proof fn archive_size_decides(
    cmd: PublishCommand,
    project: Project,
    rules: Rules,
    states: Seq<PublishState>,
    events: Seq<PublishEvent>,
    outs: Seq<PublishStep>,
    k: int,
    config: IndexConfig,
)
    requires
        is_run(cmd, project, rules, states, events, outs),
        0 <= k < events.len(),
        events[k] == PublishEvent::Config(Ok::<IndexConfig, Failure>(config)),
    ensures
        k >= 2,
        events[k - 2] matches PublishEvent::Archived(Ok(size)) && if size
            > config.max_archive_size {
            outs[k].action matches PublishAction::Done(
                Err(PublishError::ArchiveTooLarge { max, by }),
            ) && max == config.max_archive_size && by == size - config.max_archive_size
        } else if cmd.dry_run {
            outs[k].action == PublishAction::WriteTarball
        } else {
            outs[k].action is Upload
        },
{
    let e = events[k];
    assert(is_step(cmd, project, rules, states[k], e, outs[k]));
    assert(states[k] is AwaitConfig);
    assert(k >= 1);
    let before = events[k - 1];
    assert(is_step(cmd, project, rules, states[k - 1], before, outs[k - 1]));
    assert(states[k - 1] is AwaitRefresh);
    assert(k >= 2);
    let packed = events[k - 2];
    assert(is_step(cmd, project, rules, states[k - 2], packed, outs[k - 2]));
}

/// What the user is told of the answer to an upload: an answer of success is passed on, and
/// each other is an error. A conflict means that the version exists, a refusal that the
/// user may not publish there, and a bad request that the package is invalid; of every
/// other the status and the text are told.
pub proof fn answers_to_uploads_are_told(
    cmd: PublishCommand,
    project: Project,
    rules: Rules,
    s: PublishState,
    out: PublishStep,
    reply: Reply,
    body: String,
)
    requires
        awaits(s, PublishEvent::Response(Ok::<Reply, Failure>(reply))),
        is_step(
            cmd,
            project,
            rules,
            s,
            PublishEvent::Response(Ok::<Reply, Failure>(reply)),
            out,
        ),
        reply.text == Ok::<String, Failure>(body),
    ensures
        out.state == PublishState::Finished,
        out.action == PublishAction::Done(Ok::<(), PublishError>(())) <==> 200 <= reply.status
            <= 299,
        200 <= reply.status <= 299 ==> out.said@ == seq![Notice::Published(body)],
        !(200 <= reply.status <= 299) ==> out.said@.len() == 0,
        out.action == PublishAction::Done(Err::<(), PublishError>(PublishError::VersionExists))
            <==> reply.status == 409,
        out.action == PublishAction::Done(Err::<(), PublishError>(PublishError::Unauthorized))
            <==> reply.status == 403,
        reply.status == 400 ==> out.action == PublishAction::Done(
            Err::<(), PublishError>(PublishError::InvalidPackage(body)),
        ),
        !(200 <= reply.status <= 299) && reply.status != 400 && reply.status != 403
            && reply.status != 409 ==> (out.action matches PublishAction::Done(
            Err(PublishError::Refused { status, text }),
        ) && status@ == status_line(reply.status) && text == body),
{
}

} // verus!
