//! Which files a publication puts into the archive.

use super::included::Rules;
use super::laws::{is_run, stage};
use super::paths::{file_name_of, FilePath};
use super::steps::{
    awaits, is_step, Draft, PublishCommand, PublishEvent, PublishState, PublishStep,
};
use crate::project::{Project, MANIFEST_FILE_NAME};
use crate::search;
use crate::text;
use vstd::prelude::*;

verus! {

/// Whether a path is that of the manifest, whatever the case of its letters.
pub open spec fn names_manifest(path: FilePath) -> bool {
    file_name_of(path@) matches Some(name) && text::same_ignoring_case(name, MANIFEST_FILE_NAME@)
}

/// For the files that were looked at in the first `k` steps, in turn, whether each is a
/// regular file.
pub open spec fn looked_at(
    states: Seq<PublishState>,
    events: Seq<PublishEvent>,
    k: int,
) -> Seq<bool>
    decreases k,
{
    if k <= 0 {
        Seq::empty()
    } else {
        let rest = looked_at(states, events, k - 1);
        match (states[k - 1], events[k - 1]) {
            (PublishState::AwaitFile(_, _), PublishEvent::File { is_file, .. }) => rest.push(
                is_file,
            ),
            _ => rest,
        }
    }
}

/// The files that were appended to the archive in the first `k` steps, in turn.
pub open spec fn appended(
    states: Seq<PublishState>,
    events: Seq<PublishEvent>,
    k: int,
) -> Seq<FilePath>
    decreases k,
{
    if k <= 0 {
        Seq::empty()
    } else {
        let rest = appended(states, events, k - 1);
        match (states[k - 1], events[k - 1]) {
            (PublishState::AwaitAppend(d, i), PublishEvent::Appended(Ok(_))) => rest.push(
                d.paths@[i as int],
            ),
            _ => rest,
        }
    }
}

/// Whether file `j` belongs into the archive: it is a regular file and not the manifest.
pub open spec fn belongs(paths: Seq<FilePath>, regular: Seq<bool>, j: int) -> bool {
    regular[j] && !names_manifest(paths[j])
}

/// The indices below `n` of the files that belong into the archive.
pub open spec fn belonging(paths: Seq<FilePath>, regular: Seq<bool>, n: int) -> Seq<int> {
    search::indices(n, |j: int| belongs(paths, regular, j))
}

/// The files with those indices.
pub open spec fn files_at(paths: Seq<FilePath>, indices: Seq<int>) -> Seq<FilePath> {
    indices.map_values(|j: int| paths[j])
}

/// Which files a publication goes through, how many of them it has looked at, and whether
/// the last of these has yet to be appended.
pub open spec fn progress(s: PublishState) -> Option<(Seq<FilePath>, int, bool)> {
    match s {
        PublishState::Files(d, i) => Some((d.paths@, i as int, false)),
        PublishState::AwaitFile(d, i) => Some((d.paths@, i as int, false)),
        PublishState::AwaitAppend(d, i) => Some((d.paths@, i + 1, true)),
        PublishState::Dependencies(d, _) => Some((d.paths@, d.paths@.len() as int, false)),
        PublishState::AwaitWorkspace(d, _) => Some((d.paths@, d.paths@.len() as int, false)),
        PublishState::AwaitMember(d, _) => Some((d.paths@, d.paths@.len() as int, false)),
        PublishState::Summary(d) => Some((d.paths@, d.paths@.len() as int, false)),
        PublishState::AwaitConfirm(d) => Some((d.paths@, d.paths@.len() as int, false)),
        PublishState::AwaitArchive(d) => Some((d.paths@, d.paths@.len() as int, false)),
        _ => None,
    }
}

/// What was looked at and appended, where a publication stands in that state.
pub open spec fn on_track(s: PublishState, regular: Seq<bool>, done: Seq<FilePath>) -> bool {
    match progress(s) {
        Some((paths, n, pending)) => {
            &&& n <= paths.len()
            &&& regular.len() == n
            &&& pending ==> belongs(paths, regular, n - 1)
            &&& done == files_at(
                paths,
                belonging(
                    paths,
                    regular,
                    if pending {
                        n - 1
                    } else {
                        n
                    },
                ),
            )
        },
        None => stage(s) > 10 ==> regular.len() == 0 && done.len() == 0,
    }
}

/// Looking at another file does not change which of the earlier ones belong.
proof fn lemma_belonging(paths: Seq<FilePath>, regular: Seq<bool>, b: bool, n: int)
    requires
        n <= regular.len(),
    ensures
        belonging(paths, regular.push(b), n) == belonging(paths, regular, n),
    decreases n,
{
    if n > 0 {
        lemma_belonging(paths, regular, b, n - 1);
        assert(belongs(paths, regular.push(b), n - 1) == belongs(paths, regular, n - 1));
    }
}

#[verifier::rlimit(40)]
#[verifier::spinoff_prover]
proof fn on_track_in_step(
    cmd: PublishCommand,
    project: Project,
    rules: Rules,
    states: Seq<PublishState>,
    events: Seq<PublishEvent>,
    outs: Seq<PublishStep>,
    k: int,
)
    requires
        is_run(cmd, project, rules, states, events, outs),
        0 < k <= events.len(),
        on_track(
            states[k - 1],
            looked_at(states, events, k - 1),
            appended(states, events, k - 1),
        ),
    ensures
        on_track(states[k], looked_at(states, events, k), appended(states, events, k)),
{
    let s = states[k - 1];
    let e = events[k - 1];
    let t = states[k];
    let out = outs[k - 1];
    let regular = looked_at(states, events, k - 1);
    let done = appended(states, events, k - 1);
    assert(awaits(s, e) && is_step(cmd, project, rules, s, e, out) && t == out.state);
    match (s, e) {
        (PublishState::AwaitFile(d, i), PublishEvent::File { is_file, .. }) => {
            let paths = d.paths@;
            lemma_belonging(paths, regular, is_file, i as int);
            assert(belongs(paths, regular.push(is_file), i as int) == (is_file
                && !names_manifest(paths[i as int])));
        },
        (PublishState::AwaitAppend(d, i), PublishEvent::Appended(Ok(_))) => {
            let paths = d.paths@;
            assert(files_at(paths, belonging(paths, regular, i + 1)) =~= files_at(
                paths,
                belonging(paths, regular, i as int),
            ).push(paths[i as int]));
        },
        (PublishState::Scripts(d, i), _) => {
            if t is Files {
                assert(files_at(d.paths@, belonging(d.paths@, regular, 0)) =~= Seq::empty());
                assert(regular =~= Seq::empty());
                assert(done =~= Seq::empty());
            }
        },
        _ => {},
    }
}

proof fn on_track_so_far(
    cmd: PublishCommand,
    project: Project,
    rules: Rules,
    states: Seq<PublishState>,
    events: Seq<PublishEvent>,
    outs: Seq<PublishStep>,
    k: int,
)
    requires
        is_run(cmd, project, rules, states, events, outs),
        0 <= k <= events.len(),
    ensures
        on_track(states[k], looked_at(states, events, k), appended(states, events, k)),
    decreases k,
{
    if k > 0 {
        on_track_so_far(cmd, project, rules, states, events, outs, k - 1);
        on_track_in_step(cmd, project, rules, states, events, outs, k);
    }
}

/// When the archive is finished, every file of the package has been looked at. Each that
/// is a regular file and not the manifest was appended, once and in its turn, and nothing
/// else was.
pub proof fn files_are_packed_once(
    cmd: PublishCommand,
    project: Project,
    rules: Rules,
    states: Seq<PublishState>,
    events: Seq<PublishEvent>,
    outs: Seq<PublishStep>,
    k: int,
    d: Draft,
)
    requires
        is_run(cmd, project, rules, states, events, outs),
        0 <= k <= events.len(),
        states[k] == PublishState::AwaitArchive(d),
    ensures
        looked_at(states, events, k).len() == d.paths@.len(),
        appended(states, events, k) == files_at(
            d.paths@,
            belonging(d.paths@, looked_at(states, events, k), d.paths@.len() as int),
        ),
{
    on_track_so_far(cmd, project, rules, states, events, outs, k);
}

/// The list of what belongs into the archive has each of these files once: an index is in
/// it exactly if the file belongs, and the indices ascend.
pub proof fn belonging_files_are_listed_once(
    paths: Seq<FilePath>,
    regular: Seq<bool>,
    j: int,
)
    ensures
        belonging(paths, regular, paths.len() as int).contains(j) <==> 0 <= j < paths.len()
            && belongs(paths, regular, j),
        belonging(paths, regular, paths.len() as int).no_duplicates(),
{
    let holds = |j: int| belongs(paths, regular, j);
    search::lemma_indices(paths.len() as int, holds, j);
    search::lemma_indices_ascend(paths.len() as int, holds);
}

} // verus!
