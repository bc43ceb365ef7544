//! Which engines a project uses, and which of them can run it.

use crate::engine::{
    engine_name, engine_of, runtime_of, EngineKind, Engines, Runtime, RuntimeKind,
};
use crate::failure::{caused, plain, Failure};
use crate::project::TargetKind;
use crate::text;
use crate::version::{parse_version, parsed_version, Version, VersionParts};
use vstd::prelude::*;
use vstd::utf8::{decode_utf8, valid_utf8};

verus! {

// Running a package.

/// What runs a package for that target, or why nothing does.
pub open spec fn runtime_for(
    target: TargetKind,
    engines: spec_fn(EngineKind) -> Option<VersionParts>,
) -> Result<(RuntimeKind, VersionParts), Seq<char>> {
    match target {
        TargetKind::Roblox => Err("roblox targets cannot be ran!"@),
        TargetKind::RobloxServer => Err("roblox targets cannot be ran!"@),
        TargetKind::Lune => match engines(EngineKind::Lune) {
            Some(v) => Ok((RuntimeKind::Lune, v)),
            None => Err("lune"@ + " not available!"@),
        },
        TargetKind::Luau => match engines(EngineKind::Lune) {
            Some(v) => Ok((RuntimeKind::Lune, v)),
            None => Err("no runtime available"@),
        },
    }
}

/// Picks the runtime for that target among the engines that there are.
pub fn compatible_runtime(target: TargetKind, engines: &Engines) -> (r: Result<Runtime, Failure>)
    ensures
        match r {
            Ok(runtime) => runtime_for(target, engines@) == Ok::<
                (RuntimeKind, VersionParts),
                Seq<char>,
            >(runtime@),
            Err(e) => runtime_for(target, engines@) is Err && e@ == plain(
                runtime_for(target, engines@)->Err_0,
            ),
        },
{
    let kind = match target {
        TargetKind::Lune => RuntimeKind::Lune,
        TargetKind::Luau => {
            let pesde = EngineKind::Pesde.as_runtime();
            let lune = EngineKind::Lune.as_runtime();
            if engines.get(EngineKind::Pesde).is_some() && pesde.is_some() {
                pesde.unwrap()
            } else if engines.get(EngineKind::Lune).is_some() && lune.is_some() {
                lune.unwrap()
            } else {
                return Err(Failure::of("no runtime available"));
            }
        },
        TargetKind::Roblox => {
            return Err(Failure::of("roblox targets cannot be ran!"));
        },
        TargetKind::RobloxServer => {
            return Err(Failure::of("roblox targets cannot be ran!"));
        },
    };
    match engines.get(kind.engine()) {
        Some(version) => Ok(Runtime { kind, version: version.copy() }),
        None => Err(Failure::new(text::cat(kind.engine().name(), " not available!"))),
    }
}

/// Packages for Roblox are not run, whatever engines there are.
pub proof fn roblox_is_not_run(
    target: TargetKind,
    engines: spec_fn(EngineKind) -> Option<VersionParts>,
)
    requires
        crate::project::is_roblox(target),
    ensures
        runtime_for(target, engines) is Err,
{
}

/// A package is run with an engine that there is, in the version that there is.
pub proof fn runtime_is_there(
    target: TargetKind,
    engines: spec_fn(EngineKind) -> Option<VersionParts>,
)
    requires
        runtime_for(target, engines) is Ok,
    ensures
        engines(engine_of(runtime_for(target, engines)->Ok_0.0)) == Some(
            runtime_for(target, engines)->Ok_0.1,
        ),
        runtime_of(engine_of(runtime_for(target, engines)->Ok_0.0)) == Some(
            runtime_for(target, engines)->Ok_0.0,
        ),
{
}

/// Whatever is not for Roblox is run as soon as there is Lune.
pub proof fn lune_runs_the_rest(
    target: TargetKind,
    engines: spec_fn(EngineKind) -> Option<VersionParts>,
)
    requires
        !crate::project::is_roblox(target),
    ensures
        runtime_for(target, engines) is Ok <==> engines(EngineKind::Lune) is Some,
{
}

/// The code to end with, given that of the script.
pub fn exit_code(code: Option<i32>) -> (r: i32)
    ensures
        r == (match code {
            Some(c) => c,
            None => 1,
        }),
{
    match code {
        Some(c) => c,
        None => 1,
    }
}

// Asking an engine for its version.

/// The message of the error that `String::from_utf8` returns for those bytes.
pub uninterp spec fn utf8_error(bytes: Seq<u8>) -> Seq<char>;

/// Calls `String::from_utf8`, which takes valid UTF-8 and nothing else. The
/// message of its error depends on the bytes alone.
#[verifier::external_body]
fn text_of_bytes(bytes: Vec<u8>) -> (r: Result<String, String>)
    ensures
        match r {
            Ok(s) => valid_utf8(bytes@) && s@ == decode_utf8(bytes@),
            Err(e) => !valid_utf8(bytes@) && e@ == utf8_error(bytes@),
        },
{
    match String::from_utf8(bytes) {
        Ok(s) => Ok(s),
        Err(e) => Err(e.to_string()),
    }
}

/// What follows the name of the program in its answer, down to the number.
pub open spec fn version_part(answer: Seq<char>) -> Option<Seq<char>> {
    match text::cut(answer, ' ') {
        Some((name, rest)) => Some(text::drop_leading(text::trimmed(rest), 'v')),
        None => None,
    }
}

/// The number in the answer of an engine, or why there is none.
pub open spec fn number_in(engine: EngineKind, answer: Result<Seq<char>, Seq<char>>) -> Result<
    Seq<char>,
    Seq<Seq<char>>,
> {
    match answer {
        Err(e) => Err(
            caused("failed to parse "@ + engine_name(engine) + " version output"@, plain(e)),
        ),
        Ok(t) => match version_part(t) {
            None => Err(plain("failed to split "@ + engine_name(engine) + " version output"@)),
            Some(part) => Ok(part),
        },
    }
}

/// The bytes as text, or the message of the error.
pub open spec fn as_text(bytes: Seq<u8>) -> Result<Seq<char>, Seq<char>> {
    if valid_utf8(bytes) {
        Ok(decode_utf8(bytes))
    } else {
        Err(utf8_error(bytes))
    }
}

/// The version in what an engine printed.
pub open spec fn printed_version(engine: EngineKind, output: Seq<u8>) -> Result<
    VersionParts,
    Seq<Seq<char>>,
> {
    match number_in(engine, as_text(output)) {
        Err(e) => Err(e),
        Ok(part) => match parsed_version(part) {
            Err(e) => Err(
                caused("failed to parse "@ + engine_name(engine) + " version"@, plain(e)),
            ),
            Ok(v) => Ok(v),
        },
    }
}

/// Whether the result is that version or that error.
pub open spec fn tells_version(
    r: Result<Version, Failure>,
    v: Result<VersionParts, Seq<Seq<char>>>,
) -> bool {
    match r {
        Ok(x) => v == Ok::<VersionParts, Seq<Seq<char>>>(x@),
        Err(e) => v == Err::<VersionParts, Seq<Seq<char>>>(e@),
    }
}

/// Cuts the number out of the answer of an engine.
pub fn find_version_part(engine: EngineKind, answer: Result<String, String>) -> (r: Result<
    String,
    Failure,
>)
    ensures
        match r {
            Ok(p) => number_in(
                engine,
                match answer {
                    Ok(t) => Ok(t@),
                    Err(e) => Err(e@),
                },
            ) == Ok::<Seq<char>, Seq<Seq<char>>>(p@),
            Err(e) => number_in(
                engine,
                match answer {
                    Ok(t) => Ok(t@),
                    Err(e) => Err(e@),
                },
            ) == Err::<Seq<char>, Seq<Seq<char>>>(e@),
        },
{
    let name = engine.name();
    let output = match answer {
        Err(e) => {
            return Err(
                Failure::new(e).context(
                    text::cat3("failed to parse ", name, " version output").as_str(),
                ),
            );
        },
        Ok(output) => output,
    };
    match text::split_once(output.as_str(), ' ') {
        None => Err(Failure::new(text::cat3("failed to split ", name, " version output"))),
        Some((_, rest)) => Ok(text::trim_start_char(text::trim(rest), 'v').to_owned()),
    }
}

/// Names the engine in an error over its version.
pub fn judge_version(engine: EngineKind, number: Result<Version, String>) -> (r: Result<
    Version,
    Failure,
>)
    ensures
        match r {
            Ok(v) => number == Ok::<Version, String>(v),
            Err(e) => number is Err && e@ == caused(
                "failed to parse "@ + engine_name(engine) + " version"@,
                plain(number->Err_0@),
            ),
        },
{
    match number {
        Ok(v) => Ok(v),
        Err(e) => Err(
            Failure::new(e).context(
                text::cat3("failed to parse ", engine.name(), " version").as_str(),
            ),
        ),
    }
}

/// Reads the version out of what an engine printed.
pub fn read_printed_version(engine: EngineKind, output: Vec<u8>) -> (r: Result<Version, Failure>)
    ensures
        tells_version(r, printed_version(engine, output@)),
{
    let answer = text_of_bytes(output);
    match find_version_part(engine, answer) {
        Err(e) => Err(e),
        Ok(part) => judge_version(engine, parse_version(part.as_str())),
    }
}

/// How it went to ask an engine for its version.
#[derive(Debug)]
pub enum Asked {
    /// There is no such program.
    NotFound,
    /// It could not be run.
    Failed(Failure),
    /// It printed this.
    Printed(Vec<u8>),
}

/// What is logged of an error over the version of an engine.
pub open spec fn extraction_log(engine: EngineKind, e: Seq<Seq<char>>) -> Seq<char> {
    "failed to extract "@ + engine_name(engine) + " version:\n"@ + e[0] + (if e.len() == 1 {
        Seq::empty()
    } else {
        "\n"@ + text::joined(text::bulleted(e.skip(1)), "\n"@)
    })
}

/// Writes what is logged of an error over the version of an engine.
pub fn log_extraction(engine: EngineKind, e: &Failure) -> (r: String)
    ensures
        r@ == extraction_log(engine, e@),
{
    let mut r = text::cat4(
        "failed to extract ",
        engine.name(),
        " version:\n",
        e.message.as_str(),
    );
    assert(e@[0] == e.message@);
    assert(e@.skip(1) =~= text::texts(e.causes@));
    let ghost head = r@;
    if e.causes.len() > 0 {
        r.append("\n");
        r.append(text::join(&text::bullets(&e.causes), "\n").as_str());
        assert(r@ =~= head + ("\n"@ + text::joined(text::bulleted(text::texts(e.causes@)), "\n"@)));
    } else {
        assert(r@ =~= head + Seq::<char>::empty());
    }
    r
}

/// What came of asking an engine for its version.
#[derive(Debug)]
pub struct Answer {
    pub version: Result<Option<Version>, Failure>,
    /// What is logged.
    pub logged: Option<String>,
}

/// What comes of asking an engine for its version, given what is read out of
/// what it printed.
pub open spec fn is_answer(
    engine: EngineKind,
    asked: Asked,
    read: Result<VersionParts, Seq<Seq<char>>>,
    answer: Answer,
) -> bool {
    match asked {
        Asked::NotFound => answer.logged is None && answer.version == Ok::<
            Option<Version>,
            Failure,
        >(None),
        Asked::Failed(e) => {
            &&& answer.logged is None
            &&& answer.version is Err
            &&& answer.version->Err_0@ == caused("failed to execute "@ + engine_name(engine), e@)
        },
        Asked::Printed(_) => match read {
            Ok(v) => {
                &&& answer.logged is None
                &&& answer.version matches Ok(Some(x))
                &&& x@ == v
            },
            Err(e) => {
                &&& answer.version == Ok::<Option<Version>, Failure>(None)
                &&& answer.logged is Some
                &&& answer.logged->0@ == extraction_log(engine, e)
            },
        },
    }
}

/// Tells what comes of what was read out of what an engine printed.
pub fn answer_with(engine: EngineKind, read: Result<Version, Failure>) -> (answer: Answer)
    ensures
        match read {
            Ok(v) => answer.logged is None && answer.version == Ok::<Option<Version>, Failure>(
                Some(v),
            ),
            Err(e) => {
                &&& answer.version == Ok::<Option<Version>, Failure>(None)
                &&& answer.logged is Some
                &&& answer.logged->0@ == extraction_log(engine, e@)
            },
        },
{
    match read {
        Ok(v) => Answer { version: Ok(Some(v)), logged: None },
        Err(e) => Answer { version: Ok(None), logged: Some(log_extraction(engine, &e)) },
    }
}

/// Tells what comes of asking an engine for its version.
pub fn get_executable_version(engine: EngineKind, asked: Asked) -> (answer: Answer)
    ensures
        is_answer(
            engine,
            asked,
            match asked {
                Asked::Printed(output) => printed_version(engine, output@),
                _ => Err(Seq::empty()),
            },
            answer,
        ),
{
    match asked {
        Asked::NotFound => Answer { version: Ok(None), logged: None },
        Asked::Failed(e) => Answer {
            version: Err(e.context(text::cat("failed to execute ", engine.name()).as_str())),
            logged: None,
        },
        Asked::Printed(output) => answer_with(engine, read_printed_version(engine, output)),
    }
}

/// A package for Lune or Luau is run by Lune, in the version in which there is Lune, and
/// fails if there is none. Packages for Roblox are not run. That there is an engine that is
/// no runtime does not matter.
pub proof fn lune_runs_packages(target: TargetKind, engines: Engines)
    ensures
        match target {
            TargetKind::Roblox => runtime_for(target, engines@) is Err,
            TargetKind::RobloxServer => runtime_for(target, engines@) is Err,
            _ => match engines.lune {
                Some(v) => runtime_for(target, engines@) == Ok::<
                    (RuntimeKind, VersionParts),
                    Seq<char>,
                >((RuntimeKind::Lune, (v.major, v.minor, v.patch, v.pre@, v.build@))),
                None => runtime_for(target, engines@) is Err,
            },
        },
        engines.lune is None && target == TargetKind::Lune ==> runtime_for(target, engines@)->Err_0
            == "lune"@ + " not available!"@,
        engines.lune is None && target == TargetKind::Luau ==> runtime_for(target, engines@)->Err_0
            == "no runtime available"@,
        target == TargetKind::Roblox || target == TargetKind::RobloxServer ==> runtime_for(
            target,
            engines@,
        )->Err_0 == "roblox targets cannot be ran!"@,
{
}

/// Each engine is there in the version that is set for it, and not if none is.
pub proof fn engines_are_told_apart(engines: Engines)
    ensures
        (engines@)(EngineKind::Pesde) is Some <==> engines.pesde is Some,
        (engines@)(EngineKind::Lune) is Some <==> engines.lune is Some,
        engines.pesde matches Some(v) ==> (engines@)(EngineKind::Pesde) == Some(v@),
        engines.lune matches Some(v) ==> (engines@)(EngineKind::Lune) == Some(v@),
{
}

/// The version in the answer of an engine is what comes behind the first space, without white
/// space around it and without the letters `v` before it. An answer without a space has
/// none.
pub proof fn versions_come_behind_the_name(name: Seq<char>, rest: Seq<char>)
    requires
        !name.contains(' '),
    ensures
        version_part(name) is None,
        version_part(name + seq![' '] + rest) == Some(
            text::drop_leading(text::trimmed(rest), 'v'),
        ),
{
    text::where_texts_are_cut(name, ' ');
    if let Some((a, b)) = text::cut(name, ' ') {
        assert((a + seq![' '] + b)[a.len() as int] == ' ');
        assert(false);
    }
    let t = name + seq![' '] + rest;
    assert(t[name.len() as int] == ' ');
    assert forall|i: int| 0 <= i < name.len() implies t[i] != ' ' by {
        assert(t[i] == name[i]);
        assert(name.contains(name[i]));
    }
    text::lemma_lead_len_unique(t, ' ', name.len());
    assert(t.skip(name.len() as int + 1) =~= rest);
}

/// What comes of asking an engine for its version: an engine that is not there has none, one
/// that could not be run is an error, and of one that was run the version counts if it can
/// be read; if it cannot, that is logged, and the engine counts as not there.
pub proof fn answers_of_engines_count(
    engine: EngineKind,
    asked: Asked,
    read: Result<VersionParts, Seq<Seq<char>>>,
    answer: Answer,
)
    requires
        is_answer(engine, asked, read, answer),
    ensures
        asked is NotFound ==> answer.version == Ok::<Option<Version>, Failure>(None)
            && answer.logged is None,
        asked matches Asked::Failed(f) ==> (answer.version matches Err(g) && g@ == seq![
            "failed to execute "@ + engine_name(engine),
        ] + f@) && answer.logged is None,
        asked is Printed && read is Ok ==> (answer.version matches Ok(Some(v)) && v@ == read->Ok_0)
            && answer.logged is None,
        asked is Printed && read is Err ==> answer.version == Ok::<Option<Version>, Failure>(None)
            && answer.logged is Some,
{
}

/// What an engine printed is read as text, then its version is cut out, and that is read as a
/// version; whatever fails first is told, with the name of the engine.
pub proof fn printed_versions_are_read(engine: EngineKind, output: Seq<u8>)
    ensures
        ({
            let r = printed_version(engine, output);
            let t = decode_utf8(output);
            &&& !valid_utf8(output) ==> r == Err::<VersionParts, Seq<Seq<char>>>(
                seq![
                    "failed to parse "@ + engine_name(engine) + " version output"@,
                    utf8_error(output),
                ],
            )
            &&& valid_utf8(output) && version_part(t) is None ==> r == Err::<
                VersionParts,
                Seq<Seq<char>>,
            >(seq!["failed to split "@ + engine_name(engine) + " version output"@])
            &&& valid_utf8(output) ==> (version_part(t) matches Some(part) ==> match parsed_version(
                part,
            ) {
                Ok(v) => r == Ok::<VersionParts, Seq<Seq<char>>>(v),
                Err(e) => r == Err::<VersionParts, Seq<Seq<char>>>(
                    seq!["failed to parse "@ + engine_name(engine) + " version"@, e],
                ),
            })
        }),
{
    assert(caused(
        "failed to parse "@ + engine_name(engine) + " version output"@,
        plain(utf8_error(output)),
    ) =~= seq![
        "failed to parse "@ + engine_name(engine) + " version output"@,
        utf8_error(output),
    ]);
    if let Some(part) = version_part(decode_utf8(output)) {
        if let Err(e) = parsed_version(part) {
            assert(caused("failed to parse "@ + engine_name(engine) + " version"@, plain(e))
                =~= seq!["failed to parse "@ + engine_name(engine) + " version"@, e]);
        }
    }
}

/// Engines go by their own names, and Lune is the only one that runs packages.
pub proof fn engines_by_name(kind: EngineKind)
    ensures
        engine_name(EngineKind::Pesde) == "pesde"@,
        engine_name(EngineKind::Lune) == "lune"@,
        runtime_of(kind) is Some <==> kind == EngineKind::Lune,
        engine_of(RuntimeKind::Lune) == EngineKind::Lune,
{
}

/// What is logged of an error over the version of an engine names the engine and tells the
/// message, and then each cause in a line of its own.
pub proof fn unreadable_versions_are_logged_in_full(engine: EngineKind, f: Failure)
    ensures
        ({
            let head = "failed to extract "@ + engine_name(engine) + " version:\n"@ + f.message@;
            let causes = Seq::new(f.causes@.len(), |i: int| "\t- "@ + f.causes@[i]@);
            &&& f.causes@.len() == 0 ==> extraction_log(engine, f@) == head
            &&& f.causes@.len() > 0 ==> extraction_log(engine, f@) == head + ("\n"@ + text::joined(
                causes,
                "\n"@,
            ))
        }),
{
    let causes = Seq::new(f.causes@.len(), |i: int| "\t- "@ + f.causes@[i]@);
    assert(f@.skip(1) =~= text::texts(f.causes@));
    assert(text::bulleted(text::texts(f.causes@)) =~= causes);
    assert(f@[0] == f.message@);
}

} // verus!
