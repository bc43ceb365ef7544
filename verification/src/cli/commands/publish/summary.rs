//! What the user is asked to confirm before a package is published.

use super::paths::FilePath;
use super::steps::Draft;
use crate::project::{is_roblox, Script};
use crate::text;
use crate::version::version_text;
use vstd::prelude::*;

verus! {

/// A text, or the word for none.
pub open spec fn or_none(t: Option<String>) -> Seq<char> {
    match t {
        Some(s) => s@,
        None => "(none)"@,
    }
}

/// The texts with commas between them, or the word for none.
pub open spec fn listed(list: Seq<Seq<char>>) -> Seq<char> {
    if list.len() == 0 {
        "(none)"@
    } else {
        text::joined(list, ", "@)
    }
}

/// The names of scripts.
pub open spec fn script_names(scripts: Seq<Script>) -> Seq<Seq<char>> {
    scripts.map_values(|s: Script| s.name@)
}

/// The texts of paths.
pub open spec fn path_texts(paths: Seq<FilePath>) -> Seq<Seq<char>> {
    paths.map_values(|p: FilePath| p.text@)
}

/// The lines that say what will be published.
pub open spec fn summary(d: Draft) -> Seq<Seq<char>> {
    let m = d.manifest;
    seq![
        "name: "@ + m.name@,
        "version: "@ + version_text(m.version@),
        "description: "@ + or_none(m.description),
        "license: "@ + or_none(m.license),
        "authors: "@ + listed(text::texts(m.authors@)),
        "repository: "@ + or_none(m.repository),
        "target: "@ + m.target.shown@,
        "\tlib path: "@ + or_none(m.target.lib_path),
    ] + (if is_roblox(m.target.kind) {
        seq!["\tbuild files: "@ + text::joined(text::texts(d.build_shown@), ", "@)]
    } else {
        seq![
            "\tbin path: "@ + or_none(m.target.bin_path),
            "\tscripts: "@ + listed(
                match m.target.scripts {
                    Some(scripts) => script_names(scripts@),
                    None => Seq::empty(),
                },
            ),
        ]
    }) + seq!["includes: "@ + text::joined(path_texts(d.paths@), ", "@)]
}

fn text_or_none(label: &str, t: &Option<String>) -> (r: String)
    ensures
        r@ == label@ + or_none(*t),
{
    match t {
        Some(s) => text::cat(label, s.as_str()),
        None => text::cat(label, "(none)"),
    }
}

fn list_or_none(label: &str, list: &Vec<String>) -> (r: String)
    ensures
        r@ == label@ + listed(text::texts(list@)),
{
    if list.len() == 0 {
        text::cat(label, "(none)")
    } else {
        text::cat(label, text::join(list, ", ").as_str())
    }
}

fn names_of(scripts: &Option<Vec<Script>>) -> (r: Vec<String>)
    ensures
        text::texts(r@) == (match scripts {
            Some(s) => script_names(s@),
            None => Seq::empty(),
        }),
{
    let mut r: Vec<String> = Vec::new();
    if let Some(scripts) = scripts {
        let mut i: usize = 0;
        while i < scripts.len()
            invariant
                i <= scripts.len(),
                r@.len() == i,
                forall|j: int| 0 <= j < i ==> #[trigger] r@[j] == scripts@[j].name,
            decreases scripts.len() - i,
        {
            r.push(scripts[i].name.clone());
            i = i + 1;
        }
        assert(text::texts(r@) =~= script_names(scripts@)) by {
            assert forall|j: int| 0 <= j < r@.len() implies text::texts(r@)[j] == script_names(
                scripts@,
            )[j] by {
                assert(r@[j] == scripts@[j].name);
            }
        }
    } else {
        assert(text::texts(r@) =~= Seq::<Seq<char>>::empty());
    }
    r
}

fn texts_of(paths: &Vec<FilePath>) -> (r: Vec<String>)
    ensures
        text::texts(r@) == path_texts(paths@),
{
    let mut r: Vec<String> = Vec::new();
    let mut i: usize = 0;
    while i < paths.len()
        invariant
            i <= paths.len(),
            r@.len() == i,
            forall|j: int| 0 <= j < i ==> #[trigger] r@[j] == paths@[j].text,
        decreases paths.len() - i,
    {
        r.push(paths[i].text.clone());
        i = i + 1;
    }
    assert(text::texts(r@) =~= path_texts(paths@)) by {
        assert forall|j: int| 0 <= j < r@.len() implies text::texts(r@)[j] == path_texts(
            paths@,
        )[j] by {
            assert(r@[j] == paths@[j].text);
        }
    }
    r
}

/// The lines that say what will be published.
pub fn summary_lines(d: &Draft) -> (r: Vec<String>)
    ensures
        text::texts(r@) == summary(*d),
{
    let m = &d.manifest;
    let mut r: Vec<String> = Vec::new();
    r.push(text::cat("name: ", m.name.as_str()));
    r.push(text::cat("version: ", m.version.to_text().as_str()));
    r.push(text_or_none("description: ", &m.description));
    r.push(text_or_none("license: ", &m.license));
    r.push(list_or_none("authors: ", &m.authors));
    r.push(text_or_none("repository: ", &m.repository));
    r.push(text::cat("target: ", m.target.shown.as_str()));
    r.push(text_or_none("\tlib path: ", &m.target.lib_path));
    if m.target.kind.is_roblox() {
        r.push(text::cat("\tbuild files: ", text::join(&d.build_shown, ", ").as_str()));
    } else {
        r.push(text_or_none("\tbin path: ", &m.target.bin_path));
        r.push(list_or_none("\tscripts: ", &names_of(&m.target.scripts)));
    }
    r.push(text::cat("includes: ", text::join(&texts_of(&d.paths), ", ").as_str()));
    assert(text::texts(r@) =~= summary(*d));
    r
}

} // verus!
