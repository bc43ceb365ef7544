//! Telling the user of an error.

use crate::failure::Failure;
use crate::text;
use vstd::prelude::*;

verus! {

/// How a part of a line is marked.
#[derive(Debug, PartialEq, Eq, Clone, Copy, Structural)]
pub enum Mark {
    Plain,
    Error,
    Info,
    Warning,
}

/// A line that is printed: what comes first, then a part that is marked, then
/// the rest.
#[derive(Debug)]
pub struct Line {
    pub before: String,
    pub mark: Mark,
    pub marked: String,
    pub after: String,
}

/// What a line consists of.
pub type LineParts = (Seq<char>, Mark, Seq<char>, Seq<char>);

impl View for Line {
    type V = LineParts;

    open spec fn view(&self) -> LineParts {
        (self.before@, self.mark, self.marked@, self.after@)
    }
}

/// What is known of where an error came up.
#[derive(Debug)]
pub enum Backtrace {
    Disabled,
    /// As it is shown.
    Captured(String),
    Unsupported,
}

/// A line with nothing marked.
pub open spec fn plain_line(t: Seq<char>) -> LineParts {
    (t, Mark::Plain, Seq::empty(), Seq::empty())
}

/// The last line.
pub open spec fn backtrace_line(b: Backtrace) -> LineParts {
    match b {
        Backtrace::Disabled => (
            "\n"@,
            Mark::Info,
            "help"@,
            ": set RUST_BACKTRACE=1 for a backtrace"@,
        ),
        Backtrace::Captured(t) => ("\n"@, Mark::Warning, "backtrace"@, ":\n"@ + t@),
        Backtrace::Unsupported => ("\n"@, Mark::Warning, "backtrace"@, ": not captured"@),
    }
}

/// The lines that list the causes of an error, if it has any.
pub open spec fn cause_lines(causes: Seq<Seq<char>>) -> Seq<LineParts> {
    if causes.len() == 0 {
        Seq::empty()
    } else {
        seq![(Seq::<char>::empty(), Mark::Error, "caused by"@, ":"@)] + text::bulleted(
            causes,
        ).map_values(|t: Seq<char>| plain_line(t))
    }
}

/// All that is said of an error.
pub open spec fn error_lines(
    message: Seq<char>,
    causes: Seq<Seq<char>>,
    prefix: Seq<char>,
    b: Backtrace,
) -> Seq<LineParts> {
    seq![(Seq::<char>::empty(), Mark::Error, "error"@ + prefix, ": "@ + message + "\n"@)]
        + cause_lines(causes) + seq![backtrace_line(b)]
}

/// A list of lines.
pub open spec fn line_views(lines: Seq<Line>) -> Seq<LineParts> {
    lines.map_values(|l: Line| l@)
}

fn push_line(lines: &mut Vec<Line>, before: &str, mark: Mark, marked: &str, after: &str)
    ensures
        line_views(final(lines)@) == line_views(old(lines)@).push(
            (before@, mark, marked@, after@),
        ),
{
    let l = Line {
        before: before.to_owned(),
        mark,
        marked: marked.to_owned(),
        after: after.to_owned(),
    };
    lines.push(l);
    assert(line_views(lines@) =~= line_views(old(lines)@).push(l@));
}

/// The lines that tell the user of an error; none if there is no error.
pub fn display_err(result: Result<(), Failure>, prefix: &str, backtrace: Backtrace) -> (r: Vec<
    Line,
>)
    ensures
        match result {
            Ok(_) => line_views(r@).len() == 0,
            Err(e) => line_views(r@) == error_lines(
                e.message@,
                text::texts(e.causes@),
                prefix@,
                backtrace,
            ),
        },
{
    proof {
        reveal_strlit("");
    }
    let mut lines: Vec<Line> = Vec::new();
    let e = match result {
        Ok(_) => {
            return lines;
        },
        Err(e) => e,
    };
    let title = text::cat("error", prefix);
    let rest = text::cat3(": ", e.message.as_str(), "\n");
    push_line(&mut lines, "", Mark::Error, title.as_str(), rest.as_str());
    let ghost head = seq![
        (Seq::<char>::empty(), Mark::Error, "error"@ + prefix@, ": "@ + e.message@ + "\n"@),
    ];
    assert(""@ =~= Seq::<char>::empty());
    assert(line_views(lines@) =~= head);
    if e.causes.len() > 0 {
        push_line(&mut lines, "", Mark::Error, "caused by", ":");
        let bullets = text::bullets(&e.causes);
        let ghost texts = text::texts(bullets@);
        let ghost listed = texts.map_values(|t: Seq<char>| plain_line(t));
        let ghost start = head.push((Seq::<char>::empty(), Mark::Error, "caused by"@, ":"@));
        let mut i: usize = 0;
        assert(start + listed.take(0) =~= start);
        while i < bullets.len()
            invariant
                i <= bullets.len(),
                texts == text::texts(bullets@),
                listed == texts.map_values(|t: Seq<char>| plain_line(t)),
                line_views(lines@) == start + listed.take(i as int),
                ""@ == Seq::<char>::empty(),
            decreases bullets.len() - i,
        {
            push_line(&mut lines, bullets[i].as_str(), Mark::Plain, "", "");
            assert(listed[i as int] == plain_line(bullets@[i as int]@));
            assert(start + listed.take(i + 1) =~= (start + listed.take(i as int)).push(
                listed[i as int],
            ));
            i = i + 1;
        }
        assert(listed.take(i as int) =~= listed);
        assert(start + listed =~= head + cause_lines(text::texts(e.causes@)));
    } else {
        assert(head =~= head + cause_lines(text::texts(e.causes@)));
    }
    let ghost told = line_views(lines@);
    match &backtrace {
        Backtrace::Disabled => {
            push_line(
                &mut lines,
                "\n",
                Mark::Info,
                "help",
                ": set RUST_BACKTRACE=1 for a backtrace",
            );
        },
        Backtrace::Captured(t) => {
            let rest = text::cat(":\n", t.as_str());
            push_line(&mut lines, "\n", Mark::Warning, "backtrace", rest.as_str());
        },
        Backtrace::Unsupported => {
            push_line(&mut lines, "\n", Mark::Warning, "backtrace", ": not captured");
        },
    }
    assert(line_views(lines@) =~= told + seq![backtrace_line(backtrace)]);
    lines
}

/// An error is told in this way: its message first, behind the word for an error and the
/// prefix; then, if it has causes, a line that says so and one for each cause, in their
/// order; and last where it came up.
pub proof fn errors_are_told_in_full(
    message: Seq<char>,
    causes: Seq<Seq<char>>,
    prefix: Seq<char>,
    b: Backtrace,
)
    ensures
        ({
            let lines = error_lines(message, causes, prefix, b);
            &&& lines.len() == (if causes.len() == 0 {
                2
            } else {
                3 + causes.len()
            })
            &&& lines[0] == (
                Seq::<char>::empty(),
                Mark::Error,
                "error"@ + prefix,
                ": "@ + message + "\n"@,
            )
            &&& causes.len() > 0 ==> lines[1] == (
                Seq::<char>::empty(),
                Mark::Error,
                "caused by"@,
                ":"@,
            )
            &&& forall|i: int|
                0 <= i < causes.len() ==> lines[2 + i] == (
                    "\t- "@ + #[trigger] causes[i],
                    Mark::Plain,
                    Seq::<char>::empty(),
                    Seq::<char>::empty(),
                )
            &&& lines.last() == (match b {
                Backtrace::Disabled => (
                    "\n"@,
                    Mark::Info,
                    "help"@,
                    ": set RUST_BACKTRACE=1 for a backtrace"@,
                ),
                Backtrace::Captured(t) => ("\n"@, Mark::Warning, "backtrace"@, ":\n"@ + t@),
                Backtrace::Unsupported => (
                    "\n"@,
                    Mark::Warning,
                    "backtrace"@,
                    ": not captured"@,
                ),
            })
        }),
{
    let bullets = text::bulleted(causes);
    let listed = bullets.map_values(|t: Seq<char>| plain_line(t));
    let lines = error_lines(message, causes, prefix, b);
    if causes.len() > 0 {
        assert(cause_lines(causes).len() == 1 + causes.len());
        assert forall|i: int| 0 <= i < causes.len() implies lines[2 + i] == (
            "\t- "@ + #[trigger] causes[i],
            Mark::Plain,
            Seq::<char>::empty(),
            Seq::<char>::empty(),
        ) by {
            assert(listed[i] == plain_line(bullets[i]));
            assert(cause_lines(causes)[1 + i] == listed[i]);
        }
    }
}

} // verus!
