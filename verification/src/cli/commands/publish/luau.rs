//! The syntax of Luau files.

use crate::text;
use full_moon::tokenizer::{Lexer, LexerResult, TokenizerError, TokenizerErrorType};
use full_moon::LuaVersion;
use vstd::prelude::*;

verus! {

/// What the lexer finds wrong with a piece of code.
#[derive(Debug, PartialEq, Eq, Clone, Copy, Structural)]
pub enum TokenError {
    UnclosedComment,
    UnclosedString,
    InvalidNumber,
    UnexpectedToken,
    InvalidSymbol,
}

/// What the lexer of `full_moon` makes of Luau code: how many tokens it reads, and
/// the errors that it finds.
pub uninterp spec fn luau_tokens(code: Seq<char>) -> (int, Seq<TokenError>);

/// The errors that `full_moon::parse` finds in Luau code, as it words them.
pub uninterp spec fn luau_errors(code: Seq<char>) -> Seq<Seq<char>>;

/// Whether no token stands for the code in question. Of the other errors the lexer
/// recovers: it makes a token of the comment, the string or the number.
pub open spec fn is_fatal(e: TokenError) -> bool {
    e == TokenError::UnexpectedToken || e == TokenError::InvalidSymbol
}

/// Whether code can be handed to the parser, given how many tokens the lexer reads and
/// the errors that it finds: there is a token for all of it, and for its end.
pub open spec fn has_all_tokens(tokens: int, errors: Seq<TokenError>) -> bool {
    tokens > 0 && forall|i: int| 0 <= i < errors.len() ==> !is_fatal(#[trigger] errors[i])
}

/// Whether Luau code can be handed to the parser.
pub open spec fn is_readable(code: Seq<char>) -> bool {
    has_all_tokens(luau_tokens(code).0, luau_tokens(code).1)
}

/// Calls `full_moon::tokenizer::Lexer::collect` on a lexer that reads code as
/// `full_moon::parse` does. Returned are the number of tokens, white space, comments
/// and the end of the file among them, and the errors, by what is wrong. They depend on
/// the code alone.
#[verifier::external_body]
pub(crate) fn lex_luau(code: &str) -> (r: (usize, Vec<TokenError>))
    ensures
        r.0 == luau_tokens(code@).0,
        r.1@ == luau_tokens(code@).1,
{
    let kind = |e: TokenizerError| match e.error() {
        TokenizerErrorType::UnclosedComment => TokenError::UnclosedComment,
        TokenizerErrorType::UnclosedString => TokenError::UnclosedString,
        TokenizerErrorType::InvalidNumber => TokenError::InvalidNumber,
        TokenizerErrorType::UnexpectedToken(_) => TokenError::UnexpectedToken,
        TokenizerErrorType::InvalidSymbol(_) => TokenError::InvalidSymbol,
    };
    match Lexer::new(code, LuaVersion::new()).collect() {
        LexerResult::Ok(tokens) => (tokens.len(), Vec::new()),
        LexerResult::Fatal(errors) => (0, errors.into_iter().map(kind).collect()),
        LexerResult::Recovered(tokens, errors) => {
            (tokens.len(), errors.into_iter().map(kind).collect())
        },
    }
}

/// Calls `full_moon::parse`. Returned are the errors, none exactly if the code is
/// accepted: an error of the parser always lists at least one. They depend on the
/// code alone.
///
/// The parser relies on a token in some places and panics if there is none, such as
/// behind a type and behind an `@`. It also panics on code of which the lexer reads not
/// even the end, which a hash-bang line before a comment that is not closed leads to. So
/// it is handed only code that has all its tokens. How deep code may be nested before the
/// parser, which is recursive, runs out of stack is left unsaid.
#[verifier::external_body]
pub(crate) fn parse_luau(code: &str) -> (r: Vec<String>)
    requires
        is_readable(code@),
    ensures
        text::texts(r@) == luau_errors(code@),
{
    match full_moon::parse(code) {
        Ok(_) => Vec::new(),
        Err(errors) => errors.into_iter().map(|e| e.to_string()).collect(),
    }
}

/// Whether code can be handed to the parser, by what the lexer made of it.
pub fn judge_tokens(tokens: usize, errors: &Vec<TokenError>) -> (r: bool)
    ensures
        r == has_all_tokens(tokens as int, errors@),
{
    let mut i: usize = 0;
    while i < errors.len()
        invariant
            i <= errors.len(),
            forall|j: int| 0 <= j < i ==> !is_fatal(#[trigger] errors@[j]),
        decreases errors.len() - i,
    {
        if errors[i] == TokenError::UnexpectedToken || errors[i] == TokenError::InvalidSymbol {
            assert(is_fatal(errors@[i as int]));
            return false;
        }
        i = i + 1;
    }
    tokens > 0
}

/// Finds out whether code can be handed to the parser.
pub fn can_read(code: &str) -> (r: bool)
    ensures
        r == is_readable(code@),
{
    let (tokens, errors) = lex_luau(code);
    judge_tokens(tokens, &errors)
}

} // verus!
