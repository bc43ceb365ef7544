//! Errors as they are told to the user: what went wrong, and why.

use crate::text;
use vstd::prelude::*;

verus! {

/// An error: its message, then what caused it, then the cause of that, and so on.
#[derive(Debug)]
pub struct Failure {
    pub message: String,
    pub causes: Vec<String>,
}

impl View for Failure {
    type V = Seq<Seq<char>>;

    open spec fn view(&self) -> Seq<Seq<char>> {
        seq![self.message@] + text::texts(self.causes@)
    }
}

/// An error with no cause.
pub open spec fn plain(message: Seq<char>) -> Seq<Seq<char>> {
    seq![message]
}

/// An error that another error is the cause of.
pub open spec fn caused(message: Seq<char>, cause: Seq<Seq<char>>) -> Seq<Seq<char>> {
    seq![message] + cause
}

impl Failure {
    /// An error with no cause.
    pub fn new(message: String) -> (r: Failure)
        ensures
            r@ == plain(message@),
            r.message == message,
    {
        let r = Failure { message, causes: Vec::new() };
        assert(r@ =~= plain(message@));
        r
    }

    /// An error with no cause.
    pub fn of(message: &str) -> (r: Failure)
        ensures
            r@ == plain(message@),
    {
        Failure::new(message.to_owned())
    }

    /// The error that this one is the cause of.
    pub fn context(self, message: &str) -> (r: Failure)
        ensures
            r@ == caused(message@, self@),
    {
        let mut causes: Vec<String> = Vec::new();
        causes.push(self.message);
        let mut i: usize = 0;
        while i < self.causes.len()
            invariant
                i <= self.causes.len(),
                text::texts(causes@) == self@.take(i + 1),
            decreases self.causes.len() - i,
        {
            let ghost prior = text::texts(causes@);
            let cause = self.causes[i].clone();
            causes.push(cause);
            assert(text::texts(causes@) =~= prior.push(cause@));
            assert(self@.take(i + 2) =~= self@.take(i + 1).push(self@[i + 1]));
            assert(self@[i + 1] == text::texts(self.causes@)[i as int]);
            i = i + 1;
        }
        assert(self@.take(i + 1) =~= self@);
        let r = Failure { message: message.to_owned(), causes };
        assert(r@ =~= caused(message@, self@));
        r
    }

    /// A copy of the error.
    pub fn copy(&self) -> (r: Failure)
        ensures
            r@ == self@,
    {
        let mut causes: Vec<String> = Vec::new();
        let mut i: usize = 0;
        while i < self.causes.len()
            invariant
                i <= self.causes.len(),
                text::texts(causes@) == text::texts(self.causes@).take(i as int),
            decreases self.causes.len() - i,
        {
            let ghost prior = text::texts(causes@);
            let cause = self.causes[i].clone();
            causes.push(cause);
            assert(text::texts(causes@) =~= prior.push(cause@));
            assert(text::texts(self.causes@).take(i + 1) =~= text::texts(self.causes@).take(
                i as int,
            ).push(cause@));
            i = i + 1;
        }
        assert(text::texts(self.causes@).take(i as int) =~= text::texts(self.causes@));
        Failure { message: self.message.clone(), causes }
    }
}

/// An error is told with its message first, then what caused it, in their order; and an error
/// that another one causes is told before that one.
pub proof fn errors_come_before_their_causes(f: Failure, message: Seq<char>, i: int)
    ensures
        f@.len() == 1 + f.causes@.len(),
        f@[0] == f.message@,
        0 <= i < f.causes@.len() ==> f@[1 + i] == f.causes@[i]@,
        caused(message, f@).len() == 1 + f@.len(),
        caused(message, f@)[0] == message,
        0 <= i < f@.len() ==> caused(message, f@)[1 + i] == f@[i],
        plain(message) == seq![message],
{
}

} // verus!
