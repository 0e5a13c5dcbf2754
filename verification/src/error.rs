//! Errors as a chain of messages.

use vstd::prelude::*;

use crate::text::join;
use crate::text::joined;
use crate::text::texts;

verus! {

/// What went wrong, told from the outermost context down to the root cause.
#[derive(Debug)]
pub struct Error {
    /// The messages, outermost first.
    pub chain: Vec<String>,
}

impl View for Error {
    type V = Seq<Seq<char>>;

    open spec fn view(&self) -> Seq<Seq<char>> {
        texts(self.chain@)
    }
}

impl Error {
    /// An error with one message.
    pub fn new(message: &str) -> (r: Error)
        ensures
            r@ == seq![message@],
    {
        Error::from_text(message.to_owned())
    }

    /// An error with one message, which is already owned.
    pub fn from_text(message: String) -> (r: Error)
        ensures
            r@ == seq![message@],
    {
        let mut chain: Vec<String> = Vec::new();
        chain.push(message);
        let r = Error { chain };
        assert(r@ =~= seq![message@]);
        r
    }

    /// The same error, reported from within `message`.
    pub fn context(self, message: &str) -> (r: Error)
        ensures
            r@ == seq![message@] + self@,
    {
        let mut chain: Vec<String> = Vec::new();
        chain.push(message.to_owned());
        let mut rest = self.chain;
        chain.append(&mut rest);
        let r = Error { chain };
        assert(r@ =~= seq![message@] + self@);
        r
    }

    /// All messages on one line, separated by colons.
    pub fn message(&self) -> (r: String)
        ensures
            r@ == joined(self@, ": "@),
    {
        join(&self.chain, ": ")
    }
}

/// An error shows its messages, the outermost first.
pub proof fn law_errors_are_shown(error: Error)
    ensures
        error@.len() == error.chain@.len(),
        forall|i: int| 0 <= i < error.chain@.len() ==> #[trigger] error@[i] == error.chain@[i]@,
{
}

} // verus!
