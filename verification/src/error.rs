//! What can go wrong while the player works.

use vstd::prelude::*;

verus! {

/// An error of the player.
#[derive(Debug)]
pub enum Error {
    /// Last.fm answered with an error.
    LastFmError { message: String },
    /// A request got no answer.
    RequestError { error: String },
    /// An answer did not have the expected form.
    JsonError { error: String },
    /// The database refused an operation.
    DatabaseError { error: String },
}

impl Error {
    /// The text of the error.
    pub open spec fn text(self) -> Seq<char> {
        match self {
            Error::LastFmError { message } => message@,
            Error::RequestError { error } => error@,
            Error::JsonError { error } => error@,
            Error::DatabaseError { error } => error@,
        }
    }

    /// The text to show to the user.
    pub fn message(&self) -> (message: &str)
        ensures
            message@ == self.text(),
    {
        match self {
            Error::LastFmError { message } => message.as_str(),
            Error::RequestError { error } => error.as_str(),
            Error::JsonError { error } => error.as_str(),
            Error::DatabaseError { error } => error.as_str(),
        }
    }
}

/// An error is told in the words in which it came.
pub proof fn lemma_text_is_kept(words: String)
    ensures
        (Error::LastFmError { message: words }).text() == words@,
        (Error::RequestError { error: words }).text() == words@,
        (Error::JsonError { error: words }).text() == words@,
        (Error::DatabaseError { error: words }).text() == words@,
{
}

} // verus!
