//! The closed set of kinds a work can have, and the token each is written as.

use vstd::prelude::*;
use crate::error::Error;
use crate::text::same;

verus! {

/// The category of a work.
#[derive(Clone, Copy, Debug, PartialEq, Eq, Structural)]
pub enum BookType {
    Manga,
    Ranobe,
}

impl BookType {
    /// The token that stands for this kind in text and in the store.
    pub open spec fn token(self) -> Seq<char> {
        match self {
            BookType::Manga => "manga"@,
            BookType::Ranobe => "ranobe"@,
        }
    }

    /// The kind that `token` stands for, if it stands for one.
    pub open spec fn parsed(token: Seq<char>) -> Option<BookType> {
        if token == "manga"@ {
            Some(BookType::Manga)
        } else if token == "ranobe"@ {
            Some(BookType::Ranobe)
        } else {
            None
        }
    }

    /// Writes the kind as its token.
    pub fn as_str(&self) -> (r: &'static str)
        ensures
            r@ == self.token(),
    {
        match self {
            BookType::Manga => "manga",
            BookType::Ranobe => "ranobe",
        }
    }

    /// Reads a kind from its token; any other text is a validation error.
    pub fn try_from(token: &str) -> (r: Result<BookType, Error>)
        ensures
            r == (match BookType::parsed(token@) {
                Some(kind) => Ok::<BookType, Error>(kind),
                None => Err::<BookType, Error>(Error::Validation),
            }),
    {
        if same(token, "manga") {
            Ok(BookType::Manga)
        } else if same(token, "ranobe") {
            Ok(BookType::Ranobe)
        } else {
            Err(Error::Validation)
        }
    }
}

/// A kind written as its token and read back is the same kind.
pub proof fn lemma_kind_round_trip(kind: BookType)
    ensures
        BookType::parsed(kind.token()) == Some(kind),
{
    reveal_strlit("manga");
    reveal_strlit("ranobe");
    assert("manga"@.len() != "ranobe"@.len());
}

/// A token that reads as a kind is the token that kind is written as.
pub proof fn lemma_kind_token(token: Seq<char>)
    ensures
        BookType::parsed(token) matches Some(kind) ==> kind.token() == token,
{
}

} // verus!
