//! Domain value records: a question and its identifier.
//!
//! Plain immutable values with a validating constructor: an identifier
//! must hold at least one character, and an empty one is rejected with
//! `InvalidInput`.

use vstd::prelude::*;

verus! {

/// Why a value could not be built.
#[derive(Clone, Copy, Debug, PartialEq, Eq, Structural)]
pub enum QuestionError {
    /// The given identifier was empty.
    InvalidInput,
}

/// Identifier of a question: a non-empty string.
#[derive(Clone, Debug, PartialEq, Eq)]
pub struct QuestionId(pub String);

impl QuestionId {
    /// A valid identifier holds at least one character.
    pub open spec fn wf(self) -> bool {
        self.0@.len() > 0
    }

    /// Build an identifier from text: any non-empty text is accepted
    /// as it stands, empty text is rejected with `InvalidInput`.
    pub fn from_str(id: &str) -> (r: Result<QuestionId, QuestionError>)
        ensures
            id@.len() == 0 <==> r == Err::<QuestionId, QuestionError>(QuestionError::InvalidInput),
            id@.len() > 0 <==> (r matches Ok(q) && q.0@ == id@ && q.wf()),
    {
        if id.is_empty() {
            Err(QuestionError::InvalidInput)
        } else {
            Ok(QuestionId(id.to_owned()))
        }
    }
}

/// One question: identifier, title, content, and optional tags.
#[derive(Clone, Debug, PartialEq, Eq)]
pub struct Question {
    /// The question's identifier.
    pub id: QuestionId,
    /// The question's title.
    pub title: String,
    /// The question's body.
    pub content: String,
    /// Optional tags.
    pub tags: Option<Vec<String>>,
}

impl Question {
    /// Build a question from its parts, kept exactly as given.
    pub fn new(id: QuestionId, title: String, content: String, tags: Option<Vec<String>>) -> (q:
        Question)
        ensures
            q.id == id,
            q.title == title,
            q.content == content,
            q.tags == tags,
    {
        Question { id, title, content, tags }
    }
}

} // verus!
