//! Why an extraction fails.

use vstd::prelude::*;

verus! {

/// The failure of an extraction. Either kind ends the run: no records are
/// returned from a feed that fails.
#[derive(Debug, Clone, Copy, PartialEq, Eq, Structural)]
pub enum ExtractError {
    /// The markup is malformed: the tokenizer could not go on, the attributes
    /// of a record element could not be read, or the text of a detail
    /// element could not be read. `position` is the byte offset in the input
    /// at which the tokenizer stood.
    Malformed { position: usize },
    /// A detail element came before any record element, so there was no
    /// record for its text. `position` is the byte offset after its tag.
    NoOpenRecord { position: usize },
}

impl ExtractError {
    /// The byte offset in the input at which the failure was met.
    pub fn position(&self) -> (position: usize)
        ensures
            self matches ExtractError::Malformed { position: at } ==> position == at,
            self matches ExtractError::NoOpenRecord { position: at } ==> position == at,
    {
        match *self {
            ExtractError::Malformed { position } => position,
            ExtractError::NoOpenRecord { position } => position,
        }
    }
}

} // verus!
