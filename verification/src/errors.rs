use vstd::prelude::*;

verus! {

/// Everything that can go wrong in one embedding call. A batch either fully
/// succeeds or fails as one unit with exactly one of these; per-row
/// degeneracies (an all-padding row, a zero-norm vector) are defined outputs,
/// not errors.
#[derive(Debug)]
pub enum EmbeddingError {
    /// An embed call arrived before a successful load.
    NotLoaded,
    /// The tokenizer could not encode the batch; carries its message.
    TokenizationFailure(String),
    /// A token sequence's id, mask and segment lists disagree in length;
    /// carries the index of the first offending sequence.
    ShapeMismatch(usize),
    /// The model invocation collaborator reported an error; carries its
    /// message.
    InferenceFailure(String),
    /// A batch element handed over by the host was not a string; carries its
    /// index.
    InputTypeError(usize),
}

} // verus!
