use vstd::prelude::*;

verus! {

/// One tokenized text: parallel per-position lists of token ids, attention
/// flags (1 for a real token, 0 for padding) and segment ids, in position
/// order, as the tokenization adapter produced them.
pub struct TokenSequence {
    pub ids: Vec<u32>,
    pub attention_mask: Vec<u32>,
    pub type_ids: Vec<u32>,
}

impl TokenSequence {
    /// The three per-position lists must agree in length; a sequence that
    /// breaks this came from a misbehaving adapter and is rejected as a
    /// shape mismatch, never silently corrected.
    pub open spec fn wf(self) -> bool {
        &&& self.attention_mask@.len() == self.ids@.len()
        &&& self.type_ids@.len() == self.ids@.len()
    }

    /// Number of token positions in this sequence.
    pub open spec fn len_spec(self) -> nat {
        self.ids@.len()
    }
}

} // verus!
