use vstd::prelude::*;

use crate::batch::{batch_of, build_batch, Batch};
use crate::errors::EmbeddingError;
use crate::tokens::TokenSequence;
use crate::{PoolingStrategy, HIDDEN_SIZE, MAX_SEQUENCE_LENGTH};

verus! {

/// tokenizers::Tokenizer, held opaquely: the engine stores it and hands it
/// to its own encode wrapper, never reading inside it.
#[verifier::external_type_specification]
#[verifier::external_body]
pub struct ExTokenizer(tokenizers::Tokenizer);

/// candle's BertModel, held opaquely: the engine only stores it and lends it
/// out for the host layer's forward pass; every float lives beyond this type.
#[verifier::external_type_specification]
#[verifier::external_body]
pub struct ExBertModel(candle_transformers::models::bert::BertModel);

/// Relies on tokenizers::Tokenizer::encode_batch: it returns one encoding per
/// input text, in input order, or one error for the whole batch. Each
/// encoding's token ids, attention mask and segment ids are copied out
/// unchanged. The result is not a function of the tokenizer value and the
/// texts alone — a byte-pair model configured with merge dropout draws fresh
/// randomness on every call (models/bpe/word.rs, merge_all) — so no spec name
/// can stand for it; the contract states what holds of every outcome, and the
/// layout downstream is verified for whatever the tokenizer produced.
#[verifier::external_body]
fn encode_texts(tokenizer: &tokenizers::Tokenizer, texts: &Vec<String>) -> (r: Result<
    Vec<TokenSequence>,
    EmbeddingError,
>)
    ensures
        r matches Ok(seqs) ==> seqs@.len() == texts@.len(),
        r matches Err(e) ==> e is TokenizationFailure,
{
    match tokenizer.encode_batch(texts.clone(), true) {
        Ok(encodings) => Ok(
            encodings.iter().map(
                |e| TokenSequence {
                    ids: e.get_ids().to_vec(),
                    attention_mask: e.get_attention_mask().to_vec(),
                    type_ids: e.get_type_ids().to_vec(),
                },
            ).collect(),
        ),
        Err(e) => Err(EmbeddingError::TokenizationFailure(format!("{e}"))),
    }
}

/// The embedding engine: a two-state lifecycle. It starts empty and becomes
/// ready once a model and a tokenizer are attached; there is no way back.
/// The float-valued stages (model forward pass, pooling, normalization) are
/// the host layer's: this type owns the collaborators, the readiness rule and
/// the integer pipeline from texts to a padded batch.
pub struct EmbeddingEngine {
    model: Option<candle_transformers::models::bert::BertModel>,
    tokenizer: Option<tokenizers::Tokenizer>,
    pooling: PoolingStrategy,
}

impl EmbeddingEngine {
    /// The model this engine holds, if one was attached.
    pub closed spec fn model_spec(self) -> Option<
        candle_transformers::models::bert::BertModel,
    > {
        self.model
    }

    /// The tokenizer this engine holds, if one was attached.
    pub closed spec fn tokenizer_spec(self) -> Option<tokenizers::Tokenizer> {
        self.tokenizer
    }

    /// Both collaborators are present; embed calls are accepted exactly then.
    pub closed spec fn ready(self) -> bool {
        self.model_spec() is Some && self.tokenizer_spec() is Some
    }

    /// The pooling strategy this engine applies to every batch.
    pub closed spec fn pooling_spec(self) -> PoolingStrategy {
        self.pooling
    }

    /// A fresh engine: unloaded, mean pooling.
    pub fn new() -> (r: Self)
        ensures
            !r.ready(),
            r.pooling_spec() == PoolingStrategy::Mean,
    {
        EmbeddingEngine { model: None, tokenizer: None, pooling: PoolingStrategy::Mean }
    }

    /// True iff both the model and the tokenizer are loaded.
    pub fn is_ready(&self) -> (r: bool)
        ensures
            r == self.ready(),
    {
        self.model.is_some() && self.tokenizer.is_some()
    }

    /// The Loaded transition: hand over both collaborators at once, and hold
    /// exactly those two from then on. The host layer deserializes them from
    /// bytes; that step is its own. Once ready, an engine stays ready.
    pub fn attach(
        &mut self,
        model: candle_transformers::models::bert::BertModel,
        tokenizer: tokenizers::Tokenizer,
    )
        ensures
            final (self).ready(),
            final (self).model_spec() == Some(model),
            final (self).tokenizer_spec() == Some(tokenizer),
            final (self).pooling_spec() == old(self).pooling_spec(),
    {
        self.model = Some(model);
        self.tokenizer = Some(tokenizer);
    }

    /// The loaded model — the very one attached — for the host layer to run
    /// the forward pass on.
    pub fn model_ref(&self) -> (r: Option<&candle_transformers::models::bert::BertModel>)
        ensures
            self.ready() ==> r is Some,
            r matches Some(m) ==> self.model_spec() == Some(*m),
    {
        match &self.model {
            Some(m) => Some(m),
            None => None,
        }
    }

    /// How token vectors are collapsed: fixed for this engine's lifetime.
    pub fn pooling(&self) -> (r: PoolingStrategy)
        ensures
            r == self.pooling_spec(),
    {
        self.pooling
    }

    /// Width of every embedding vector this engine produces.
    pub fn dimension(&self) -> (r: usize)
        ensures
            r == HIDDEN_SIZE,
    {
        HIDDEN_SIZE
    }

    /// Longest token sequence a batch row can hold; longer ones are truncated.
    pub fn max_sequence_length(&self) -> (r: usize)
        ensures
            r == MAX_SEQUENCE_LENGTH,
    {
        MAX_SEQUENCE_LENGTH
    }

    /// The integer half of one embed call: tokenize every text and lay the
    /// sequences into one padded batch. An empty input short-circuits to an
    /// empty batch before either collaborator is consulted. A non-empty input
    /// on an unloaded engine fails with NotLoaded; on a ready engine the only
    /// failures left are the tokenizer's own answer and a shape mismatch
    /// among its outputs — and only then do those two arise. Success beyond
    /// that cannot be promised: the tokenizer decides it, and its output is
    /// not a function of its inputs alone (see `encode_texts`); what the
    /// batch must then be, for every output it can give, is `build_batch`'s
    /// exact contract.
    pub fn tokenize_and_batch(&self, texts: &Vec<String>) -> (r: Result<Batch, EmbeddingError>)
        ensures
            texts@.len() == 0 ==> (r matches Ok(b) && b.batch_size == 0),
            !self.ready() && texts@.len() > 0 ==> (r matches Err(e) && e is NotLoaded),
            self.ready() ==> !(r matches Err(e) && e is NotLoaded),
            r matches Err(e) ==> (e is NotLoaded || e is TokenizationFailure
                || e is ShapeMismatch),
            (r matches Err(e) && e is TokenizationFailure) ==> self.ready() && texts@.len() > 0,
            (r matches Err(e) && e is ShapeMismatch) ==> self.ready() && texts@.len() > 0,
            r matches Ok(b) ==> {
                &&& b.wf()
                &&& b.batch_size == texts@.len()
                &&& b.max_len <= MAX_SEQUENCE_LENGTH
                &&& exists|seqs: Seq<TokenSequence>|
                    {
                        &&& seqs.len() == texts@.len()
                        &&& #[trigger] batch_of(b, seqs, MAX_SEQUENCE_LENGTH as nat)
                        &&& forall|k: int| 0 <= k < seqs.len() ==> (#[trigger] seqs[k]).wf()
                    }
            },
    {
        if texts.len() == 0 {
            let empty: Vec<TokenSequence> = Vec::new();
            let r = build_batch(&empty, MAX_SEQUENCE_LENGTH);
            proof {
                if r is Ok {
                    let b = r->Ok_0;
                    assert(batch_of(b, empty@, MAX_SEQUENCE_LENGTH as nat));
                }
            }
            return r;
        }
        if self.model.is_none() {
            return Err(EmbeddingError::NotLoaded);
        }
        let tokenizer = match &self.tokenizer {
            Some(t) => t,
            None => {
                return Err(EmbeddingError::NotLoaded);
            },
        };
        match encode_texts(tokenizer, texts) {
            Ok(seqs) => {
                let r = build_batch(&seqs, MAX_SEQUENCE_LENGTH);
                proof {
                    if r is Ok {
                        let b = r->Ok_0;
                        assert(batch_of(b, seqs@, MAX_SEQUENCE_LENGTH as nat));
                    }
                }
                r
            },
            Err(e) => Err(e),
        }
    }
}

impl Default for EmbeddingEngine {
    /// Same as a fresh engine: unloaded, mean pooling.
    fn default() -> (r: Self)
        ensures
            !r.ready(),
            r.pooling_spec() == PoolingStrategy::Mean,
    {
        EmbeddingEngine::new()
    }
}

} // verus!
