use candle_embeddings::engine::EmbeddingEngine;
use candle_embeddings::errors::EmbeddingError;
use candle_embeddings::PoolingStrategy;

#[test]
fn test_engine_creation() {
    let engine = EmbeddingEngine::new();
    assert!(!engine.is_ready());
    assert_eq!(engine.dimension(), 384);
}

#[test]
fn fresh_engine_reports_static_configuration() {
    let engine = EmbeddingEngine::new();
    assert_eq!(engine.max_sequence_length(), 256);
    assert_eq!(engine.pooling(), PoolingStrategy::Mean);
    assert_eq!(engine.dimension(), 384);
}

#[test]
fn default_engine_matches_fresh_engine() {
    let engine = EmbeddingEngine::default();
    assert!(!engine.is_ready());
    assert_eq!(engine.pooling(), PoolingStrategy::Mean);
}

#[test]
fn unloaded_engine_refuses_nonempty_batch() {
    let engine = EmbeddingEngine::new();
    let texts = vec!["hello".to_string()];
    match engine.tokenize_and_batch(&texts) {
        Err(EmbeddingError::NotLoaded) => {}
        _ => panic!("expected a not-loaded error"),
    }
}

#[test]
fn empty_batch_short_circuits_before_readiness_check() {
    // No tokenizer and no model exist at all, so an Ok result shows that
    // neither collaborator was consulted.
    let engine = EmbeddingEngine::new();
    let texts: Vec<String> = Vec::new();
    let b = engine.tokenize_and_batch(&texts).unwrap();
    assert_eq!(b.batch_size, 0);
    assert!(b.input_ids.is_empty());
}
