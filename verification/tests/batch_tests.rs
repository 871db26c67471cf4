use candle_embeddings::batch::{build_batch, flatten_grid, row_token_counts};
use candle_embeddings::errors::EmbeddingError;
use candle_embeddings::tokens::TokenSequence;

fn seq(ids: Vec<u32>, mask: Vec<u32>, types: Vec<u32>) -> TokenSequence {
    TokenSequence { ids, attention_mask: mask, type_ids: types }
}

fn well_formed(ids: Vec<u32>) -> TokenSequence {
    let mask = vec![1u32; ids.len()];
    let types = vec![0u32; ids.len()];
    seq(ids, mask, types)
}

#[test]
fn pads_rows_to_common_width() {
    let seqs = vec![well_formed(vec![5, 7]), well_formed(vec![9])];
    let b = build_batch(&seqs, 256).unwrap();
    assert_eq!(b.batch_size, 2);
    assert_eq!(b.max_len, 2);
    assert_eq!(b.input_ids, vec![vec![5i64, 7], vec![9i64, 0]]);
    assert_eq!(b.attention_mask, vec![vec![1i64, 1], vec![1i64, 0]]);
    assert_eq!(b.token_type_ids, vec![vec![0i64, 0], vec![0i64, 0]]);
}

#[test]
fn truncates_to_cap_before_padding() {
    let seqs = vec![well_formed(vec![1, 2, 3, 4, 5]), well_formed(vec![8])];
    let b = build_batch(&seqs, 3).unwrap();
    assert_eq!(b.max_len, 3);
    assert_eq!(b.input_ids[0], vec![1i64, 2, 3]);
    assert_eq!(b.attention_mask[0], vec![1i64, 1, 1]);
    assert_eq!(b.input_ids[1], vec![8i64, 0, 0]);
}

#[test]
fn empty_batch_builds_empty_grids() {
    let seqs: Vec<TokenSequence> = Vec::new();
    let b = build_batch(&seqs, 256).unwrap();
    assert_eq!(b.batch_size, 0);
    assert_eq!(b.max_len, 0);
    assert!(b.input_ids.is_empty());
    assert!(b.attention_mask.is_empty());
    assert!(b.token_type_ids.is_empty());
}

#[test]
fn zero_token_text_becomes_all_padding_row() {
    let seqs = vec![well_formed(vec![]), well_formed(vec![3, 4])];
    let b = build_batch(&seqs, 256).unwrap();
    assert_eq!(b.max_len, 2);
    assert_eq!(b.input_ids[0], vec![0i64, 0]);
    assert_eq!(b.attention_mask[0], vec![0i64, 0]);
    let counts = row_token_counts(&b);
    assert_eq!(counts, vec![0, 2]);
}

#[test]
fn shape_mismatch_reports_first_offending_index() {
    let good = well_formed(vec![1, 2]);
    let bad = seq(vec![1, 2], vec![1], vec![0, 0]);
    let seqs = vec![good, bad];
    match build_batch(&seqs, 256) {
        Err(EmbeddingError::ShapeMismatch(i)) => assert_eq!(i, 1),
        _ => panic!("expected a shape mismatch"),
    }
}

#[test]
fn shape_mismatch_on_segment_ids_too() {
    let bad = seq(vec![1], vec![1], vec![0, 0]);
    let seqs = vec![bad];
    match build_batch(&seqs, 256) {
        Err(EmbeddingError::ShapeMismatch(i)) => assert_eq!(i, 0),
        _ => panic!("expected a shape mismatch"),
    }
}

#[test]
fn duplicate_sequences_fill_identical_rows() {
    let seqs = vec![
        well_formed(vec![4, 6, 8]),
        well_formed(vec![11]),
        well_formed(vec![4, 6, 8]),
    ];
    let b = build_batch(&seqs, 256).unwrap();
    assert_eq!(b.input_ids[0], b.input_ids[2]);
    assert_eq!(b.attention_mask[0], b.attention_mask[2]);
    assert_eq!(b.token_type_ids[0], b.token_type_ids[2]);
}

#[test]
fn row_content_unchanged_by_longer_companion() {
    let alone = vec![well_formed(vec![4, 6])];
    let together = vec![well_formed(vec![4, 6]), well_formed(vec![1, 2, 3, 4])];
    let b1 = build_batch(&alone, 256).unwrap();
    let b2 = build_batch(&together, 256).unwrap();
    assert_eq!(b1.max_len, 2);
    assert_eq!(b2.max_len, 4);
    // The real-token region is identical; the tail is padding only.
    assert_eq!(&b2.input_ids[0][..2], &b1.input_ids[0][..]);
    assert_eq!(&b2.attention_mask[0][..2], &b1.attention_mask[0][..]);
    assert_eq!(&b2.input_ids[0][2..], &[0i64, 0]);
    assert_eq!(&b2.attention_mask[0][2..], &[0i64, 0]);
    let c1 = row_token_counts(&b1);
    let c2 = row_token_counts(&b2);
    assert_eq!(c1[0], c2[0]);
}

#[test]
fn flatten_is_row_major() {
    let seqs = vec![well_formed(vec![5, 7]), well_formed(vec![9])];
    let b = build_batch(&seqs, 256).unwrap();
    assert_eq!(flatten_grid(&b.input_ids), vec![5i64, 7, 9, 0]);
    assert_eq!(flatten_grid(&b.attention_mask), vec![1i64, 1, 1, 0]);
    let empty: Vec<Vec<i64>> = Vec::new();
    assert_eq!(flatten_grid(&empty), Vec::<i64>::new());
}

#[test]
fn mask_counts_count_only_real_tokens() {
    let seqs = vec![
        seq(vec![1, 2, 3], vec![1, 0, 1], vec![0, 0, 0]),
        well_formed(vec![7, 8, 9]),
    ];
    let b = build_batch(&seqs, 256).unwrap();
    let counts = row_token_counts(&b);
    assert_eq!(counts, vec![2, 3]);
}
