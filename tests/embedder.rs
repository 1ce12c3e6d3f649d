use std::str::FromStr;
use tokenizers::{PaddingParams, Tokenizer};
use wiki_search::embedder::{real_token_count, shape_batch, tokenize_batch, EncodeError};

const TOKENIZER_JSON: &str = r#"{
  "version": "1.0",
  "truncation": null,
  "padding": null,
  "added_tokens": [],
  "normalizer": null,
  "pre_tokenizer": {"type": "Whitespace"},
  "post_processor": null,
  "decoder": null,
  "model": {
    "type": "WordLevel",
    "vocab": {"[PAD]": 0, "[UNK]": 1, "five": 2, "roses": 3, "in": 4, "a": 5, "house": 6},
    "unk_token": "[UNK]"
  }
}"#;

fn tokenizer() -> Tokenizer {
    let mut tok = Tokenizer::from_str(TOKENIZER_JSON).unwrap();
    tok.with_padding(Some(PaddingParams::default()));
    tok
}

#[test]
fn real_tokens_of_a_mask() {
    assert_eq!(real_token_count(&vec![1, 1, 1, 0, 0]), Some(3));
    assert_eq!(real_token_count(&vec![]), Some(0));
    assert_eq!(real_token_count(&vec![0, 0]), Some(0));
    assert_eq!(real_token_count(&vec![1, 1]), Some(2));
    assert_eq!(real_token_count(&vec![1, 0, 1]), None);
    assert_eq!(real_token_count(&vec![0, 1]), None);
}

#[test]
fn shape_rejects_ragged_rows() {
    let r = shape_batch(vec![vec![1, 2], vec![3]], &vec![vec![1, 1], vec![1]]);
    assert!(matches!(r, Err(EncodeError::Ragged)));
    let r = shape_batch(vec![vec![1, 2]], &vec![vec![1]]);
    assert!(matches!(r, Err(EncodeError::Ragged)));
}

#[test]
fn shape_rejects_left_padding() {
    let r = shape_batch(vec![vec![0, 2]], &vec![vec![0, 1]]);
    assert!(matches!(r, Err(EncodeError::UnsupportedPadding)));
}

#[test]
fn shape_finds_real_lengths() {
    let b = shape_batch(vec![vec![2, 3, 4], vec![5, 0, 0]], &vec![vec![1, 1, 1], vec![1, 0, 0]])
        .unwrap();
    assert_eq!(b.real_lens, vec![3, 1]);
    assert_eq!(b.width, 3);
    assert_eq!(b.ids, vec![vec![2, 3, 4], vec![5, 0, 0]]);
}

#[test]
fn batch_is_padded_and_masked() {
    let tok = tokenizer();
    let texts = vec![String::from("five roses in a house"), String::from("roses")];
    let b = tokenize_batch(&tok, &texts).unwrap();
    assert_eq!(b.width, 5);
    assert_eq!(b.real_lens, vec![5, 1]);
    assert_eq!(b.ids[0], vec![2, 3, 4, 5, 6]);
    assert_eq!(b.ids[1], vec![3, 0, 0, 0, 0]);
}

#[test]
fn singleton_batch_has_no_padding() {
    let tok = tokenizer();
    let b = tokenize_batch(&tok, &vec![String::from("five roses")]).unwrap();
    assert_eq!(b.width, 2);
    assert_eq!(b.real_lens, vec![2]);
}

#[test]
fn shape_rejects_missing_masks() {
    let r = shape_batch(vec![vec![1], vec![2]], &vec![vec![1]]);
    assert!(matches!(r, Err(EncodeError::Ragged)));
}

#[test]
fn ragged_wins_over_padding() {
    let r = shape_batch(vec![vec![1, 2], vec![3]], &vec![vec![0, 1], vec![1]]);
    assert!(matches!(r, Err(EncodeError::Ragged)));
}

#[test]
fn empty_batch_has_width_zero() {
    let b = shape_batch(vec![], &vec![]).unwrap();
    assert_eq!(b.width, 0);
    assert!(b.real_lens.is_empty());
    let b = tokenize_batch(&tokenizer(), &vec![]).unwrap();
    assert_eq!(b.width, 0);
}
