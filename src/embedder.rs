use vstd::prelude::*;

verus! {

/// The tokenizer of the `tokenizers` crate, carried through unopened.
#[verifier::external_type_specification]
#[verifier::external_body]
pub struct ExTokenizer(tokenizers::Tokenizer);

/// A tokenized batch, ready for the encoder: every row has the same width,
/// and the first `real_lens[i]` positions of row `i` are its real tokens,
/// the rest padding.
#[derive(Debug, Clone)]
pub struct TokenBatch {
    pub ids: Vec<Vec<u32>>,
    pub real_lens: Vec<usize>,
    pub width: usize,
}

/// Why a batch could not be tokenized.
#[derive(Debug, Clone)]
pub enum EncodeError {
    /// The tokenizer refused an input.
    Tokenizer(String),
    /// Ids and attention masks differ in number or length, or rows differ in width.
    Ragged,
    /// An attention mask is not real tokens followed by padding.
    UnsupportedPadding,
}

/// A mask of `k` ones followed only by zeros.
pub open spec fn right_padded(m: Seq<u32>, k: int) -> bool {
    &&& 0 <= k <= m.len()
    &&& forall|i: int| 0 <= i < k ==> m[i] == 1
    &&& forall|i: int| k <= i < m.len() ==> m[i] == 0
}

/// A mask of some number of ones followed only by zeros.
pub open spec fn has_real_prefix(m: Seq<u32>) -> bool {
    exists|k: int| right_padded(m, k)
}

/// Whether ids and masks line up: one mask per row, each as long as its
/// row, and every row as wide as the first.
pub open spec fn same_shape(ids: Seq<Vec<u32>>, masks: Seq<Vec<u32>>) -> bool {
    &&& ids.len() == masks.len()
    &&& forall|i: int| 0 <= i < ids.len() ==> #[trigger] ids[i]@.len() == masks[i]@.len()
    &&& forall|i: int| 0 <= i < ids.len() ==> #[trigger] ids[i]@.len() == ids[0]@.len()
}

/// Whether every mask is real tokens followed by padding.
pub open spec fn all_right_padded(masks: Seq<Vec<u32>>) -> bool {
    forall|i: int| 0 <= i < masks.len() ==> has_real_prefix(#[trigger] masks[i]@)
}

/// Whether a tokenizer's output is a batch this library pools: one row per
/// input, rows of one width, each mask right-padded.
pub open spec fn well_shaped(ids: Seq<Vec<u32>>, masks: Seq<Vec<u32>>) -> bool {
    same_shape(ids, masks) && all_right_padded(masks)
}

/// Relies on `tokenizers::Tokenizer::encode_batch` (special tokens added):
/// one encoding per input, in input order; of each, its ids and its attention
/// mask. No input encodes, and pads, without error.
#[verifier::external_body]
fn encode_batch(tok: &tokenizers::Tokenizer, texts: &Vec<String>) -> (r: Result<
    (Vec<Vec<u32>>, Vec<Vec<u32>>),
    String,
>)
    ensures
        texts@.len() == 0 ==> r is Ok,
        r matches Ok((ids, masks)) ==> ids@.len() == texts@.len() && masks@.len() == texts@.len(),
{
    let inputs: Vec<&str> = texts.iter().map(|s| s.as_str()).collect();
    match tok.encode_batch(inputs, true) {
        Ok(encs) => Ok((
            encs.iter().map(|e| e.get_ids().to_vec()).collect(),
            encs.iter().map(|e| e.get_attention_mask().to_vec()).collect(),
        )),
        Err(e) => Err(e.to_string()),
    }
}

/// The number of real tokens of a right-padded mask, or `None` if the mask
/// is not right-padded.
pub fn real_token_count(mask: &Vec<u32>) -> (r: Option<usize>)
    ensures
        r matches Some(k) ==> right_padded(mask@, k as int),
        r is None ==> forall|k: int| !right_padded(mask@, k),
{
    let mut k: usize = 0;
    while k < mask.len() && mask[k] == 1
        invariant
            k <= mask@.len(),
            forall|i: int| 0 <= i < k ==> mask@[i] == 1,
        decreases mask@.len() - k,
    {
        k = k + 1;
    }
    let mut j: usize = k;
    while j < mask.len()
        invariant
            k <= j <= mask@.len(),
            k < mask@.len() ==> mask@[k as int] != 1,
            forall|i: int| k <= i < j ==> mask@[i] == 0,
        decreases mask@.len() - j,
    {
        if mask[j] != 0 {
            assert forall|m: int| !right_padded(mask@, m) by {
                if right_padded(mask@, m) {
                    if m <= k {
                        assert(mask@[j as int] == 0 || (j as int) < m);
                    } else {
                        assert(mask@[k as int] == 1);
                    }
                }
            }
            return None;
        }
        j = j + 1;
    }
    Some(k)
}

/// Checks a tokenizer's output and finds each row's real length: `Ragged`
/// when the rows do not line up, `UnsupportedPadding` when they do but a
/// mask is not right-padded.
pub fn shape_batch(ids: Vec<Vec<u32>>, masks: &Vec<Vec<u32>>) -> (r: Result<TokenBatch, EncodeError>)
    ensures
        r is Ok <==> well_shaped(ids@, masks@),
        (r is Err && r->Err_0 is Ragged) <==> !same_shape(ids@, masks@),
        (r is Err && r->Err_0 is UnsupportedPadding) <==> (same_shape(ids@, masks@)
            && !all_right_padded(masks@)),
        !(r is Err && r->Err_0 is Tokenizer),
        r matches Ok(b) ==> {
            &&& b.ids@ == ids@
            &&& b.real_lens@.len() == ids@.len()
            &&& forall|i: int|
                0 <= i < ids@.len() ==> right_padded(masks@[i]@, #[trigger] b.real_lens@[i] as int)
            &&& forall|i: int| 0 <= i < ids@.len() ==> #[trigger] ids@[i]@.len() == b.width
            &&& ids@.len() == 0 ==> b.width == 0
        },
{
    if ids.len() != masks.len() {
        return Err(EncodeError::Ragged);
    }
    let width: usize = if ids.len() == 0 { 0 } else { ids[0].len() };
    let mut i: usize = 0;
    while i < ids.len()
        invariant
            i <= ids@.len(),
            ids@.len() == masks@.len(),
            ids@.len() > 0 ==> width == ids@[0]@.len(),
            forall|m: int| 0 <= m < i ==> #[trigger] ids@[m]@.len() == masks@[m]@.len(),
            forall|m: int| 0 <= m < i ==> #[trigger] ids@[m]@.len() == width,
        decreases ids@.len() - i,
    {
        if ids[i].len() != masks[i].len() || ids[i].len() != width {
            return Err(EncodeError::Ragged);
        }
        i = i + 1;
    }
    assert(same_shape(ids@, masks@)) by {
        assert forall|m: int| 0 <= m < ids@.len() implies #[trigger] ids@[m]@.len()
            == ids@[0]@.len() by {
            assert(ids@[m]@.len() == width);
        }
    }
    let mut real_lens: Vec<usize> = Vec::new();
    let mut i: usize = 0;
    while i < masks.len()
        invariant
            i <= masks@.len(),
            ids@.len() == masks@.len(),
            same_shape(ids@, masks@),
            ids@.len() > 0 ==> width == ids@[0]@.len(),
            ids@.len() == 0 ==> width == 0,
            real_lens@.len() == i,
            forall|m: int| 0 <= m < i ==> right_padded(masks@[m]@, #[trigger] real_lens@[m] as int),
        decreases masks@.len() - i,
    {
        match real_token_count(&masks[i]) {
            Some(k) => real_lens.push(k),
            None => {
                assert(!has_real_prefix(masks@[i as int]@));
                return Err(EncodeError::UnsupportedPadding);
            },
        }
        i = i + 1;
    }
    assert(all_right_padded(masks@)) by {
        assert forall|m: int| 0 <= m < masks@.len() implies has_real_prefix(
            #[trigger] masks@[m]@,
        ) by {
            assert(right_padded(masks@[m]@, real_lens@[m] as int));
        }
    }
    Ok(TokenBatch { ids, real_lens, width })
}

/// Tokenizes `texts` as one padded batch, for pooling over real tokens only.
pub fn tokenize_batch(tok: &tokenizers::Tokenizer, texts: &Vec<String>) -> (r: Result<
    TokenBatch,
    EncodeError,
>)
    ensures
        texts@.len() == 0 ==> r is Ok,
        r matches Ok(b) ==> b.ids@.len() == texts@.len() && b.real_lens@.len() == texts@.len()
            && forall|i: int|
            0 <= i < texts@.len() ==> #[trigger] b.real_lens@[i] <= b.width && b.ids@[i]@.len()
            == b.width,
{
    match encode_batch(tok, texts) {
        Err(e) => Err(EncodeError::Tokenizer(e)),
        Ok((ids, masks)) => {
            let r = shape_batch(ids, &masks);
            proof {
                if r is Ok {
                    let b = r->Ok_0;
                    assert forall|i: int| 0 <= i < texts@.len() implies #[trigger] b.real_lens@[i]
                        <= b.width && b.ids@[i]@.len() == b.width by {
                        assert(right_padded(masks@[i]@, b.real_lens@[i] as int));
                        assert(ids@[i]@.len() == masks@[i]@.len());
                        assert(ids@[i]@.len() == b.width);
                    }
                }
            }
            r
        },
    }
}

} // verus!
