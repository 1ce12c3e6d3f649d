use vstd::prelude::*;
use vstd::string::StringSliceAdditionalSpecFns;
use vstd::utf8::{decode_utf8, encode_utf8, is_char_boundary};
use crate::wiki_parser::{MediaWiki, article_text, get_article_text};

verus! {

/// Longest text, in UTF-8 bytes, that is embedded for one document.
pub const MAX_TEXT_LEN: usize = 512;

/// The largest character boundary of `b` that is at most `max` bytes in.
pub open spec fn cut_len(b: Seq<u8>, max: int) -> int
    decreases max,
{
    if max <= 0 {
        0
    } else if max >= b.len() {
        b.len() as int
    } else if is_char_boundary(b, max) {
        max
    } else {
        cut_len(b, max - 1)
    }
}

/// A cut lies within the bytes, and not past `max`.
pub proof fn lemma_cut_len_bounds(b: Seq<u8>, max: int)
    ensures
        0 <= cut_len(b, max) <= b.len(),
        max >= 0 ==> cut_len(b, max) <= max,
    decreases max,
{
    if max > 0 && max < b.len() && !is_char_boundary(b, max) {
        lemma_cut_len_bounds(b, max - 1);
    }
}

/// The longest prefix of `s` whose UTF-8 encoding has at most `max` bytes;
/// all of `s` when it is no longer. A cut that would fall inside a character
/// falls before it.
pub open spec fn truncated(s: Seq<char>, max: nat) -> Seq<char> {
    decode_utf8(encode_utf8(s).subrange(0, cut_len(encode_utf8(s), max as int)))
}

/// A document of the corpus, its text already extracted.
#[derive(Debug, Clone)]
pub struct Document {
    pub id: String,
    pub title: String,
    pub text: String,
}

/// Why one document was not indexed.
#[derive(Debug, Clone)]
pub enum IndexFailure {
    /// Its source could not be read.
    Read(String),
    /// Its source is not a MediaWiki export.
    Parse(String),
    /// The export holds no article text.
    MissingContent,
    /// The encoder failed on its text.
    Encoding(String),
    /// The vector store refused the point.
    Store(String),
    /// Its task ended without an outcome (it panicked or was cancelled).
    Aborted(String),
}

/// Where one document stands in its indexing.
#[derive(Debug, Clone)]
pub enum Stage {
    Discovered,
    /// Its text, already cut to the maximum length.
    Truncated(String),
    /// Its text has been embedded.
    Embedded(String),
    Upserted,
    Failed(IndexFailure),
}

/// The outside work a document's task does next.
#[derive(Debug, Clone)]
pub enum Action {
    /// Read and parse the source, then report `Event::Extracted`.
    Extract,
    /// Embed this text, then report `Event::Embedded`.
    Embed(String),
    /// Store the embedded text, then report `Event::Upserted`.
    Upsert(String),
    /// Nothing is left to do.
    Finish,
}

/// What the outside work reported.
#[derive(Debug, Clone)]
pub enum Event {
    /// The parser's article text, if the source had one.
    Extracted(Option<String>),
    Embedded,
    Upserted,
    Failed(IndexFailure),
}

/// Whether a stage is terminal.
pub open spec fn is_terminal(s: Stage) -> bool {
    s is Upserted || s is Failed
}

/// The first `max_len` bytes of `text`, cut back to the last character
/// boundary; a text no longer is kept whole.
pub fn truncate_text(text: &str, max_len: usize) -> (r: String)
    ensures
        r@ == truncated(text@, max_len as nat),
        encode_utf8(r@) == encode_utf8(text@).subrange(
            0,
            cut_len(encode_utf8(text@), max_len as int),
        ),
        encode_utf8(text@).len() <= max_len ==> r@ == text@,
{
    broadcast use vstd::utf8::encode_utf8_valid_utf8, vstd::utf8::encode_utf8_decode_utf8;

    let ghost b = encode_utf8(text@);
    proof {
        lemma_cut_len_bounds(b, max_len as int);
        vstd::utf8::encode_utf8_valid_utf8(text@);
    }
    assert(text.spec_bytes() == b);
    let n = text.as_bytes().len();
    assert(n as int == b.len());
    if n <= max_len {
        assert(cut_len(b, max_len as int) == b.len());
        assert(b.subrange(0, b.len() as int) =~= b);
        return text.to_owned();
    }
    let mut k: usize = max_len;
    while k > 0 && !text.is_char_boundary(k)
        invariant
            k <= max_len < b.len(),
            text.spec_bytes() == b,
            vstd::utf8::valid_utf8(b),
            cut_len(b, k as int) == cut_len(b, max_len as int),
        decreases k,
    {
        assert(!is_char_boundary(b, k as int));
        assert(cut_len(b, k as int) == cut_len(b, k - 1));
        k = k - 1;
    }
    assert(cut_len(b, k as int) == k);
    let (head, _) = text.split_at(k);
    let r = head.to_owned();
    assert(encode_utf8(r@) =~= b.subrange(0, k as int));
    r
}

/// The document that an export yields: its first page's title and its
/// article text cut to at most `max_len` bytes.
pub fn prepare_document(id: &str, mw: &MediaWiki, max_len: usize) -> (r: Result<
    Document,
    IndexFailure,
>)
    ensures
        r is Err <==> article_text(*mw) is None,
        r is Err ==> r matches Err(IndexFailure::MissingContent),
        r matches Ok(d) ==> {
            &&& d.id@ == id@
            &&& d.title@ == mw.pages@[0].title@
            &&& d.text@ == truncated(article_text(*mw)->Some_0, max_len as nat)
        },
{
    match get_article_text(mw) {
        None => Err(IndexFailure::MissingContent),
        Some(t) => Ok(
            Document {
                id: id.to_owned(),
                title: mw.pages[0].title.clone(),
                text: truncate_text(t.as_str(), max_len),
            },
        ),
    }
}

/// The outside work that a stage calls for.
pub fn next_action(stage: &Stage) -> (r: Action)
    ensures
        stage is Discovered ==> r is Extract,
        stage matches Stage::Truncated(t) ==> r matches Action::Embed(u) && u@ == t@,
        stage matches Stage::Embedded(t) ==> r matches Action::Upsert(u) && u@ == t@,
        is_terminal(*stage) ==> r is Finish,
{
    match stage {
        Stage::Discovered => Action::Extract,
        Stage::Truncated(t) => Action::Embed(t.clone()),
        Stage::Embedded(t) => Action::Upsert(t.clone()),
        Stage::Upserted => Action::Finish,
        Stage::Failed(_) => Action::Finish,
    }
}

/// The stage after `event`: extraction leads to the truncated text (or to
/// `MissingContent`), embedding and storing each move one stage on, and a
/// failure ends a document wherever it stands. A terminal stage, and an
/// event that does not belong to the stage, leave it unchanged.
pub fn on_event(stage: Stage, event: Event, max_len: usize) -> (r: Stage)
    ensures
        is_terminal(stage) ==> r == stage,
        !is_terminal(stage) && event is Failed ==> r == Stage::Failed(event->Failed_0),
        (stage is Discovered && event is Extracted && event->Extracted_0 is Some) ==> (r is Truncated
            && r->Truncated_0@ == truncated(event->Extracted_0->Some_0@, max_len as nat)),
        (stage is Discovered && event is Extracted && event->Extracted_0 is None) ==> (r is Failed
            && r->Failed_0 is MissingContent),
        (stage is Truncated && event is Embedded) ==> r == Stage::Embedded(stage->Truncated_0),
        stage is Embedded && event is Upserted ==> r is Upserted,
        !is_terminal(stage) && !(event is Failed) && !(stage is Discovered && event is Extracted)
            && !(stage is Truncated && event is Embedded) && !(stage is Embedded
            && event is Upserted) ==> r == stage,
{
    match (stage, event) {
        (Stage::Upserted, _) => Stage::Upserted,
        (Stage::Failed(f), _) => Stage::Failed(f),
        (_, Event::Failed(f)) => Stage::Failed(f),
        (Stage::Discovered, Event::Extracted(Some(t))) => Stage::Truncated(
            truncate_text(t.as_str(), max_len),
        ),
        (Stage::Discovered, Event::Extracted(None)) => Stage::Failed(IndexFailure::MissingContent),
        (Stage::Truncated(t), Event::Embedded) => Stage::Embedded(t),
        (Stage::Embedded(_), Event::Upserted) => Stage::Upserted,
        (s, _) => s,
    }
}

/// How one document's indexing ended.
#[derive(Debug)]
pub struct DocOutcome {
    pub id: String,
    pub result: Result<(), IndexFailure>,
}

/// The outcome of every document of one indexing run, in the order recorded.
#[derive(Debug)]
pub struct IndexReport {
    pub outcomes: Vec<DocOutcome>,
}

/// How many of `s` failed.
pub open spec fn failed_count(s: Seq<DocOutcome>) -> nat
    decreases s.len(),
{
    if s.len() == 0 {
        0
    } else {
        failed_count(s.drop_last()) + if s.last().result is Err {
            1nat
        } else {
            0nat
        }
    }
}

/// The outcome of a document that has reached a terminal stage; none before.
pub fn outcome_of(id: &str, stage: Stage) -> (r: Option<DocOutcome>)
    ensures
        r is Some <==> is_terminal(stage),
        r matches Some(o) ==> o.id@ == id@,
        stage is Upserted ==> (r is Some && r->Some_0.result is Ok),
        stage is Failed ==> (r is Some && r->Some_0.result == Err::<(), IndexFailure>(
            stage->Failed_0,
        )),
{
    match stage {
        Stage::Upserted => Some(DocOutcome { id: id.to_owned(), result: Ok(()) }),
        Stage::Failed(f) => Some(DocOutcome { id: id.to_owned(), result: Err(f) }),
        _ => None,
    }
}

impl IndexReport {
    /// A report with no outcome yet.
    pub fn new() -> (r: Self)
        ensures
            r.outcomes@.len() == 0,
    {
        IndexReport { outcomes: Vec::new() }
    }

    /// Adds one document's outcome at the end.
    pub fn record(&mut self, outcome: DocOutcome)
        ensures
            final(self).outcomes@ == old(self).outcomes@.push(outcome),
    {
        self.outcomes.push(outcome);
    }

    /// How many documents failed.
    pub fn failures(&self) -> (r: usize)
        ensures
            r == failed_count(self.outcomes@),
    {
        let mut n: usize = 0;
        let mut i: usize = 0;
        assert(self.outcomes@.take(0) =~= Seq::<DocOutcome>::empty());
        while i < self.outcomes.len()
            invariant
                i <= self.outcomes@.len(),
                n == failed_count(self.outcomes@.take(i as int)),
                n <= i,
            decreases self.outcomes@.len() - i,
        {
            assert(self.outcomes@.take(i + 1).drop_last() =~= self.outcomes@.take(i as int));
            if self.outcomes[i].result.is_err() {
                n = n + 1;
            }
            i = i + 1;
        }
        assert(self.outcomes@.take(i as int) =~= self.outcomes@);
        n
    }

    /// How many documents were stored.
    pub fn successes(&self) -> (r: usize)
        ensures
            r == self.outcomes@.len() - failed_count(self.outcomes@),
    {
        proof {
            lemma_failed_count_bounded(self.outcomes@);
        }
        self.outcomes.len() - self.failures()
    }
}

/// At most every outcome failed.
pub proof fn lemma_failed_count_bounded(s: Seq<DocOutcome>)
    ensures
        failed_count(s) <= s.len(),
    decreases s.len(),
{
    if s.len() > 0 {
        lemma_failed_count_bounded(s.drop_last());
    }
}

} // verus!
