use vstd::prelude::*;

verus! {

/// Length of the embedding vectors that the encoder produces.
pub const EMBEDDING_DIM: u64 = 384;

/// Number of neighbours a search asks for by default.
pub const DEFAULT_TOP_K: u64 = 3;

/// Payload key under which a point carries its original text.
pub open spec fn message_key() -> Seq<char> {
    "message"@
}

/// Distance metric of a collection.
#[derive(Debug, Clone, Copy, PartialEq, Eq, Structural)]
pub enum Distance {
    Cosine,
    Euclid,
    Dot,
    Manhattan,
}

/// Schema of the one collection the store manages.
#[derive(Debug, Clone)]
pub struct CollectionConfig {
    pub name: String,
    pub dimension: u64,
    pub distance: Distance,
    pub scalar_quantization: bool,
}

impl CollectionConfig {
    /// A collection of the given name with the encoder's dimension, cosine
    /// distance and scalar quantization.
    pub fn named(name: String) -> (r: Self)
        ensures
            r.name == name,
            r.dimension == EMBEDDING_DIM,
            r.distance == Distance::Cosine,
            r.scalar_quantization,
    {
        CollectionConfig {
            name,
            dimension: EMBEDDING_DIM,
            distance: Distance::Cosine,
            scalar_quantization: true,
        }
    }

    /// The default collection, `wikitext`.
    pub fn wikitext() -> (r: Self)
        ensures
            r.name@ == "wikitext"@,
            r.dimension == EMBEDDING_DIM,
            r.distance == Distance::Cosine,
            r.scalar_quantization,
    {
        Self::named("wikitext".to_owned())
    }
}

/// A value stored in a point's payload.
#[derive(Debug, Clone)]
pub enum PayloadValue {
    Text(String),
    Integer(i64),
    Boolean(bool),
    Null,
    Other,
}

/// One point returned by a search, in the order the store ranked it.
#[derive(Debug, Clone)]
pub struct Hit {
    pub id: String,
    pub payload: Vec<(String, PayloadValue)>,
}

/// A point ready to be stored once its vector is attached.
#[derive(Debug, Clone)]
pub struct PendingPoint {
    pub id: String,
    pub payload: Vec<(String, PayloadValue)>,
}

/// What a search asks of the store.
#[derive(Debug, Clone)]
pub struct SearchRequest {
    pub collection: String,
    pub limit: u64,
    pub exact: bool,
    pub with_payload: bool,
}

/// Failures of a search that the store itself did not report.
#[derive(Debug, Clone, Copy, PartialEq, Eq, Structural)]
pub enum SearchError {
    /// No point matched.
    NoMatch,
    /// The best match has no `message` in its payload.
    MissingMessage,
    /// The best match's `message` is not text.
    InvalidMessage,
}

/// Failures the library detects before anything is sent to the store.
#[derive(Debug, Clone, Copy, PartialEq, Eq, Structural)]
pub enum StoreError {
    /// Two freshly drawn point ids were equal.
    IdCollision,
    /// The number of ids differs from the number of points.
    IdCountMismatch { expected: u64, found: u64 },
    /// A vector's length differs from the collection's dimension.
    DimensionMismatch { expected: u64, found: u64 },
}

/// The value under `key` in a payload: the first entry with that key. A
/// stored payload is a map, so its keys are unique; where a list repeats a
/// key, the first entry is the one that counts, here and when it is stored.
pub open spec fn lookup(p: Seq<(String, PayloadValue)>, key: Seq<char>) -> Option<PayloadValue>
    decreases p.len(),
{
    if p.len() == 0 {
        None
    } else if p[0].0@ == key {
        Some(p[0].1)
    } else {
        lookup(p.skip(1), key)
    }
}

/// A payload that holds exactly the text `t` under `message`.
pub open spec fn is_message_payload(p: Seq<(String, PayloadValue)>, t: Seq<char>) -> bool {
    &&& p.len() == 1
    &&& p[0].0@ == message_key()
    &&& p[0].1 is Text
    &&& p[0].1->Text_0@ == t
}

/// The message of the best of `hits`, or why there is none.
pub open spec fn best_message_of(hits: Seq<Hit>) -> Result<Seq<char>, SearchError> {
    if hits.len() == 0 {
        Err(SearchError::NoMatch)
    } else {
        match lookup(hits[0].payload@, message_key()) {
            None => Err(SearchError::MissingMessage),
            Some(PayloadValue::Text(s)) => Ok(s@),
            Some(_) => Err(SearchError::InvalidMessage),
        }
    }
}

/// The characters of a result's text, its error kept.
pub open spec fn result_chars<E>(r: Result<String, E>) -> Result<Seq<char>, E> {
    match r {
        Ok(s) => Ok(s@),
        Err(e) => Err(e),
    }
}

/// Whether the strings of `ids` are pairwise different.
pub open spec fn all_distinct(ids: Seq<String>) -> bool {
    forall|i: int, j: int| 0 <= i < j < ids.len() ==> ids[i]@ != ids[j]@
}

/// The value under `key` in `p`, if any.
pub fn payload_get<'a>(p: &'a Vec<(String, PayloadValue)>, key: &String) -> (r: Option<
    &'a PayloadValue,
>)
    ensures
        match r {
            Some(v) => lookup(p@, key@) == Some(*v),
            None => lookup(p@, key@) is None,
        },
{
    let mut i: usize = 0;
    assert(p@.skip(0) =~= p@);
    while i < p.len()
        invariant
            i <= p@.len(),
            lookup(p@, key@) == lookup(p@.skip(i as int), key@),
        decreases p@.len() - i,
    {
        assert(p@.skip(i as int).skip(1) =~= p@.skip(i + 1));
        if p[i].0 == *key {
            return Some(&p[i].1);
        }
        i = i + 1;
    }
    None
}

/// The text stored with the best of `hits`, which come best first.
pub fn best_message(hits: &Vec<Hit>) -> (r: Result<String, SearchError>)
    ensures
        result_chars(r) == best_message_of(hits@),
{
    if hits.len() == 0 {
        return Err(SearchError::NoMatch);
    }
    let key = "message".to_owned();
    match payload_get(&hits[0].payload, &key) {
        None => Err(SearchError::MissingMessage),
        Some(PayloadValue::Text(s)) => Ok(s.clone()),
        Some(_) => Err(SearchError::InvalidMessage),
    }
}

/// The payload that carries `text` as a point's message.
pub fn message_payload(text: &str) -> (r: Vec<(String, PayloadValue)>)
    ensures
        is_message_payload(r@, text@),
{
    let mut r = Vec::new();
    r.push(("message".to_owned(), PayloadValue::Text(text.to_owned())));
    r
}

/// Checks a vector's length against the collection's dimension.
pub fn check_dimension(config: &CollectionConfig, len: usize) -> (r: Result<(), StoreError>)
    ensures
        r is Ok <==> len == config.dimension,
        r is Err ==> r == Err::<(), StoreError>(
            StoreError::DimensionMismatch { expected: config.dimension, found: len as u64 },
        ),
{
    if len as u64 == config.dimension {
        Ok(())
    } else {
        Err(StoreError::DimensionMismatch { expected: config.dimension, found: len as u64 })
    }
}

/// An approximate search of the collection for `k` neighbours, payloads included.
pub fn search_request(config: &CollectionConfig, k: u64) -> (r: SearchRequest)
    ensures
        r.collection == config.name,
        r.limit == k,
        !r.exact,
        r.with_payload,
{
    SearchRequest { collection: config.name.clone(), limit: k, exact: false, with_payload: true }
}

/// A lower-case hexadecimal digit.
pub open spec fn is_lower_hex(c: char) -> bool {
    ('0' <= c && c <= '9') || ('a' <= c && c <= 'f')
}

/// The hyphenated text of a random (version 4, RFC 4122 variant) UUID:
/// 36 characters, hyphens at 8, 13, 18 and 23, lower-case hex digits
/// elsewhere, the version digit `4` at 14 and a variant digit of `8`, `9`,
/// `a` or `b` at 19.
pub open spec fn is_uuid_v4_text(s: Seq<char>) -> bool {
    &&& s.len() == 36
    &&& forall|i: int|
        0 <= i < 36 ==> if i == 8 || i == 13 || i == 18 || i == 23 {
            s[i] == '-'
        } else {
            is_lower_hex(#[trigger] s[i])
        }
    &&& s[14] == '4'
    &&& (s[19] == '8' || s[19] == '9' || s[19] == 'a' || s[19] == 'b')
}

/// Relies on `uuid::Uuid::new_v4` and its `Display`: a random version-4 id,
/// written in the lower-case hyphenated form.
#[verifier::external_body]
fn random_uuid() -> (r: String)
    ensures
        is_uuid_v4_text(r@),
{
    uuid::Uuid::new_v4().to_string()
}

/// Whether `id` equals one of `ids`.
fn contains_id(ids: &Vec<String>, id: &String) -> (r: bool)
    ensures
        r == exists|j: int| 0 <= j < ids@.len() && ids@[j]@ == id@,
{
    let mut j: usize = 0;
    while j < ids.len()
        invariant
            j <= ids@.len(),
            forall|k: int| 0 <= k < j ==> ids@[k]@ != id@,
        decreases ids@.len() - j,
    {
        if ids[j] == *id {
            return true;
        }
        j = j + 1;
    }
    false
}

/// The drawn ids, when they are pairwise different; `IdCollision` otherwise.
pub fn distinct_ids(draws: Vec<String>) -> (r: Result<Vec<String>, StoreError>)
    ensures
        r is Ok <==> all_distinct(draws@),
        r matches Ok(ids) ==> ids@ == draws@,
        r is Err ==> r == Err::<Vec<String>, StoreError>(StoreError::IdCollision),
{
    let mut seen: Vec<String> = Vec::new();
    let mut i: usize = 0;
    while i < draws.len()
        invariant
            i <= draws@.len(),
            seen@ == draws@.take(i as int),
            all_distinct(seen@),
        decreases draws@.len() - i,
    {
        if contains_id(&seen, &draws[i]) {
            assert(!all_distinct(draws@)) by {
                let j = choose|j: int| 0 <= j < seen@.len() && seen@[j]@ == draws@[i as int]@;
                assert(draws@[j] == seen@[j]);
            }
            return Err(StoreError::IdCollision);
        }
        seen.push(draws[i].clone());
        assert(seen@ =~= draws@.take(i + 1));
        i = i + 1;
    }
    assert(draws@.take(i as int) =~= draws@);
    Ok(draws)
}

/// `n` fresh random point ids, pairwise different; `IdCollision` if a draw
/// repeats an earlier one.
pub fn fresh_point_ids(n: usize) -> (r: Result<Vec<String>, StoreError>)
    ensures
        n <= 1 ==> r is Ok,
        r is Err ==> r == Err::<Vec<String>, StoreError>(StoreError::IdCollision),
        r matches Ok(ids) ==> ids@.len() == n && all_distinct(ids@) && forall|i: int|
            0 <= i < n ==> is_uuid_v4_text(#[trigger] ids@[i]@),
{
    let mut draws: Vec<String> = Vec::new();
    let mut i: usize = 0;
    while i < n
        invariant
            i <= n,
            draws@.len() == i,
            forall|k: int| 0 <= k < i ==> is_uuid_v4_text(#[trigger] draws@[k]@),
        decreases n - i,
    {
        draws.push(random_uuid());
        i = i + 1;
    }
    distinct_ids(draws)
}

/// A point for `text`, under a fresh id.
pub fn new_point(text: &str) -> (r: PendingPoint)
    ensures
        is_message_payload(r.payload@, text@),
        is_uuid_v4_text(r.id@),
{
    PendingPoint { id: random_uuid(), payload: message_payload(text) }
}

/// One point for each of `texts`, in order, the `i`-th under `ids[i]`: when
/// there are as many ids as texts and they are pairwise different.
pub fn points_with_ids(texts: &Vec<String>, ids: Vec<String>) -> (r: Result<
    Vec<PendingPoint>,
    StoreError,
>)
    ensures
        ids@.len() != texts@.len() ==> r == Err::<Vec<PendingPoint>, StoreError>(
            StoreError::IdCountMismatch { expected: texts@.len() as u64, found: ids@.len() as u64 },
        ),
        ids@.len() == texts@.len() && !all_distinct(ids@) ==> r == Err::<
            Vec<PendingPoint>,
            StoreError,
        >(StoreError::IdCollision),
        ids@.len() == texts@.len() && all_distinct(ids@) ==> r is Ok,
        r matches Ok(points) ==> {
            &&& points@.len() == texts@.len()
            &&& forall|i: int| 0 <= i < texts@.len() ==> #[trigger] points@[i].id == ids@[i]
            &&& forall|i: int|
                0 <= i < texts@.len() ==> is_message_payload(
                    #[trigger] points@[i].payload@,
                    texts@[i]@,
                )
        },
{
    if ids.len() != texts.len() {
        return Err(
            StoreError::IdCountMismatch { expected: texts.len() as u64, found: ids.len() as u64 },
        );
    }
    let ids = match distinct_ids(ids) {
        Ok(ids) => ids,
        Err(e) => return Err(e),
    };
    let mut points: Vec<PendingPoint> = Vec::new();
    let mut i: usize = 0;
    while i < texts.len()
        invariant
            i <= texts@.len(),
            ids@.len() == texts@.len(),
            points@.len() == i,
            forall|k: int|
                0 <= k < i ==> is_message_payload(#[trigger] points@[k].payload@, texts@[k]@),
            forall|k: int| 0 <= k < i ==> #[trigger] points@[k].id == ids@[k],
        decreases texts@.len() - i,
    {
        points.push(
            PendingPoint { id: ids[i].clone(), payload: message_payload(texts[i].as_str()) },
        );
        i = i + 1;
    }
    Ok(points)
}

/// One point for each of `texts`, in order, under pairwise different fresh
/// ids; `IdCollision` if a draw repeats an earlier one.
pub fn batch_points(texts: &Vec<String>) -> (r: Result<Vec<PendingPoint>, StoreError>)
    ensures
        texts@.len() <= 1 ==> r is Ok,
        r is Err ==> r == Err::<Vec<PendingPoint>, StoreError>(StoreError::IdCollision),
        r matches Ok(points) ==> {
            &&& points@.len() == texts@.len()
            &&& forall|i: int|
                0 <= i < texts@.len() ==> is_message_payload(
                    #[trigger] points@[i].payload@,
                    texts@[i]@,
                )
            &&& forall|i: int|
                0 <= i < points@.len() ==> is_uuid_v4_text(#[trigger] points@[i].id@)
            &&& forall|i: int, j: int|
                0 <= i < j < points@.len() ==> points@[i].id@ != points@[j].id@
        },
{
    let ids = match fresh_point_ids(texts.len()) {
        Ok(ids) => ids,
        Err(e) => return Err(e),
    };
    let ghost drawn = ids@;
    let r = points_with_ids(texts, ids);
    proof {
        if r is Ok {
            let points = r->Ok_0;
            assert forall|i: int| 0 <= i < points@.len() implies is_uuid_v4_text(
                #[trigger] points@[i].id@,
            ) by {
                assert(points@[i].id == drawn[i]);
            }
            assert forall|a: int, b: int| 0 <= a < b < points@.len() implies points@[a].id@
                != points@[b].id@ by {
                assert(points@[a].id == drawn[a]);
                assert(points@[b].id == drawn[b]);
            }
        }
    }
    r
}

/// A point stored with a message payload is found again by its message: a
/// search whose best hit is that point yields exactly the stored text.
pub proof fn lemma_stored_message_round_trip(hit: Hit, t: Seq<char>)
    requires
        is_message_payload(hit.payload@, t),
    ensures
        best_message_of(seq![hit]) == Ok::<Seq<char>, SearchError>(t),
{
    assert(seq![hit][0] == hit);
}

/// A search that matches nothing reports that, not a default message.
pub proof fn lemma_empty_search_reports_no_match()
    ensures
        best_message_of(Seq::empty()) == Err::<Seq<char>, SearchError>(SearchError::NoMatch),
{
}

/// Each point of a batch is found again on its own: a search whose best hit
/// is the `i`-th point yields exactly the `i`-th text.
pub proof fn lemma_batch_points_retrievable(points: Seq<PendingPoint>, texts: Seq<String>)
    requires
        points.len() == texts.len(),
        forall|i: int|
            0 <= i < texts.len() ==> is_message_payload(#[trigger] points[i].payload@, texts[i]@),
    ensures
        forall|i: int|
            0 <= i < texts.len() ==> best_message_of(
                seq![(Hit { id: points[i].id, payload: #[trigger] points[i].payload })],
            ) == Ok::<Seq<char>, SearchError>(texts[i]@),
{
    assert forall|i: int| 0 <= i < texts.len() implies best_message_of(
        seq![(Hit { id: points[i].id, payload: #[trigger] points[i].payload })],
    ) == Ok::<Seq<char>, SearchError>(texts[i]@) by {
        lemma_stored_message_round_trip(Hit { id: points[i].id, payload: points[i].payload }, texts[i]@);
    }
}

} // verus!
