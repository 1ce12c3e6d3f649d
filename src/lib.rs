//! Semantic search over a corpus of wiki articles: the document model, the
//! text preparation that precedes embedding, the rules of the vector store's
//! collection and payloads, the shape of a tokenized batch that pooling
//! relies on, and the per-document indexing state machine.

pub mod wikitext;
pub mod wiki_parser;
pub mod store;
pub mod embedder;
pub mod indexing;
