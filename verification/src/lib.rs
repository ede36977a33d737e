//! A verified decoder for exported music-library documents in the
//! property-list XML dialect: a streaming tokenizer over raw markup events,
//! schema-driven projectors for tracks and playlists under a closed field
//! vocabulary, and a top-level document parser that assembles a `Library`.

pub mod elements;
pub mod laws;
pub mod lexer;
pub mod library;
pub mod num;
pub mod playlist;
pub mod paging;
pub mod playback;
pub mod query;
pub mod serve;
pub mod track;
pub mod xml_source;
