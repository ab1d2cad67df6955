//! Planning and decoding for a vocabulary-to-audio study pipeline: which
//! requests to make to the vocabulary, language-model and speech services,
//! what their replies mean, and in which order the work proceeds.

pub mod credentials;
pub mod error;
pub mod http;
pub mod json;
pub mod model;
pub mod pipeline;
pub mod sentences;
pub mod speech;
pub mod text;
pub mod vocabulary;
