//! Core rules of a small file-sharing server that can be published through a
//! reverse tunnel: filename safety, request routing, tunnel provider
//! resolution and the extraction of the public URL from the tunnel client's
//! diagnostic text.

pub mod text;
pub mod number;
pub mod extractor;
pub mod provider;
pub mod resolver;
pub mod path_guard;
pub mod router;
pub mod orchestrator;
