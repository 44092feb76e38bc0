//! Ingestion of uploaded images: identifiers, media types, path layout, the
//! upload state machine and the request-level decisions around it.

pub mod ident;
pub mod media;
pub mod paths;
pub mod pipeline;
pub mod batch;
