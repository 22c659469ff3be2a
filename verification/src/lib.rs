//! Core of a smile-mixing HTTP service: validation of the two query
//! parameters against a closed set of smile names, GIF serialization of the
//! composed image, and the mapping of every outcome to an HTTP reply.
pub mod encode;
pub mod reply;
pub mod request;
pub mod smile;
