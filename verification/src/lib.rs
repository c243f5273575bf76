//! Client library for the Tencent Cloud Hunyuan API (version 2023-09-01).
//!
//! The crate builds and signs requests with the TC3-HMAC-SHA256 scheme and
//! classifies responses. Its functions carry contracts that Verus proves.
//! The calls into other crates (SHA-256, HMAC, hex text, the calendar date
//! and the header map) stand behind a few small functions whose contracts
//! are stated and trusted, not proved; each says so in its doc comment.
pub mod client;
pub mod error;
pub mod headers;
pub mod models;
pub mod request;
pub mod signing;
pub mod tc3;
pub mod text;

pub use client::{Client, ClientBuilder, Credential, Region};
pub use error::SdkError;
