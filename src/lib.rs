//! Segmented media stream downloading: the decisions of the segment pipeline
//! (naming, validation, decryption, retry, bounded scheduling and ordered
//! assembly), proved against their contracts.

pub mod assemble;
pub mod crypto;
pub mod error;
pub mod fetch;
pub mod location;
pub mod manifest;
pub mod naming;
pub mod scheduler;
pub mod task;
pub mod text;
pub mod validator;
