//! Encrypted copies of PDF documents: where each copy goes, how one document
//! is encrypted, and the per-file outcome of a batch.

pub mod batch;
pub mod document;
pub mod outcome;
pub mod path;

pub use batch::encrypt_batch;
pub use document::{encrypt_pdf_bytes, encrypt_pdf_bytes_with_key};
pub use outcome::{outcome_for, EncryptError, EncryptResult};
pub use path::encrypted_output_path;
