use std::collections::BTreeMap;
use std::sync::Arc;

use lopdf::encryption::crypt_filters::{Aes256CryptFilter, CryptFilter};
use lopdf::{Document, EncryptionState, EncryptionVersion, Permissions};
use vstd::prelude::*;

use crate::outcome::EncryptError;

verus! {

#[verifier::external_type_specification]
#[verifier::external_body]
pub struct ExDocument(Document);

#[verifier::external_type_specification]
#[verifier::external_body]
pub struct ExEncryptionState(EncryptionState);

#[verifier::external_type_specification]
#[verifier::external_body]
pub struct ExPdfError(lopdf::Error);

#[verifier::external_type_specification]
#[verifier::external_body]
pub struct ExIoError(std::io::Error);

/// Whether lopdf parses `bytes` as a PDF document.
pub uninterp spec fn parses_as_pdf(bytes: Seq<u8>) -> bool;

/// Relies on lopdf's `Document::load_mem`: parses a document held in memory.
/// Whether it parses depends on the bytes alone.
#[verifier::external_body]
fn load_document(bytes: &[u8]) -> (r: Result<Document, lopdf::Error>)
    ensures
        r is Ok == parses_as_pdf(bytes@),
{
    Document::load_mem(bytes)
}

/// Relies on lopdf's `EncryptionState::try_from` for `EncryptionVersion::V5`:
/// AES-256 crypt filter for streams and strings, every permission granted,
/// with the given passwords, metadata choice and file key.
#[verifier::external_body]
fn aes256_state(
    owner_password: &str,
    user_password: &str,
    encrypt_metadata: bool,
    key: &[u8; 32],
) -> (r: Result<EncryptionState, lopdf::Error>) {
    let filter: Arc<dyn CryptFilter> = Arc::new(Aes256CryptFilter);
    EncryptionState::try_from(EncryptionVersion::V5 {
        encrypt_metadata,
        crypt_filters: BTreeMap::from([(b"StdCF".to_vec(), filter)]),
        file_encryption_key: key,
        stream_filter: b"StdCF".to_vec(),
        string_filter: b"StdCF".to_vec(),
        owner_password,
        user_password,
        permissions: Permissions::all(),
    })
}

/// Relies on lopdf's `Document::encrypt`: encrypts every string and stream of
/// the document in place and records the encryption dictionary.
#[verifier::external_body]
fn encrypt_document(doc: &mut Document, state: &EncryptionState) -> (r: Result<(), lopdf::Error>) {
    doc.encrypt(state)
}

/// Relies on lopdf's `Document::save_to`: serialises the document into bytes.
#[verifier::external_body]
fn save_document(doc: &mut Document) -> (r: Result<Vec<u8>, std::io::Error>) {
    let mut out = Vec::new();
    doc.save_to(&mut out).map(|_| out)
}

/// Relies on the `Display` impl of `lopdf::Error`, for the detail of a message.
#[verifier::external_body]
fn error_detail(e: &lopdf::Error) -> (r: String) {
    e.to_string()
}

/// Relies on the `Display` impl of `std::io::Error`, for the detail of a message.
#[verifier::external_body]
fn io_error_detail(e: &std::io::Error) -> (r: String) {
    e.to_string()
}

/// Relies on `rand::fill` with the thread-local generator: 32 random bytes.
#[verifier::external_body]
fn random_file_key() -> (r: [u8; 32]) {
    let mut key = [0u8; 32];
    rand::fill(&mut key);
    key
}

/// Encrypts the PDF document held in `input` with AES-256 under the file key
/// `key`, `password` serving as both owner and user password and the
/// metadata encrypted too, and returns the bytes of the encrypted document.
///
/// Input that does not parse as a PDF fails with `Load`, and only such input
/// does; the later steps fail with `Setup`, `Encrypt` or `Write`.
pub fn encrypt_pdf_bytes_with_key(input: &[u8], password: &str, key: &[u8; 32]) -> (r: Result<
    Vec<u8>,
    EncryptError,
>)
    ensures
        r matches Err(EncryptError::Load(_)) <==> !parses_as_pdf(input@),
        !(r matches Err(EncryptError::Read(_))),
{
    let mut doc = match load_document(input) {
        Ok(doc) => doc,
        Err(e) => {
            return Err(EncryptError::Load(error_detail(&e)));
        },
    };
    let state = match aes256_state(password, password, true, key) {
        Ok(state) => state,
        Err(e) => {
            return Err(EncryptError::Setup(error_detail(&e)));
        },
    };
    match encrypt_document(&mut doc, &state) {
        Ok(()) => {},
        Err(e) => {
            return Err(EncryptError::Encrypt(error_detail(&e)));
        },
    }
    match save_document(&mut doc) {
        Ok(bytes) => Ok(bytes),
        Err(e) => Err(EncryptError::Write(io_error_detail(&e))),
    }
}

/// As `encrypt_pdf_bytes_with_key`, under a fresh random file key.
pub fn encrypt_pdf_bytes(input: &[u8], password: &str) -> (r: Result<Vec<u8>, EncryptError>)
    ensures
        r matches Err(EncryptError::Load(_)) <==> !parses_as_pdf(input@),
        !(r matches Err(EncryptError::Read(_))),
{
    let key = random_file_key();
    encrypt_pdf_bytes_with_key(input, password, &key)
}

} // verus!
