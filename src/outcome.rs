use vstd::prelude::*;
use vstd::string::*;

verus! {

/// Why one file could not be encrypted. Each variant carries the detail that
/// the failing step reported.
#[derive(Debug)]
pub enum EncryptError {
    /// The input file is missing or could not be read.
    Read(String),
    /// The input is not a document that parses as a PDF.
    Load(String),
    /// The encryption parameters could not be set up from the password.
    Setup(String),
    /// The document could not be encrypted.
    Encrypt(String),
    /// The encrypted document could not be written out.
    Write(String),
}

impl EncryptError {
    /// The human-readable description of the error: a fixed phrase for the
    /// step that failed, followed by the detail.
    pub open spec fn description(&self) -> Seq<char> {
        match self {
            EncryptError::Read(d) => "Failed to read PDF: "@ + d@,
            EncryptError::Load(d) => "Failed to load PDF: "@ + d@,
            EncryptError::Setup(d) => "Failed to create encryption state: "@ + d@,
            EncryptError::Encrypt(d) => "Failed to encrypt: "@ + d@,
            EncryptError::Write(d) => "Failed to save: "@ + d@,
        }
    }

    pub fn message(&self) -> (r: String)
        ensures
            r@ == self.description(),
    {
        let (prefix, detail) = match self {
            EncryptError::Read(d) => ("Failed to read PDF: ", d),
            EncryptError::Load(d) => ("Failed to load PDF: ", d),
            EncryptError::Setup(d) => ("Failed to create encryption state: ", d),
            EncryptError::Encrypt(d) => ("Failed to encrypt: ", d),
            EncryptError::Write(d) => ("Failed to save: ", d),
        };
        let mut r = String::from_str(prefix);
        r.append(detail.as_str());
        r
    }
}

/// What became of one input file of a batch.
#[derive(Debug)]
pub struct EncryptResult {
    /// The input path, as it was given.
    pub file: String,
    pub success: bool,
    /// Names the output path on success, the cause on failure.
    pub message: String,
}

pub open spec fn success_message(output: Seq<char>) -> Seq<char> {
    "Saved as "@ + output
}

pub open spec fn failure_message(e: EncryptError) -> Seq<char> {
    "Error: "@ + e.description()
}

/// `r` records the attempt to encrypt `file` into `output`, which ended in `res`.
pub open spec fn is_outcome(
    r: EncryptResult,
    file: Seq<char>,
    output: Seq<char>,
    res: Result<(), EncryptError>,
) -> bool {
    &&& r.file@ == file
    &&& r.success == res is Ok
    &&& r.message@ == match res {
        Ok(_) => success_message(output),
        Err(e) => failure_message(e),
    }
}

/// The record of one attempt to encrypt `file` into `output`.
pub fn outcome_for(file: &String, output: &String, result: &Result<(), EncryptError>) -> (r:
    EncryptResult)
    ensures
        is_outcome(r, file@, output@, *result),
{
    match result {
        Ok(_) => {
            let mut message = String::from_str("Saved as ");
            message.append(output.as_str());
            EncryptResult { file: file.clone(), success: true, message }
        },
        Err(e) => {
            let mut message = String::from_str("Error: ");
            let detail = e.message();
            message.append(detail.as_str());
            EncryptResult { file: file.clone(), success: false, message }
        },
    }
}

} // verus!
