use vstd::prelude::*;

use crate::outcome::{is_outcome, outcome_for, EncryptError, EncryptResult};
use crate::path::{derived_output, encrypted_output_path};

verus! {

/// `r` is the record of `file` in a batch encrypted with `password` through
/// `encrypt`: the output path was derived from `file`, `encrypt` was called
/// once with the input path, that output path and the password, and `r`
/// records what it returned.
pub open spec fn outcome_of_call<F: Fn(&String, &String, &str) -> Result<(), EncryptError>>(
    encrypt: F,
    password: &str,
    file: String,
    r: EncryptResult,
) -> bool {
    exists|output: String, res: Result<(), EncryptError>|
        {
            &&& output@ == derived_output(file@)
            &&& #[trigger] call_ensures(encrypt, (&file, &output, password), res)
            &&& is_outcome(r, file@, output@, res)
        }
}

/// A file's record does not depend on the rest of its batch. When the
/// service's result is fixed by its arguments, the record of a file in one
/// batch equals the record of the same file in any other batch encrypted with
/// the same password, whatever else either batch holds and wherever the
/// file stands in it.
pub proof fn lemma_record_independent_of_batch<
    F: Fn(&String, &String, &str) -> Result<(), EncryptError>,
>(
    encrypt: F,
    password: &str,
    batch1: Seq<String>,
    records1: Seq<EncryptResult>,
    i: int,
    batch2: Seq<String>,
    records2: Seq<EncryptResult>,
    j: int,
)
    requires
        forall|a1: &String, o1: &String, a2: &String, o2: &String, r1, r2|
            a1@ == a2@ && o1@ == o2@ && #[trigger] call_ensures(encrypt, (a1, o1, password), r1)
                && #[trigger] call_ensures(encrypt, (a2, o2, password), r2) ==> r1 == r2,
        0 <= i < batch1.len(),
        0 <= j < batch2.len(),
        records1.len() == batch1.len(),
        records2.len() == batch2.len(),
        forall|k: int|
            0 <= k < batch1.len() ==> outcome_of_call(encrypt, password, batch1[k], records1[k]),
        forall|k: int|
            0 <= k < batch2.len() ==> outcome_of_call(encrypt, password, batch2[k], records2[k]),
        batch1[i]@ == batch2[j]@,
    ensures
        records1[i].file@ == records2[j].file@,
        records1[i].success == records2[j].success,
        records1[i].message@ == records2[j].message@,
{
    assert(outcome_of_call(encrypt, password, batch1[i], records1[i]));
    assert(outcome_of_call(encrypt, password, batch2[j], records2[j]));
    let (o1, r1) = choose|o: String, r: Result<(), EncryptError>|
        {
            &&& o@ == derived_output(batch1[i]@)
            &&& #[trigger] call_ensures(encrypt, (&batch1[i], &o, password), r)
            &&& is_outcome(records1[i], batch1[i]@, o@, r)
        };
    let (o2, r2) = choose|o: String, r: Result<(), EncryptError>|
        {
            &&& o@ == derived_output(batch2[j]@)
            &&& #[trigger] call_ensures(encrypt, (&batch2[j], &o, password), r)
            &&& is_outcome(records2[j], batch2[j]@, o@, r)
        };
    assert(r1 == r2);
}

/// Encrypts each file of `files` with `password`, one after another, through
/// `encrypt`, which is handed the input path, the derived output path and the
/// password, and reports whether that file was encrypted.
///
/// Every file gets exactly one record, in the order of `files`. A failure is
/// recorded for its own file and the batch goes on: each record depends on
/// its own file's call alone.
pub fn encrypt_batch<F: Fn(&String, &String, &str) -> Result<(), EncryptError>>(
    files: &Vec<String>,
    password: &str,
    encrypt: F,
) -> (r: Vec<EncryptResult>)
    requires
        forall|input: &String, output: &String| call_requires(encrypt, (input, output, password)),
    ensures
        r.len() == files.len(),
        forall|i: int| 0 <= i < files.len() ==> outcome_of_call(encrypt, password, files[i], r[i]),
{
    let mut r: Vec<EncryptResult> = Vec::new();
    let mut i: usize = 0;
    while i < files.len()
        invariant
            i <= files.len(),
            r.len() == i,
            forall|input: &String, output: &String|
                call_requires(encrypt, (input, output, password)),
            forall|j: int| 0 <= j < i ==> outcome_of_call(encrypt, password, files[j], r[j]),
        decreases files.len() - i,
    {
        let file = &files[i];
        let output = encrypted_output_path(file.as_str());
        let res = encrypt(file, &output, password);
        let record = outcome_for(file, &output, &res);
        assert(outcome_of_call(encrypt, password, files[i as int], record));
        r.push(record);
        i = i + 1;
    }
    r
}

} // verus!
