//! Helpers for files on the local machine: checksums and temporary names.
//!
//! Reading a file and finding the directory for temporary files is the
//! caller's part. What is computed from the bytes and the names is here.

use vstd::prelude::*;
use vstd::string::*;
use crate::error::Error;
use crate::uuid_text::{random_uuid, uuid_text, uuid_to_text};

verus! {

/// The SHA-256 digest of `data`, written as hexadecimal digits.
pub uninterp spec fn sha256_hex(data: Seq<u8>) -> Seq<char>;

/// `sha256::digest` on a byte slice: the digest of the bytes as a string of
/// hexadecimal digits.
#[verifier::external_body]
fn sha256_digest(data: &[u8]) -> (hex: String)
    ensures
        hex@ == sha256_hex(data@),
{
    sha256::digest(data)
}

/// The text with which the name of every temporary file starts.
pub open spec fn temp_prefix() -> Seq<char> {
    "webos-dev-tmp-"@
}

/// The name of the temporary file made for the UUID `id`, with `extension`
/// at its end.
pub open spec fn temp_name(id: u128, extension: Seq<char>) -> Seq<char> {
    temp_prefix() + uuid_text(id) + extension
}

/// Tells whether `algorithm` names SHA-256.
fn is_sha256(algorithm: &str) -> (yes: bool)
    ensures
        yes == (algorithm@ == "sha256"@),
{
    proof {
        reveal_strlit("sha256");
    }
    let yes = algorithm.unicode_len() == 6 && algorithm.get_char(0) == 's' && algorithm.get_char(1)
        == 'h' && algorithm.get_char(2) == 'a' && algorithm.get_char(3) == '2'
        && algorithm.get_char(4) == '5' && algorithm.get_char(5) == '6';
    assert(yes ==> algorithm@ =~= "sha256"@);
    yes
}

/// The checksum of `contents` by the algorithm named `algorithm`, as
/// hexadecimal digits. The only algorithm known is `sha256`; any other name
/// fails with `Unsupported`.
pub fn checksum(contents: &[u8], algorithm: &str) -> (r: Result<String, Error>)
    ensures
        match r {
            Ok(hex) => algorithm@ == "sha256"@ && hex@ == sha256_hex(contents@),
            Err(e) => algorithm@ != "sha256"@ && e == Error::Unsupported,
        },
{
    if is_sha256(algorithm) {
        Ok(sha256_digest(contents))
    } else {
        Err(Error::Unsupported)
    }
}

/// The name of the temporary file for the UUID `id`.
pub fn temp_file_name(id: u128, extension: &str) -> (name: String)
    ensures
        name@ == temp_name(id, extension@),
{
    let mut name = String::from_str("webos-dev-tmp-");
    name.append(uuid_to_text(id).as_str());
    name.append(extension);
    name
}

/// A name for a new temporary file, made from a UUID drawn at random.
pub fn fresh_temp_file_name(extension: &str) -> (name: String)
    ensures
        exists|id: u128| name@ == temp_name(id, extension@),
{
    let id: u128 = random_uuid();
    temp_file_name(id, extension)
}

} // verus!
