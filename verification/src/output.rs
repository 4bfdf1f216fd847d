use vstd::prelude::*;
use vstd::utf8::{decode_utf8, encode_utf8, valid_utf8};
use crate::error::Error;

verus! {

/// Turns bytes into a string, if they are UTF-8.
///
/// Trusted: this is `String::from_utf8` of the standard library, which checks
/// that the bytes are valid UTF-8 and, if so, keeps them as the string.
#[verifier::external_body]
fn string_from_utf8(bytes: Vec<u8>) -> (text: Result<String, std::string::FromUtf8Error>)
    ensures
        text is Ok <==> valid_utf8(bytes@),
        text matches Ok(s) ==> s@ == decode_utf8(bytes@),
{
    String::from_utf8(bytes)
}

/// Reads a token from the bytes of a token file. The bytes are taken as they
/// are: nothing is trimmed.
pub fn read_token(file: Vec<u8>) -> (token: Result<String, Error>)
    ensures
        match token {
            Ok(t) => valid_utf8(file@) && t@ == decode_utf8(file@),
            Err(e) => !valid_utf8(file@) && e is Utf8Error,
        },
{
    match string_from_utf8(file) {
        Ok(token) => Ok(token),
        Err(cause) => Err(Error::Utf8Error(cause)),
    }
}

/// Writes a document to a sink in memory: its UTF-8 bytes are added, in full
/// and in one piece, behind what the sink holds.
pub fn write(writer: &mut Vec<u8>, output: &str) -> (written: Result<(), Error>)
    ensures
        written is Ok,
        final(writer)@ == old(writer)@ + encode_utf8(output@),
{
    writer.extend_from_slice(output.as_bytes());
    Ok(())
}

/// Where the document goes.
#[derive(Debug, Clone)]
pub enum OutputTarget {
    /// To standard output.
    Stdout,
    /// To the file at a path, which is made anew.
    File(String),
}

/// Picks the sink that an output path names: `-` is standard output, and
/// every other path is a file.
pub fn output_target(path: &str) -> (target: OutputTarget)
    ensures
        match target {
            OutputTarget::Stdout => path@ == "-"@,
            OutputTarget::File(p) => path@ != "-"@ && p@ == path@,
        },
{
    if crate::text::str_eq(path, "-") {
        OutputTarget::Stdout
    } else {
        OutputTarget::File(path.to_owned())
    }
}

} // verus!
