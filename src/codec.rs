//! Byte-level framing of persisted secrets, optionally sealed with a password.
use vstd::prelude::*;

verus! {

/// Why framing or unframing persisted bytes failed.
#[derive(Clone, Copy, Debug, PartialEq, Eq)]
pub enum CodecFailure {
    /// There were no bytes at all.
    Empty,
    /// The bytes are sealed with a password and none was given.
    Encrypted,
    /// The password does not open the sealed bytes.
    WrongPassword,
    /// No key could be derived from the password.
    KeyDerivation,
    /// A value could not be encoded.
    Encoding,
    /// A value could not be decoded.
    Decoding,
}

/// A failure of opening sealed bytes: the password or the key derived from it.
pub open spec fn is_password_failure(e: CodecFailure) -> bool {
    e == CodecFailure::WrongPassword || e == CodecFailure::KeyDerivation
}

/// The bytes that sealing `payload` with `password` yields, or `None` where sealing fails.
pub uninterp spec fn sealed(payload: Seq<u8>, password: Seq<u8>) -> Option<Seq<u8>>;

/// The error type of serialize_with_password, carried opaquely.
#[verifier::external_type_specification]
#[verifier::external_body]
pub struct ExCodecError(serialize_with_password::Error);

/// Relies on serialize_with_password::Error: tells its variants apart, one
/// failure kind each.
#[verifier::external_body]
fn failure_of(e: serialize_with_password::Error) -> CodecFailure {
    match e {
        serialize_with_password::Error::DataIsEncrypted => CodecFailure::Encrypted,
        serialize_with_password::Error::DataIsEmpty => CodecFailure::Empty,
        serialize_with_password::Error::Argon2Error(_) => CodecFailure::KeyDerivation,
        serialize_with_password::Error::ChaCha20Error(_) => CodecFailure::WrongPassword,
        serialize_with_password::Error::SerdeEncodingError(_) => CodecFailure::Encoding,
        serialize_with_password::Error::SerdeDecodingError(_) => CodecFailure::Decoding,
    }
}

/// Relies on serialize_with_password::is_encrypted: an error for empty data,
/// otherwise whether the first byte is the sealed marker 1.
#[verifier::external_body]
fn probe_sealed(data: &Vec<u8>) -> (r: Result<bool, CodecFailure>)
    ensures
        r == (if data@.len() == 0 {
            Err(CodecFailure::Empty)
        } else {
            Ok(data@[0] == 1)
        }),
{
    serialize_with_password::is_encrypted(data).map_err(failure_of)
}

/// Relies on serialize_with_password::serialize_no_pass: the marker byte 0
/// followed by the payload.
#[verifier::external_body]
fn frame_plain(payload: &Vec<u8>) -> (r: Vec<u8>)
    ensures
        r@ == seq![0u8] + payload@,
{
    serialize_with_password::serialize_no_pass(payload)
}

/// Relies on serialize_with_password::serialize: deterministic in its
/// arguments (the key and nonce come from the password and a fixed salt).
#[verifier::external_body]
fn frame_sealed(payload: &Vec<u8>, password: &Vec<u8>) -> (r: Result<Vec<u8>, CodecFailure>)
    ensures
        r is Ok <==> sealed(payload@, password@) is Some,
        r matches Ok(b) ==> sealed(payload@, password@) == Some(b@),
        r matches Err(e) ==> is_password_failure(e),
{
    serialize_with_password::serialize(payload, password).map_err(failure_of)
}

/// Relies on serialize_with_password::deserialize: empty data fails, data
/// marked 0 is returned without its marker whatever the password, and data
/// sealed with `password` opens to what was sealed.
#[verifier::external_body]
fn open_sealed(data: &Vec<u8>, password: &[u8]) -> (r: Result<Vec<u8>, CodecFailure>)
    ensures
        data@.len() == 0 ==> r matches Err(CodecFailure::Empty),
        data@.len() > 0 ==> (data@[0] == 0 ==> r is Ok),
        r matches Ok(v) ==> (data@[0] == 0 ==> v@ == data@.drop_first()),
        r matches Err(e) ==> (data@.len() > 0 ==> is_password_failure(e)),
        forall|p: Seq<u8>| #[trigger] sealed(p, password@) == Some(data@) ==> r is Ok,
        forall|p: Seq<u8>|
            #[trigger] sealed(p, password@) == Some(data@) ==> (r matches Ok(v) ==> v@ == p),
{
    serialize_with_password::deserialize(data, password).map_err(failure_of)
}

/// Relies on serialize_with_password::deserialize_no_pass: empty data fails,
/// data marked 1 is sealed, anything else loses its first byte.
#[verifier::external_body]
fn open_plain(data: &Vec<u8>) -> (r: Result<Vec<u8>, CodecFailure>)
    ensures
        r is Ok == (if data@.len() == 0 {
            false
        } else {
            data@[0] != 1
        }),
        r matches Ok(v) ==> v@ == data@.drop_first(),
        r matches Err(e) ==> e == (if data@.len() == 0 {
            CodecFailure::Empty
        } else {
            CodecFailure::Encrypted
        }),
{
    serialize_with_password::deserialize_no_pass(data).map_err(failure_of)
}

/// Frames an encoded value for storage: sealed with `password` when one is given.
pub fn seal_payload(payload: &Vec<u8>, password: Option<&Vec<u8>>) -> (r: Result<
    Vec<u8>,
    CodecFailure,
>)
    ensures
        password is None ==> (r matches Ok(b) && b@ == seq![0u8] + payload@),
        password matches Some(pw) ==> (r is Ok <==> sealed(payload@, pw@) is Some),
        password matches Some(pw) ==> (r matches Ok(b) ==> sealed(payload@, pw@) == Some(b@)),
{
    match password {
        None => Ok(frame_plain(payload)),
        Some(pw) => frame_sealed(payload, pw),
    }
}

/// Whether stored bytes are sealed with a password; empty bytes are an error.
pub fn is_sealed(data: &Vec<u8>) -> (r: Result<bool, CodecFailure>)
    ensures
        data@.len() == 0 ==> r matches Err(CodecFailure::Empty),
        data@.len() > 0 ==> (r matches Ok(b) && b == (data@[0] == 1)),
{
    probe_sealed(data)
}

/// Opens stored bytes with a password.
pub fn open_with_password(data: &Vec<u8>, password: &[u8]) -> (r: Result<Vec<u8>, CodecFailure>)
    ensures
        data@.len() == 0 ==> r matches Err(CodecFailure::Empty),
        data@.len() > 0 && data@[0] == 0 ==> (r matches Ok(v) && v@ == data@.drop_first()),
        data@.len() > 0 ==> (r matches Err(e) ==> is_password_failure(e)),
        forall|p: Seq<u8>|
            #[trigger] sealed(p, password@) == Some(data@) ==> (r matches Ok(v) && v@ == p),
{
    open_sealed(data, password)
}

/// Opens stored bytes that carry no password.
pub fn open_without_password(data: &Vec<u8>) -> (r: Result<Vec<u8>, CodecFailure>)
    ensures
        data@.len() == 0 ==> r matches Err(CodecFailure::Empty),
        data@.len() > 0 && data@[0] == 1 ==> r matches Err(CodecFailure::Encrypted),
        data@.len() > 0 && data@[0] != 1 ==> (r matches Ok(v) && v@ == data@.drop_first()),
{
    open_plain(data)
}

} // verus!
