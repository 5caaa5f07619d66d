//! The credentials header of the alert dispatcher's request.
//!
//! The push service takes HTTP basic authentication: the word `Basic`, a
//! space, and the base64 text of the user name, a colon and the password.

use vstd::prelude::*;

verus! {

/// Whether an input of `len` bytes has a base64 text that a buffer can hold:
/// four characters for every three bytes begun, and no more than `isize::MAX`.
pub open spec fn encodable(len: int) -> bool {
    len / 3 < isize::MAX / 4
}

/// The standard base64 text, padded, of a sequence of bytes.
pub uninterp spec fn base64_standard(input: Seq<u8>) -> Seq<char>;

/// Calls `base64::Engine::encode` on the engine `base64::prelude::BASE64_STANDARD`.
///
/// The result is the padded standard base64 text of the input, which depends
/// on the input alone. The engine panics where the length of that text
/// overflows `usize`, and its buffer cannot be longer than `isize::MAX`; the
/// bound on the input leaves those inputs out.
#[verifier::external_body]
fn encode_base64(input: &[u8]) -> (text: String)
    requires
        encodable(input@.len() as int),
    ensures
        text@ == base64_standard(input@),
{
    base64::Engine::encode(&base64::prelude::BASE64_STANDARD, input)
}

/// One request to the push service: where it goes, its two headers, its body.
#[derive(Debug, PartialEq, Eq)]
pub struct AlertRequest {
    pub url: String,
    /// Value of the `Authorization` header.
    pub authorization: String,
    /// Value of the `Content-Type` header.
    pub content_type: String,
    /// The message, as plain text.
    pub body: String,
}

/// The text that basic authentication encodes: user name, colon, password.
pub open spec fn credentials_spec(user: Seq<char>, password: Seq<char>) -> Seq<char> {
    user + ":"@ + password
}

/// The header value for an already encoded credential.
pub open spec fn basic_header_spec(encoded: Seq<char>) -> Seq<char> {
    "Basic "@ + encoded
}

/// Joins user name and password as basic authentication wants them.
pub fn credentials(user: &str, password: &str) -> (joined: String)
    ensures
        joined@ == credentials_spec(user@, password@),
{
    let mut joined = String::from_str(user);
    joined.append(":");
    joined.append(password);
    joined
}

/// Puts the scheme's name in front of an encoded credential.
pub fn basic_header(encoded: &str) -> (header: String)
    ensures
        header@ == basic_header_spec(encoded@),
{
    let mut header = String::from_str("Basic ");
    header.append(encoded);
    header
}

/// The value of the `Authorization` header for a user name and a password,
/// or `None` where the two, as UTF-8, are too long for their base64 text to
/// fit in memory.
pub fn authorization_header(user: &str, password: &str) -> (header: Option<String>)
    ensures
        header is Some <==> encodable(
            vstd::utf8::encode_utf8(credentials_spec(user@, password@)).len() as int,
        ),
        header matches Some(text) ==> text@ == basic_header_spec(
            base64_standard(vstd::utf8::encode_utf8(credentials_spec(user@, password@))),
        ),
{
    let joined = credentials(user, password);
    let bytes = joined.as_str().as_bytes();
    if bytes.len() / 3 < (isize::MAX as usize) / 4 {
        let encoded = encode_base64(bytes);
        Some(basic_header(encoded.as_str()))
    } else {
        None
    }
}

/// The request that delivers a message to the push service at `url` under
/// the given credentials, or `None` where the credentials are too long for
/// their base64 text to fit in memory. The message goes out unchanged, as
/// plain text.
pub fn alert_request(url: String, user: &str, password: &str, message: String) -> (request: Option<
    AlertRequest,
>)
    ensures
        request is Some <==> encodable(
            vstd::utf8::encode_utf8(credentials_spec(user@, password@)).len() as int,
        ),
        request matches Some(built) ==> {
            &&& built.url@ == url@
            &&& built.authorization@ == basic_header_spec(
                base64_standard(vstd::utf8::encode_utf8(credentials_spec(user@, password@))),
            )
            &&& built.content_type@ == "text/plain"@
            &&& built.body@ == message@
        },
{
    match authorization_header(user, password) {
        Some(authorization) => Some(
            AlertRequest {
                url,
                authorization,
                content_type: String::from_str("text/plain"),
                body: message,
            },
        ),
        None => None,
    }
}

} // verus!
