use vstd::prelude::*;
use vstd::utf8::encode_utf8;

use crate::consts::{AUTH_FAILURE, AUTH_SUCCESS, AUTH_VERSION};

verus! {

/// The one user that the server accepts, when authentication is configured.
/// Client-supplied values are compared with the UTF-8 bytes of these strings.
#[derive(Debug, Clone)]
pub struct UserConfig {
    pub username: String,
    pub password: String,
}

impl UserConfig {
    /// The configured username's bytes.
    pub open spec fn name_bytes(&self) -> Seq<u8> {
        encode_utf8(self.username@)
    }

    /// The configured password's bytes.
    pub open spec fn pass_bytes(&self) -> Seq<u8> {
        encode_utf8(self.password@)
    }
}

/// Why the username/password sub-negotiation failed.
#[derive(Clone, Copy, Debug, PartialEq, Eq, Structural)]
pub enum AuthError {
    /// The bytes end before the frame does.
    Truncated,
    /// The version byte is not the sub-negotiation version.
    UnsupportedVersion,
    /// The username or password differs from the configured one.
    BadCredentials,
}

/// What the front of `b` decodes to as an auth request: username, password
/// and the frame's length, or why it does not.
pub open spec fn decode_auth(b: Seq<u8>) -> Result<(Seq<u8>, Seq<u8>, nat), AuthError> {
    if b.len() < 1 {
        Err(AuthError::Truncated)
    } else if b[0] != AUTH_VERSION {
        Err(AuthError::UnsupportedVersion)
    } else if b.len() < 2 || b.len() < 3 + b[1] {
        Err(AuthError::Truncated)
    } else if b.len() < 3 + b[1] + b[2 + b[1]] {
        Err(AuthError::Truncated)
    } else {
        let ulen = b[1] as int;
        let plen = b[2 + ulen] as int;
        Ok((b.subrange(2, 2 + ulen), b.subrange(3 + ulen, 3 + ulen + plen), (3 + ulen + plen) as nat))
    }
}

/// The two-byte auth reply with `status`.
pub open spec fn auth_frame(status: u8) -> Seq<u8> {
    seq![AUTH_VERSION, status]
}

/// What one round of sub-negotiation does with the bytes `b`, against the
/// configured `name` and `pass`: bytes consumed, reply bytes and result.
/// A frame that cannot be decoded consumes and answers nothing; a decoded one
/// is answered with exactly one two-byte frame, success or failure.
pub open spec fn auth_outcome(b: Seq<u8>, name: Seq<u8>, pass: Seq<u8>) -> (
    nat,
    Seq<u8>,
    Result<(), AuthError>,
) {
    match decode_auth(b) {
        Err(e) => (0, Seq::empty(), Err(e)),
        Ok((u, p, n)) => if u == name && p == pass {
            (n, auth_frame(AUTH_SUCCESS), Ok(()))
        } else {
            (n, auth_frame(AUTH_FAILURE), Err(AuthError::BadCredentials))
        },
    }
}

/// The result of one round of sub-negotiation.
#[derive(Debug)]
pub struct AuthStep {
    /// How many input bytes the auth request took.
    pub consumed: usize,
    /// The frame to write back, empty when none is owed.
    pub reply: Vec<u8>,
    pub result: Result<(), AuthError>,
}

/// Whether `a` and `b` hold the same bytes.
fn bytes_equal(a: &[u8], b: &[u8]) -> (r: bool)
    ensures
        r == (a@ == b@),
{
    if a.len() != b.len() {
        return false;
    }
    let mut i: usize = 0;
    while i < a.len()
        invariant
            a@.len() == b@.len(),
            i <= a@.len(),
            forall|j: int| 0 <= j < i ==> a@[j] == b@[j],
        decreases a@.len() - i,
    {
        if a[i] != b[i] {
            return false;
        }
        i = i + 1;
    }
    assert(a@ =~= b@);
    true
}

/// Builds the two-byte auth reply with `status`.
fn encode_auth_reply(status: u8) -> (r: Vec<u8>)
    ensures
        r@ == auth_frame(status),
{
    let mut r: Vec<u8> = Vec::new();
    r.push(AUTH_VERSION);
    r.push(status);
    assert(r@ =~= auth_frame(status));
    r
}

/// Reads the username/password request at the front of `input`, compares it
/// byte for byte with `user_config`, and says what to write back. A failure
/// to match is answered with the failure frame before the error is returned.
/// The comparison is not constant-time.
pub fn perform_password_auth(input: &[u8], user_config: &UserConfig) -> (r: AuthStep)
    ensures
        (r.consumed as nat, r.reply@, r.result) == auth_outcome(
            input@,
            user_config.name_bytes(),
            user_config.pass_bytes(),
        ),
{
    if input.len() < 1 {
        return AuthStep { consumed: 0, reply: Vec::new(), result: Err(AuthError::Truncated) };
    }
    if input[0] != AUTH_VERSION {
        return AuthStep {
            consumed: 0,
            reply: Vec::new(),
            result: Err(AuthError::UnsupportedVersion),
        };
    }
    if input.len() < 2 || input.len() < 3 + input[1] as usize {
        return AuthStep { consumed: 0, reply: Vec::new(), result: Err(AuthError::Truncated) };
    }
    let ulen = input[1] as usize;
    let plen = input[2 + ulen] as usize;
    if input.len() < 3 + ulen + plen {
        return AuthStep { consumed: 0, reply: Vec::new(), result: Err(AuthError::Truncated) };
    }
    let name = user_config.username.as_str().as_bytes();
    let pass = user_config.password.as_str().as_bytes();
    let same_name = bytes_equal(slice_range(input, 2, 2 + ulen), name);
    let same_pass = bytes_equal(slice_range(input, 3 + ulen, 3 + ulen + plen), pass);
    let consumed = 3 + ulen + plen;
    if same_name && same_pass {
        AuthStep { consumed, reply: encode_auth_reply(AUTH_SUCCESS), result: Ok(()) }
    } else {
        AuthStep {
            consumed,
            reply: encode_auth_reply(AUTH_FAILURE),
            result: Err(AuthError::BadCredentials),
        }
    }
}

/// The same sub-negotiation against a username and password given directly.
pub fn auth(input: &[u8], password: &str, username: &str) -> (r: AuthStep)
    ensures
        (r.consumed as nat, r.reply@, r.result) == auth_outcome(
            input@,
            encode_utf8(username@),
            encode_utf8(password@),
        ),
{
    let user_config = UserConfig { username: username.to_owned(), password: password.to_owned() };
    perform_password_auth(input, &user_config)
}

/// The part `b[start..end]`.
fn slice_range(b: &[u8], start: usize, end: usize) -> (r: &[u8])
    requires
        start <= end <= b@.len(),
    ensures
        r@ == b@.subrange(start as int, end as int),
{
    let (front, _) = b.split_at(end);
    let (_, part) = front.split_at(start);
    part
}

} // verus!
