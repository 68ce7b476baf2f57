use vstd::prelude::*;
use vstd::utf8::{decode_utf8, encode_utf8, encode_utf8_decode_utf8, valid_utf8};

use crate::decimal::{
    decimal, digit_run, digits_value, is_digit, lemma_decimal, lemma_digit_run_of_prefix,
    leading_number, push_decimal,
};

verus! {

/// How long a session token stays valid: seven days, in seconds.
pub const SESSION_SECONDS: u64 = 604800;

/// Length in bytes of the symmetric session key.
pub const KEY_LEN: usize = 32;

/// ASCII `'|'`, which ends the expiry field of the claims payload.
pub const SEPARATOR: u8 = 124;

#[derive(PartialEq, Eq, Structural, Clone, Copy, Debug)]
pub enum TokenError {
    /// The token does not open under the key, or its claims cannot be read.
    Malformed,
    /// The claims were read, and their expiry is not after the given time.
    Expired,
}

/// What a v4.local token opens to under a key, if anything.
pub uninterp spec fn opened(key: Seq<u8>, token: Seq<char>) -> Option<Seq<u8>>;

/// Relies on pasetors' `UntrustedToken::try_from` and `version4::LocalToken::decrypt`
/// (no footer, no implicit assertion): the payload that a token opens to under a
/// key, which depends on the two alone.
#[verifier::external_body]
fn open_local(key: &[u8], token: &str) -> (r: Option<Vec<u8>>)
    requires
        key@.len() == KEY_LEN,
    ensures
        match r {
            Some(p) => opened(key@, token@) == Some(p@),
            None => opened(key@, token@) is None,
        },
{
    let sk = pasetors::keys::SymmetricKey::<pasetors::version4::V4>::from(key).ok()?;
    let untrusted = pasetors::token::UntrustedToken::<
        pasetors::Local,
        pasetors::version4::V4,
    >::try_from(token).ok()?;
    let trusted = pasetors::version4::LocalToken::decrypt(&sk, &untrusted, None, None).ok()?;
    Some(trusted.payload().as_bytes().to_vec())
}

/// Relies on pasetors' `version4::LocalToken::encrypt` (no footer, no implicit
/// assertion): the token it returns opens under the same key to the message,
/// when the message is UTF-8 as a PASETO payload must be. Its nonce is random.
#[verifier::external_body]
fn seal_local(key: &[u8], message: &[u8]) -> (r: Option<String>)
    requires
        key@.len() == KEY_LEN,
    ensures
        r matches Some(t) ==> (valid_utf8(message@) ==> opened(key@, t@) == Some(message@)),
{
    let sk = pasetors::keys::SymmetricKey::<pasetors::version4::V4>::from(key).ok()?;
    pasetors::version4::LocalToken::encrypt(&sk, message, None, None).ok()
}

/// Relies on `String::from_utf8`: it succeeds exactly on valid UTF-8 and keeps the bytes.
#[verifier::external_body]
pub(crate) fn utf8_string(bytes: Vec<u8>) -> (r: Option<String>)
    ensures
        r is Some <==> valid_utf8(bytes@),
        r matches Some(s) ==> encode_utf8(s@) == bytes@,
{
    String::from_utf8(bytes).ok()
}

/// Relies on `std::time::SystemTime::now` and chrono's
/// `DateTime<Utc>::from(SystemTime)` then `timestamp()`: the current time in
/// seconds since the Unix epoch, negative for a clock set before it. Nothing
/// is known of its value.
#[verifier::external_body]
pub(crate) fn unix_now() -> (r: i64) {
    chrono::DateTime::<chrono::Utc>::from(std::time::SystemTime::now()).timestamp()
}

/// Relies on `std::time::SystemTime::now` and chrono's
/// `DateTime<Utc>::from(SystemTime)` then `timestamp_millis()`: the current
/// time in milliseconds since the Unix epoch, negative for a clock set before
/// it. Nothing is known of its value.
#[verifier::external_body]
pub(crate) fn unix_now_millis() -> (r: i64) {
    chrono::DateTime::<chrono::Utc>::from(std::time::SystemTime::now()).timestamp_millis()
}

/// The current time in seconds since the Unix epoch; a clock set before the
/// epoch reads as the epoch.
pub fn now_seconds() -> u64 {
    let now = unix_now();
    if now < 0 {
        0
    } else {
        now as u64
    }
}

/// The claims payload sealed into a token: the expiry in decimal seconds since
/// the epoch, `'|'`, then the username's UTF-8 bytes.
pub open spec fn claims_payload(expires_at: nat, name: Seq<u8>) -> Seq<u8> {
    decimal(expires_at) + seq![SEPARATOR] + name
}

/// Reads an expiry and a username's bytes back from a payload.
pub open spec fn read_claims(p: Seq<u8>) -> Option<(nat, Seq<u8>)> {
    let k = digit_run(p);
    if 0 < k < p.len() && p[k as int] == SEPARATOR {
        Some((digits_value(p.subrange(0, k as int)), p.subrange(k as int + 1, p.len() as int)))
    } else {
        None
    }
}

/// The outcome of validating a token that opened to `payload`, at time `now`:
/// the username's bytes, or why the token is refused.
pub open spec fn validation(payload: Option<Seq<u8>>, now: nat) -> Result<Seq<u8>, TokenError> {
    match payload {
        None => Err(TokenError::Malformed),
        Some(p) => match read_claims(p) {
            None => Err(TokenError::Malformed),
            Some((expires_at, name)) => if expires_at > u64::MAX || name.len() == 0
                || !valid_utf8(name) {
                Err(TokenError::Malformed)
            } else if expires_at <= now {
                Err(TokenError::Expired)
            } else {
                Ok(name)
            },
        },
    }
}

/// Issues and validates session tokens under one symmetric key.
pub struct TokenService {
    key: Vec<u8>,
}

impl TokenService {
    #[verifier::type_invariant]
    spec fn key_fits(&self) -> bool {
        self.key@.len() == KEY_LEN
    }

    /// The key that tokens are sealed with.
    pub closed spec fn key_bytes(&self) -> Seq<u8> {
        self.key@
    }

    /// A service for `key`, which must be 32 bytes long.
    pub fn new(key: &[u8]) -> (r: Option<TokenService>)
        ensures
            r is Some <==> key@.len() == KEY_LEN,
            r matches Some(s) ==> s.key_bytes() == key@,
    {
        if key.len() == KEY_LEN {
            Some(TokenService { key: vstd::slice::slice_to_vec(key) })
        } else {
            None
        }
    }

    /// A token for `username` that expires `SESSION_SECONDS` after `now`.
    pub fn issue_at(&self, username: &str, now: u64) -> (r: Option<String>)
        requires
            now <= u64::MAX - SESSION_SECONDS,
        ensures
            r matches Some(t) ==> opened(self.key_bytes(), t@) == Some(
                claims_payload((now + SESSION_SECONDS) as nat, encode_utf8(username@)),
            ),
    {
        proof {
            use_type_invariant(self);
        }
        let expires_at: u64 = now + SESSION_SECONDS;
        let mut payload: Vec<u8> = Vec::new();
        push_decimal(expires_at, &mut payload);
        payload.push(SEPARATOR);
        let name = username.as_bytes();
        payload.extend_from_slice(name);
        proof {
            let want = claims_payload(expires_at as nat, encode_utf8(username@));
            assert(payload@ =~= want);
            lemma_payload_is_utf8(expires_at as nat, username@);
        }
        seal_local(self.key.as_slice(), payload.as_slice())
    }

    /// A token for `username` that expires `SESSION_SECONDS` from the current time.
    pub fn issue(&self, username: &str) -> (r: Option<String>)
        ensures
            r matches Some(t) ==> exists|now: nat|
                opened(self.key_bytes(), t@) == Some(
                    #[trigger] claims_payload(now + SESSION_SECONDS as nat, encode_utf8(username@)),
                ),
    {
        let now = now_seconds();
        if now > u64::MAX - SESSION_SECONDS {
            None
        } else {
            self.issue_at(username, now)
        }
    }

    /// The username that `token` carries, if it opens under the key, its claims
    /// can be read and it has not expired at `now`.
    pub fn validate_at(&self, token: &str, now: u64) -> (r: Result<String, TokenError>)
        ensures
            r is Ok <==> validation(opened(self.key_bytes(), token@), now as nat) is Ok,
            r matches Ok(u) ==> validation(opened(self.key_bytes(), token@), now as nat) == Ok::<
                Seq<u8>,
                TokenError,
            >(encode_utf8(u@)),
            r matches Err(e) ==> validation(opened(self.key_bytes(), token@), now as nat) == Err::<
                Seq<u8>,
                TokenError,
            >(e),
    {
        proof {
            use_type_invariant(self);
        }
        let payload = match open_local(self.key.as_slice(), token) {
            Some(p) => p,
            None => {
                return Err(TokenError::Malformed);
            },
        };
        let (k, expires_at) = leading_number(payload.as_slice());
        if k == 0 || k >= payload.len() || payload[k] != SEPARATOR {
            return Err(TokenError::Malformed);
        }
        let mut name = payload;
        let rest = name.split_off(k + 1);
        let expires_at = match expires_at {
            Some(e) => e,
            None => {
                return Err(TokenError::Malformed);
            },
        };
        if rest.len() == 0 {
            return Err(TokenError::Malformed);
        }
        let username = match utf8_string(rest) {
            Some(u) => u,
            None => {
                return Err(TokenError::Malformed);
            },
        };
        if expires_at <= now {
            Err(TokenError::Expired)
        } else {
            Ok(username)
        }
    }

    /// `validate_at` the current time.
    pub fn validate(&self, token: &str) -> (r: Result<String, TokenError>)
        ensures
            r matches Ok(u) ==> exists|now: nat|
                #[trigger] validation(opened(self.key_bytes(), token@), now) == Ok::<
                    Seq<u8>,
                    TokenError,
                >(encode_utf8(u@)),
            r matches Err(e) ==> exists|now: nat|
                #[trigger] validation(opened(self.key_bytes(), token@), now) == Err::<
                    Seq<u8>,
                    TokenError,
                >(e),
    {
        self.validate_at(token, now_seconds())
    }
}

/// A token that opens to the claims of `username` with expiry `expires_at`
/// validates, at any time before `expires_at`, to exactly that username, and
/// from `expires_at` on to `Expired`.
pub proof fn law_issued_token_validates(
    key: Seq<u8>,
    token: Seq<char>,
    username: Seq<char>,
    expires_at: nat,
    now: nat,
)
    requires
        opened(key, token) == Some(claims_payload(expires_at, encode_utf8(username))),
        expires_at <= u64::MAX,
        username.len() > 0,
    ensures
        now < expires_at ==> validation(opened(key, token), now) == Ok::<Seq<u8>, TokenError>(
            encode_utf8(username),
        ),
        now >= expires_at ==> validation(opened(key, token), now) == Err::<Seq<u8>, TokenError>(
            TokenError::Expired,
        ),
        forall|name: Seq<char>|
            validation(opened(key, token), now) == Ok::<Seq<u8>, TokenError>(
                #[trigger] encode_utf8(name),
            ) ==> name == username,
{
    lemma_read_claims_of_payload(expires_at, encode_utf8(username));
    vstd::utf8::encode_utf8_valid_utf8(username);
    encode_utf8_decode_utf8(username);
    if encode_utf8(username).len() == 0 {
        assert(encode_utf8(username) =~= Seq::<u8>::empty());
        assert(decode_utf8(Seq::<u8>::empty()) == Seq::<char>::empty());
    }
    assert forall|name: Seq<char>|
        validation(opened(key, token), now) == Ok::<Seq<u8>, TokenError>(
            #[trigger] encode_utf8(name),
        ) implies name == username by {
        encode_utf8_decode_utf8(name);
    }
}

/// The claims written into a payload are read back unchanged.
pub proof fn lemma_read_claims_of_payload(expires_at: nat, name: Seq<u8>)
    ensures
        read_claims(claims_payload(expires_at, name)) == Some((expires_at, name)),
{
    let d = decimal(expires_at);
    let rest = seq![SEPARATOR] + name;
    let p = claims_payload(expires_at, name);
    lemma_decimal(expires_at);
    assert(p =~= d + rest);
    lemma_digit_run_of_prefix(d, rest);
    assert(p.subrange(0, d.len() as int) =~= d);
    assert(p.subrange(d.len() as int + 1, p.len() as int) =~= name);
}

proof fn lemma_payload_is_utf8(expires_at: nat, name: Seq<char>)
    ensures
        valid_utf8(claims_payload(expires_at, encode_utf8(name))),
{
    broadcast use vstd::utf8::encode_utf8_valid_utf8, vstd::utf8::valid_utf8_concat;

    let head = decimal(expires_at) + seq![SEPARATOR];
    lemma_decimal(expires_at);
    assert forall|i: int| 0 <= i < head.len() implies #[trigger] head[i] < 128 by {
        if i < head.len() - 1 {
            assert(is_digit(decimal(expires_at)[i]));
        }
    }
    let chars = Seq::new(head.len(), |i: int| head[i] as char);
    assert(vstd::utf8::is_ascii_chars(chars));
    vstd::utf8::is_ascii_chars_encode_utf8(chars);
    assert(encode_utf8(chars) =~= head);
    assert(claims_payload(expires_at, encode_utf8(name)) =~= encode_utf8(chars) + encode_utf8(
        name,
    ));
}

} // verus!
