use vstd::prelude::*;
use vstd::utf8::{decode_utf8, encode_utf8, encode_utf8_decode_utf8};

use crate::cache::UserCache;
use crate::model::{
    chosen_avatar_url, chosen_display_name, credentials_fit, credentials_valid, opt_view,
    public_of, APISafe, CreateUser, DBUser, LoginUser, User, UserView,
};
use crate::password::{lemma_chars_at_most_bytes, password_matches, phc_readable, verify_password};
use crate::token::{
    claims_payload, opened, validation, TokenError, TokenService, SESSION_SECONDS,
};

verus! {

/// The identity a request carries: a user, or nobody.
pub struct AuthUser(pub Option<User>);

impl AuthUser {
    pub fn new(user: Option<User>) -> (r: AuthUser)
        ensures
            r.0 == user,
    {
        AuthUser(user)
    }
}

/// Why a registration, login or logout is refused.
#[derive(PartialEq, Eq, Structural, Clone, Copy, Debug)]
pub enum AuthError {
    /// A username or password of unacceptable length.
    Validation,
    /// The username is taken.
    Conflict,
    /// The password does not verify against the stored hash.
    CredentialMismatch,
    /// No account has that username.
    NotFound,
    /// The user store failed.
    StoreUnavailable,
    /// Sealing a session token failed.
    Internal,
    /// There is no session to end.
    Unauthorized,
}

/// A failure reported by the user store.
#[derive(PartialEq, Eq, Structural, Clone, Copy, Debug)]
pub enum StoreError {
    Unavailable,
}

/// Decides a registration once the store has been asked for the username:
/// the record to insert, or why there is none.
pub fn register_user(req: &CreateUser, existing: &Result<Option<DBUser>, StoreError>) -> (r:
    Result<DBUser, AuthError>)
    ensures
        !credentials_fit(req.username@, req.password@) ==> r == Err::<DBUser, AuthError>(
            AuthError::Validation,
        ),
        credentials_fit(req.username@, req.password@) ==> match existing {
            Err(_) => r == Err::<DBUser, AuthError>(AuthError::StoreUnavailable),
            Ok(Some(_)) => r == Err::<DBUser, AuthError>(AuthError::Conflict),
            Ok(None) => r is Ok,
        },
        r matches Ok(u) ==> {
            &&& u.id is None
            &&& u.username@ == req.username@
            &&& u.display_name@ == chosen_display_name(req.username@, opt_view(req.display_name))
            &&& opt_view(u.avatar_url) == chosen_avatar_url(opt_view(req.avatar_url))
            &&& password_matches(req.password@, u.password_hash@)
            &&& phc_readable(u.password_hash@)
            &&& u.password_hash@ != req.password@
            &&& u.salt@.len() == 22
        },
{
    if !credentials_valid(req.username.as_str(), req.password.as_str()) {
        return Err(AuthError::Validation);
    }
    match existing {
        Err(_) => Err(AuthError::StoreUnavailable),
        Ok(Some(_)) => Err(AuthError::Conflict),
        Ok(None) => {
            proof {
                lemma_chars_at_most_bytes(req.password@);
            }
            Ok(req.dbuser())
        },
    }
}

/// What a store write during registration means to the caller.
pub fn registration_stored(created: &Result<(), StoreError>) -> (r: Result<(), AuthError>)
    ensures
        created is Ok ==> r is Ok,
        created is Err ==> r == Err::<(), AuthError>(AuthError::StoreUnavailable),
{
    match created {
        Ok(()) => Ok(()),
        Err(_) => Err(AuthError::StoreUnavailable),
    }
}

/// Decides a login at time `now` once the store has been asked for the
/// username: a session token for the username, expiring `SESSION_SECONDS`
/// after `now`, and the public record to write through to the cache, or why
/// the login is refused.
pub fn login_grant(
    tokens: &TokenService,
    req: &LoginUser,
    fetched: &Result<Option<DBUser>, StoreError>,
    now: u64,
) -> (r: Result<(String, User), AuthError>)
    requires
        now <= u64::MAX - SESSION_SECONDS,
    ensures
        !credentials_fit(req.username@, req.password@) ==> r == Err::<(String, User), AuthError>(
            AuthError::Validation,
        ),
        credentials_fit(req.username@, req.password@) ==> match fetched {
            Err(_) => r == Err::<(String, User), AuthError>(AuthError::StoreUnavailable),
            Ok(None) => r == Err::<(String, User), AuthError>(AuthError::NotFound),
            Ok(Some(u)) => if !password_matches(req.password@, u.password_hash@) {
                r == Err::<(String, User), AuthError>(AuthError::CredentialMismatch)
            } else {
                r is Ok || r == Err::<(String, User), AuthError>(AuthError::Internal)
            },
        },
        r matches Ok((t, user)) ==> {
            &&& fetched matches Ok(Some(u)) && user@ == public_of(*u)
            &&& opened(tokens.key_bytes(), t@) == Some(
                claims_payload((now + SESSION_SECONDS) as nat, encode_utf8(req.username@)),
            )
        },
{
    if !credentials_valid(req.username.as_str(), req.password.as_str()) {
        return Err(AuthError::Validation);
    }
    let u = match fetched {
        Err(_) => {
            return Err(AuthError::StoreUnavailable);
        },
        Ok(None) => {
            return Err(AuthError::NotFound);
        },
        Ok(Some(u)) => u,
    };
    if !verify_password(req.password.as_str(), u.password_hash.as_str()) {
        return Err(AuthError::CredentialMismatch);
    }
    match tokens.issue_at(req.username.as_str(), now) {
        Some(t) => Ok((t, u.public())),
        None => Err(AuthError::Internal),
    }
}

/// `login_grant`, with the public record written through to `cache`.
pub fn login_user(
    tokens: &TokenService,
    cache: &mut UserCache,
    req: &LoginUser,
    fetched: &Result<Option<DBUser>, StoreError>,
    now: u64,
) -> (r: Result<String, AuthError>)
    requires
        old(cache).wf(),
        now <= u64::MAX - SESSION_SECONDS,
    ensures
        final(cache).wf(),
        !credentials_fit(req.username@, req.password@) ==> r == Err::<String, AuthError>(
            AuthError::Validation,
        ),
        credentials_fit(req.username@, req.password@) ==> match fetched {
            Err(_) => r == Err::<String, AuthError>(AuthError::StoreUnavailable),
            Ok(None) => r == Err::<String, AuthError>(AuthError::NotFound),
            Ok(Some(u)) => if !password_matches(req.password@, u.password_hash@) {
                r == Err::<String, AuthError>(AuthError::CredentialMismatch)
            } else {
                r is Ok || r == Err::<String, AuthError>(AuthError::Internal)
            },
        },
        r matches Ok(t) ==> {
            &&& fetched matches Ok(Some(u))
            &&& final(cache)@ == old(cache)@.insert(u.username@, public_of(*u))
            &&& opened(tokens.key_bytes(), t@) == Some(
                claims_payload((now + SESSION_SECONDS) as nat, encode_utf8(req.username@)),
            )
        },
        r is Err ==> final(cache)@ == old(cache)@,
{
    match login_grant(tokens, req, fetched, now) {
        Ok((token, user)) => {
            cache.put(user);
            Ok(token)
        },
        Err(e) => Err(e),
    }
}

/// Where resolving a session stands after the token and the cache were consulted.
pub enum SessionStep {
    /// The identity is known.
    Done(AuthUser),
    /// The token is valid but the cache misses: the store must be asked for this username.
    Fetch(String),
}

/// What the token and the cache say of a session, as a view.
pub enum Lookup {
    Anonymous,
    Cached(UserView),
    Miss(Seq<char>),
}

/// What the token check and the cache say of a session: anonymous when the
/// token is refused, else the cached record or a miss for the username.
pub open spec fn lookup(cache: Map<Seq<char>, UserView>, checked: Result<Seq<u8>, TokenError>) -> Lookup {
    match checked {
        Err(_) => Lookup::Anonymous,
        Ok(name) => if cache.contains_key(decode_utf8(name)) {
            Lookup::Cached(cache[decode_utf8(name)])
        } else {
            Lookup::Miss(decode_utf8(name))
        },
    }
}

/// The username a request's token carries at time `now`: none without a
/// token or when the token is refused.
pub fn session_username(tokens: &TokenService, token: Option<&str>, now: u64) -> (r: Option<
    String,
>)
    ensures
        token is None ==> r is None,
        token matches Some(t) ==> match validation(opened(tokens.key_bytes(), t@), now as nat) {
            Err(_) => r is None,
            Ok(name) => r matches Some(u) && u@ == decode_utf8(name),
        },
{
    match token {
        None => None,
        Some(t) => match tokens.validate_at(t, now) {
            Err(_) => None,
            Ok(username) => {
                proof {
                    encode_utf8_decode_utf8(username@);
                }
                Some(username)
            },
        },
    }
}

/// What a cache lookup for a token's username decides: a hit is the
/// identity, a miss asks for a store read.
pub fn cached_identity(cached: Option<User>, username: String) -> (r: SessionStep)
    ensures
        cached is Some ==> (r matches SessionStep::Done(a) && a.0 == cached),
        cached is None ==> (r matches SessionStep::Fetch(f) && f == username),
{
    match cached {
        Some(user) => SessionStep::Done(AuthUser::new(Some(user))),
        None => SessionStep::Fetch(username),
    }
}

/// What a store read after a cache miss decides: the public record of a found
/// account, or anonymous for a missing account or a store failure.
pub fn fetched_identity(fetched: &Result<Option<DBUser>, StoreError>) -> (r: AuthUser)
    ensures
        fetched matches Ok(Some(u)) ==> (r.0 matches Some(x) && x@ == public_of(*u)),
        !(fetched is Ok && fetched->Ok_0 is Some) ==> r.0 is None,
{
    match fetched {
        Ok(Some(u)) => AuthUser::new(Some(u.public())),
        _ => AuthUser::new(None),
    }
}

/// The first half of resolving a session at time `now` against `cache`: no
/// token or a refused one is anonymous; a valid one is answered from the
/// cache, or asks for a store read on a miss.
pub fn resolve_start(tokens: &TokenService, cache: &UserCache, token: Option<&str>, now: u64) -> (r:
    SessionStep)
    requires
        cache.wf(),
    ensures
        token is None ==> (r matches SessionStep::Done(a) && a.0 is None),
        token matches Some(t) ==> match lookup(
            cache@,
            validation(opened(tokens.key_bytes(), t@), now as nat),
        ) {
            Lookup::Anonymous => (r matches SessionStep::Done(a) && a.0 is None),
            Lookup::Cached(v) => (r matches SessionStep::Done(a) && (a.0 matches Some(x) && x@
                == v)),
            Lookup::Miss(name) => (r matches SessionStep::Fetch(f) && f@ == name),
        },
        r matches SessionStep::Done(a) ==> (a.0 matches Some(x) ==> (token matches Some(t)
            && validation(opened(tokens.key_bytes(), t@), now as nat) matches Ok(n)
            && x.username@ == decode_utf8(n))),
{
    match session_username(tokens, token, now) {
        None => SessionStep::Done(AuthUser::new(None)),
        Some(username) => {
            let cached = cache.get(&username);
            cached_identity(cached, username)
        },
    }
}

/// The second half of resolving a session against `cache`, after a miss: a
/// record the store found is cached and becomes the identity; a missing
/// account or a store failure resolves to anonymous.
pub fn resolve_finish(cache: &mut UserCache, fetched: &Result<Option<DBUser>, StoreError>) -> (r:
    AuthUser)
    requires
        old(cache).wf(),
    ensures
        final(cache).wf(),
        fetched matches Ok(Some(u)) ==> {
            &&& r.0 matches Some(x) && x@ == public_of(*u)
            &&& final(cache)@ == old(cache)@.insert(u.username@, public_of(*u))
        },
        !(fetched is Ok && fetched->Ok_0 is Some) ==> r.0 is None && final(cache)@ == old(cache)@,
{
    let who = fetched_identity(fetched);
    match &who.0 {
        Some(user) => cache.put(user.duplicate()),
        None => {},
    }
    who
}

/// The username whose cache entry a logout drops. Without a user there is
/// no session to end.
pub fn logout_target(user: &AuthUser) -> (r: Result<String, AuthError>)
    ensures
        user.0 matches Some(u) ==> (r matches Ok(n) && n@ == u.username@),
        user.0 is None ==> r == Err::<String, AuthError>(AuthError::Unauthorized),
{
    match &user.0 {
        Some(u) => Ok(u.username.clone()),
        None => Err(AuthError::Unauthorized),
    }
}

/// Ends the session of `user` by dropping its entry from `cache`.
pub fn logout(cache: &mut UserCache, user: &AuthUser) -> (r: Result<(), AuthError>)
    requires
        old(cache).wf(),
    ensures
        final(cache).wf(),
        user.0 matches Some(u) ==> r is Ok && final(cache)@ == old(cache)@.remove(u.username@),
        user.0 is None ==> r == Err::<(), AuthError>(AuthError::Unauthorized) && final(cache)@
            == old(cache)@,
{
    match logout_target(user) {
        Ok(username) => {
            cache.evict(&username);
            Ok(())
        },
        Err(e) => Err(e),
    }
}

/// Cache-aside: once a miss has been answered by a store read of the record
/// for that username, the same token is answered from the cache with that
/// very record, so the store is not read again.
pub proof fn law_miss_then_hit(
    cache: Map<Seq<char>, UserView>,
    checked: Result<Seq<u8>, TokenError>,
    record: DBUser,
)
    requires
        lookup(cache, checked) == Lookup::Miss(record.username@),
    ensures
        lookup(cache.insert(record.username@, public_of(record)), checked) == Lookup::Cached(
            public_of(record),
        ),
{
}

} // verus!
