use session_auth::auth::{
    login_user, logout, register_user, registration_stored, resolve_finish, resolve_start,
    AuthError, AuthUser, SessionStep, StoreError,
};
use session_auth::cache::UserCache;
use session_auth::decimal::{leading_number, push_decimal};
use session_auth::model::{credentials_valid, APISafe, CreateUser, DBUser, LoginUser, User};
use session_auth::password::{hash_password, verify_password};
use session_auth::token::{now_seconds, TokenError, TokenService, SESSION_SECONDS};

const KEY: &[u8; 32] = b"0123456789abcdef0123456789abcdef";

/// A stand-in for the durable store, counting its reads.
struct MemoryStore {
    records: Vec<DBUser>,
    reads: usize,
}

impl MemoryStore {
    fn new() -> Self {
        MemoryStore { records: Vec::new(), reads: 0 }
    }

    fn fetch_user(&mut self, username: &str) -> Result<Option<DBUser>, StoreError> {
        self.reads += 1;
        Ok(self
            .records
            .iter()
            .find(|r| r.username == username)
            .map(copy_record))
    }

    fn create_user(&mut self, mut record: DBUser) -> Result<(), StoreError> {
        record.id = Some(format!("id{}", self.records.len()));
        self.records.push(record);
        Ok(())
    }
}

fn copy_record(r: &DBUser) -> DBUser {
    DBUser {
        id: r.id.clone(),
        created_at: r.created_at,
        username: r.username.clone(),
        display_name: r.display_name.clone(),
        avatar_url: r.avatar_url.clone(),
        password_hash: r.password_hash.clone(),
        salt: r.salt.clone(),
    }
}

fn create(username: &str, password: &str) -> CreateUser {
    CreateUser {
        username: username.to_string(),
        password: password.to_string(),
        display_name: None,
        avatar_url: None,
    }
}

fn login_req(username: &str, password: &str) -> LoginUser {
    LoginUser { username: username.to_string(), password: password.to_string() }
}

fn service() -> TokenService {
    TokenService::new(KEY).expect("32-byte key")
}

fn register(store: &mut MemoryStore, req: &CreateUser) -> Result<(), AuthError> {
    let existing = store.fetch_user(&req.username);
    let record = register_user(req, &existing)?;
    let created = store.create_user(record);
    registration_stored(&created)
}

fn resolve(
    tokens: &TokenService,
    cache: &mut UserCache,
    store: &mut MemoryStore,
    token: Option<&str>,
    now: u64,
) -> AuthUser {
    match resolve_start(tokens, cache, token, now) {
        SessionStep::Done(user) => user,
        SessionStep::Fetch(username) => {
            let fetched = store.fetch_user(&username);
            resolve_finish(cache, &fetched)
        }
    }
}

fn stored_user(username: &str) -> DBUser {
    DBUser {
        id: Some("abc123".to_string()),
        created_at: 1_700_000_000_123,
        username: username.to_string(),
        display_name: "Bob B".to_string(),
        avatar_url: Some("http://x/y.png".to_string()),
        password_hash: "not-a-hash".to_string(),
        salt: "s".to_string(),
    }
}

#[test]
fn auth_user_new_keeps_user() {
    assert!(AuthUser::new(None).0.is_none());
    let u = stored_user("bob").public();
    let a = AuthUser::new(Some(u));
    assert_eq!(a.0.unwrap().username, "bob");
}

#[test]
fn hash_then_verify_accepts_same_password_only() {
    let h = hash_password("hunter22");
    assert!(h.hash.starts_with("$argon2"));
    assert!(h.hash.contains(&h.salt));
    assert!(verify_password("hunter22", &h.hash));
    assert!(!verify_password("wrong1", &h.hash));
    assert!(!verify_password("hunter2", &h.hash));
}

#[test]
fn verify_rejects_corrupt_hash() {
    assert!(!verify_password("hunter22", "not a phc string"));
    assert!(!verify_password("hunter22", ""));
}

#[test]
fn two_hashes_of_one_password_differ_in_salt() {
    let a = hash_password("hunter22");
    let b = hash_password("hunter22");
    assert_ne!(a.salt, b.salt);
    assert_ne!(a.hash, b.hash);
}

#[test]
fn key_must_be_32_bytes() {
    assert!(TokenService::new(b"short").is_none());
    assert!(TokenService::new(&[7u8; 33]).is_none());
    assert!(TokenService::new(&[7u8; 32]).is_some());
}

#[test]
fn issued_token_validates_until_expiry() {
    let tokens = service();
    let now: u64 = 1_700_000_000;
    let t = tokens.issue_at("alice", now).expect("token");
    assert!(t.starts_with("v4.local."));
    assert_eq!(tokens.validate_at(&t, now), Ok("alice".to_string()));
    assert_eq!(tokens.validate_at(&t, now + SESSION_SECONDS - 1), Ok("alice".to_string()));
    assert_eq!(tokens.validate_at(&t, now + SESSION_SECONDS), Err(TokenError::Expired));
    assert_eq!(tokens.validate_at(&t, u64::MAX), Err(TokenError::Expired));
}

#[test]
fn issued_token_keeps_non_ascii_username() {
    let tokens = service();
    let t = tokens.issue_at("zoë|x", 5).expect("token");
    assert_eq!(tokens.validate_at(&t, 6), Ok("zoë|x".to_string()));
}

#[test]
fn issue_uses_current_time() {
    let tokens = service();
    let t = tokens.issue("alice").expect("token");
    assert_eq!(tokens.validate(&t), Ok("alice".to_string()));
    let now = now_seconds();
    assert_eq!(tokens.validate_at(&t, now + SESSION_SECONDS + 10), Err(TokenError::Expired));
}

#[test]
fn seven_days_is_the_window() {
    assert_eq!(SESSION_SECONDS, 7 * 24 * 60 * 60);
}

#[test]
fn tampered_token_is_malformed() {
    let tokens = service();
    let t = tokens.issue_at("alice", 1_700_000_000).expect("token");
    let mut bytes = t.clone().into_bytes();
    let i = bytes.len() / 2;
    bytes[i] = if bytes[i] == b'A' { b'B' } else { b'A' };
    let tampered = String::from_utf8(bytes).unwrap();
    assert_ne!(tampered, t);
    assert_eq!(tokens.validate_at(&tampered, 1_700_000_000), Err(TokenError::Malformed));
}

#[test]
fn token_under_other_key_is_malformed() {
    let t = service().issue_at("alice", 10).expect("token");
    let other = TokenService::new(&[9u8; 32]).unwrap();
    assert_eq!(other.validate_at(&t, 11), Err(TokenError::Malformed));
}

#[test]
fn garbage_token_is_malformed() {
    let tokens = service();
    assert_eq!(tokens.validate_at("", 0), Err(TokenError::Malformed));
    assert_eq!(tokens.validate_at("v4.local.AAAA", 0), Err(TokenError::Malformed));
    assert_eq!(tokens.validate_at("hello", 0), Err(TokenError::Malformed));
}

#[test]
fn token_without_username_is_malformed() {
    let tokens = service();
    let t = tokens.issue_at("", 10).expect("token");
    assert_eq!(tokens.validate_at(&t, 11), Err(TokenError::Malformed));
}

#[test]
fn decimal_round_trip_values() {
    let mut out = Vec::new();
    push_decimal(0, &mut out);
    assert_eq!(out, b"0".to_vec());
    let mut out = b"x".to_vec();
    push_decimal(1_700_604_800, &mut out);
    assert_eq!(out, b"x1700604800".to_vec());
    let mut out = Vec::new();
    push_decimal(u64::MAX, &mut out);
    assert_eq!(out, b"18446744073709551615".to_vec());
    assert_eq!(leading_number(b"18446744073709551615|a"), (20, Some(u64::MAX)));
    assert_eq!(leading_number(b"18446744073709551616|a"), (20, None));
    assert_eq!(leading_number(b"042x"), (3, Some(42)));
    assert_eq!(leading_number(b"|a"), (0, Some(0)));
    assert_eq!(leading_number(b""), (0, Some(0)));
}

#[test]
fn credential_lengths() {
    assert!(credentials_valid("al", "12345"));
    assert!(credentials_valid("a".repeat(20).as_str(), &"p".repeat(20)));
    assert!(!credentials_valid("a", "12345"));
    assert!(!credentials_valid(&"a".repeat(21), "12345"));
    assert!(!credentials_valid("alice", "1234"));
    assert!(!credentials_valid("alice", &"p".repeat(21)));
    // lengths are in bytes: ten two-byte characters fit, eleven do not
    assert!(credentials_valid(&"é".repeat(10), "12345"));
    assert!(!credentials_valid(&"é".repeat(11), "12345"));
}

#[test]
fn record_display_name_and_avatar_rules() {
    let mut req = create("alice", "hunter22");
    let r = req.record(5, "h".to_string(), "s".to_string());
    assert_eq!(r.display_name, "alice");
    assert!(r.avatar_url.is_none());
    assert!(r.id.is_none());
    assert_eq!(r.created_at, 5);
    req.display_name = Some(String::new());
    req.avatar_url = Some(String::new());
    let r = req.record(5, "h".to_string(), "s".to_string());
    assert_eq!(r.display_name, "alice");
    assert!(r.avatar_url.is_none());
    req.display_name = Some("x".repeat(21));
    assert_eq!(req.record(5, "h".to_string(), "s".to_string()).display_name, "alice");
    req.display_name = Some("Alice A".to_string());
    req.avatar_url = Some("http://a/b.png".to_string());
    let r = req.record(5, "h".to_string(), "s".to_string());
    assert_eq!(r.display_name, "Alice A");
    assert_eq!(r.avatar_url.as_deref(), Some("http://a/b.png"));
    assert_eq!(r.password_hash, "h");
    assert_eq!(r.salt, "s");
}

#[test]
fn dbuser_hashes_the_password() {
    let req = create("alice", "hunter22");
    let r = req.dbuser();
    assert_eq!(r.username, "alice");
    assert!(verify_password("hunter22", &r.password_hash));
    assert!(r.password_hash.contains(&r.salt));
    // creation time is in milliseconds: later than 2020-01-01 counted in ms
    assert!(r.created_at > 1_577_836_800_000);
}

#[test]
fn register_succeeds_for_free_username() {
    let req = create("dave", "secret1");
    let rec = register_user(&req, &Ok(None)).expect("registered");
    assert_eq!(rec.username, "dave");
    assert_eq!(rec.display_name, "dave");
    assert!(verify_password("secret1", &rec.password_hash));
    assert!(!verify_password("secret2", &rec.password_hash));
}

#[test]
fn public_projection_drops_secrets() {
    let p: User = stored_user("bob").public();
    assert_eq!(p.id, "abc123");
    assert_eq!(p.created_at, 1_700_000_000_123);
    assert_eq!(p.username, "bob");
    assert_eq!(p.display_name, "Bob B");
    assert_eq!(p.avatar_url.as_deref(), Some("http://x/y.png"));
}

#[test]
fn register_errors() {
    let mut store = MemoryStore::new();
    assert_eq!(register(&mut store, &create("a", "hunter22")), Err(AuthError::Validation));
    assert_eq!(register(&mut store, &create("alice", "1234")), Err(AuthError::Validation));
    assert_eq!(
        register_user(&create("alice", "hunter22"), &Err(StoreError::Unavailable)).err(),
        Some(AuthError::StoreUnavailable)
    );
    assert_eq!(registration_stored(&Err(StoreError::Unavailable)), Err(AuthError::StoreUnavailable));
    assert_eq!(registration_stored(&Ok(())), Ok(()));
}

#[test]
fn login_errors_leave_cache_alone() {
    let tokens = service();
    let mut cache = UserCache::new();
    let req = login_req("bob", "hunter22");
    assert_eq!(
        login_user(&tokens, &mut cache, &login_req("b", "hunter22"), &Ok(None), now_seconds()),
        Err(AuthError::Validation)
    );
    assert_eq!(
        login_user(&tokens, &mut cache, &req, &Err(StoreError::Unavailable), now_seconds()),
        Err(AuthError::StoreUnavailable)
    );
    assert_eq!(login_user(&tokens, &mut cache, &req, &Ok(None), now_seconds()), Err(AuthError::NotFound));
    // a stored hash that does not parse is a mismatch, not a server error
    assert_eq!(
        login_user(&tokens, &mut cache, &req, &Ok(Some(stored_user("bob"))), now_seconds()),
        Err(AuthError::CredentialMismatch)
    );
    assert!(cache.get(&"bob".to_string()).is_none());
}

#[test]
fn resolve_without_or_with_bad_token_is_anonymous() {
    let tokens = service();
    let mut cache = UserCache::new();
    let mut store = MemoryStore::new();
    assert!(resolve(&tokens, &mut cache, &mut store, None, 0).0.is_none());
    assert!(resolve(&tokens, &mut cache, &mut store, Some("junk"), 0).0.is_none());
    let t = tokens.issue_at("alice", 100).unwrap();
    assert!(resolve(&tokens, &mut cache, &mut store, Some(&t), 100 + SESSION_SECONDS).0.is_none());
    assert_eq!(store.reads, 0);
}

#[test]
fn resolve_for_deleted_account_is_anonymous() {
    let tokens = service();
    let mut cache = UserCache::new();
    let mut store = MemoryStore::new();
    let t = tokens.issue_at("ghost", 100).unwrap();
    assert!(resolve(&tokens, &mut cache, &mut store, Some(&t), 101).0.is_none());
    assert_eq!(store.reads, 1);
    assert!(resolve_finish(&mut cache, &Err(StoreError::Unavailable)).0.is_none());
}

#[test]
fn cache_aside_reads_store_once() {
    let tokens = service();
    let mut cache = UserCache::new();
    let mut store = MemoryStore::new();
    store.records.push(stored_user("bob"));
    let t = tokens.issue_at("bob", 100).unwrap();
    let first = resolve(&tokens, &mut cache, &mut store, Some(&t), 101).0.expect("user");
    assert_eq!(store.reads, 1);
    let second = resolve(&tokens, &mut cache, &mut store, Some(&t), 102).0.expect("user");
    assert_eq!(store.reads, 1);
    assert_eq!(first.id, second.id);
    assert_eq!(first.username, second.username);
    assert_eq!(first.display_name, second.display_name);
    assert_eq!(first.created_at, second.created_at);
    assert_eq!(first.avatar_url, second.avatar_url);
    let cached = cache.get(&"bob".to_string()).expect("cached");
    assert_eq!(cached.display_name, "Bob B");
}

#[test]
fn cache_put_get_evict() {
    let mut cache = UserCache::new();
    let key = "bob".to_string();
    assert!(cache.get(&key).is_none());
    cache.put(stored_user("bob").public());
    let mut newer = stored_user("bob");
    newer.display_name = "Robert".to_string();
    cache.put(newer.public());
    cache.put(stored_user("carol").public());
    assert_eq!(cache.get(&key).unwrap().display_name, "Robert");
    cache.evict(&key);
    assert!(cache.get(&key).is_none());
    assert!(cache.get(&"carol".to_string()).is_some());
}

#[test]
fn logout_is_idempotent() {
    let mut cache = UserCache::new();
    cache.put(stored_user("bob").public());
    let user = AuthUser::new(Some(stored_user("bob").public()));
    assert_eq!(logout(&mut cache, &user), Ok(()));
    assert!(cache.get(&"bob".to_string()).is_none());
    assert_eq!(logout(&mut cache, &user), Ok(()));
    assert!(cache.get(&"bob".to_string()).is_none());
    assert_eq!(logout(&mut cache, &AuthUser::new(None)), Err(AuthError::Unauthorized));
}

#[test]
fn register_login_resolve_logout_scenario() {
    let tokens = service();
    let mut cache = UserCache::new();
    let mut store = MemoryStore::new();

    assert_eq!(register(&mut store, &create("alice", "hunter22")), Ok(()));
    assert_eq!(store.records.len(), 1);
    assert_eq!(store.records[0].display_name, "alice");
    assert_eq!(register(&mut store, &create("alice", "hunter22")), Err(AuthError::Conflict));
    assert_eq!(store.records.len(), 1);

    let fetched = store.fetch_user("alice");
    let token = login_user(&tokens, &mut cache, &login_req("alice", "hunter22"), &fetched, now_seconds())
        .expect("login");
    assert_eq!(cache.get(&"alice".to_string()).unwrap().id, "id0");
    let now = now_seconds();
    let who = resolve(&tokens, &mut cache, &mut store, Some(&token), now).0.expect("authenticated");
    assert_eq!(who.username, "alice");

    let fetched = store.fetch_user("alice");
    assert_eq!(
        login_user(&tokens, &mut cache, &login_req("alice", "wrong1"), &fetched, now_seconds()),
        Err(AuthError::CredentialMismatch)
    );

    assert_eq!(logout(&mut cache, &AuthUser::new(Some(who))), Ok(()));
    assert!(cache.get(&"alice".to_string()).is_none());
    let reads = store.reads;
    let again = resolve(&tokens, &mut cache, &mut store, Some(&token), now).0.expect("still valid");
    assert_eq!(again.username, "alice");
    assert_eq!(store.reads, reads + 1);
}

#[test]
fn login_token_expires_seven_days_after_login_time() {
    let tokens = service();
    let mut cache = UserCache::new();
    let rec = create("erin", "secret1").dbuser();
    assert_ne!(rec.password_hash, "secret1");
    assert!(rec.password_hash.starts_with("$argon2id$"));
    assert_eq!(rec.salt.len(), 22);
    let mut stored = rec;
    stored.id = Some("e1".to_string());
    let login_at: u64 = 1_000;
    let token = login_user(
        &tokens,
        &mut cache,
        &login_req("erin", "secret1"),
        &Ok(Some(stored)),
        login_at,
    )
    .expect("login");
    assert_eq!(tokens.validate_at(&token, login_at + SESSION_SECONDS - 1), Ok("erin".to_string()));
    assert_eq!(tokens.validate_at(&token, login_at + SESSION_SECONDS), Err(TokenError::Expired));
    assert_eq!(cache.get(&"erin".to_string()).unwrap().id, "e1");
}
