use vstd::prelude::*;
use vstd::utf8::encode_utf8;

use crate::password::{hash_password, password_matches, phc_readable, MAX_PASSWORD_BYTES};
use crate::token::unix_now_millis;

verus! {

/// Longest username, password or display name accepted, in bytes.
pub const MAX_FIELD_LEN: usize = 20;

/// Shortest username accepted, in bytes.
pub const MIN_USERNAME_LEN: usize = 2;

/// Shortest password accepted, in bytes.
pub const MIN_PASSWORD_LEN: usize = 5;

/// Length of a string in UTF-8 bytes.
pub open spec fn byte_len(s: Seq<char>) -> nat {
    encode_utf8(s).len()
}

/// Whether a username and password have acceptable lengths.
pub open spec fn credentials_fit(username: Seq<char>, password: Seq<char>) -> bool {
    MIN_USERNAME_LEN <= byte_len(username) <= MAX_FIELD_LEN && MIN_PASSWORD_LEN <= byte_len(
        password,
    ) <= MAX_FIELD_LEN
}

/// The display name a new account gets: the one asked for, unless it is
/// missing, empty or too long, in which case the username.
pub open spec fn chosen_display_name(username: Seq<char>, asked: Option<Seq<char>>) -> Seq<char> {
    match asked {
        Some(dn) => if dn.len() == 0 || byte_len(dn) > MAX_FIELD_LEN {
            username
        } else {
            dn
        },
        None => username,
    }
}

/// The avatar URL a new account gets: an empty one counts as none.
pub open spec fn chosen_avatar_url(asked: Option<Seq<char>>) -> Option<Seq<char>> {
    match asked {
        Some(url) => if url.len() == 0 {
            None
        } else {
            Some(url)
        },
        None => None,
    }
}

pub open spec fn opt_view(s: Option<String>) -> Option<Seq<char>> {
    match s {
        Some(v) => Some(v@),
        None => None,
    }
}

pub fn clone_opt(s: &Option<String>) -> (r: Option<String>)
    ensures
        opt_view(r) == opt_view(*s),
{
    match s {
        Some(v) => Some(v.clone()),
        None => None,
    }
}

/// Whether `s` has acceptable length for a field bounded by `min` and `MAX_FIELD_LEN` bytes.
pub fn fits(s: &str, min: usize) -> (r: bool)
    ensures
        r == (min <= byte_len(s@) <= MAX_FIELD_LEN),
{
    let n = s.as_bytes().len();
    min <= n && n <= MAX_FIELD_LEN
}

/// Whether a username and password have acceptable lengths.
pub fn credentials_valid(username: &str, password: &str) -> (r: bool)
    ensures
        r == credentials_fit(username@, password@),
{
    fits(username, MIN_USERNAME_LEN) && fits(password, MIN_PASSWORD_LEN)
}

/// The public projection of an account: what may leave the server.
pub struct User {
    pub id: String,
    /// Milliseconds since the Unix epoch.
    pub created_at: i64,
    pub username: String,
    pub display_name: String,
    pub avatar_url: Option<String>,
}

pub struct UserView {
    pub id: Seq<char>,
    pub created_at: i64,
    pub username: Seq<char>,
    pub display_name: Seq<char>,
    pub avatar_url: Option<Seq<char>>,
}

impl View for User {
    type V = UserView;

    open spec fn view(&self) -> UserView {
        UserView {
            id: self.id@,
            created_at: self.created_at,
            username: self.username@,
            display_name: self.display_name@,
            avatar_url: opt_view(self.avatar_url),
        }
    }
}

impl User {
    pub fn duplicate(&self) -> (r: User)
        ensures
            r@ == self@,
    {
        User {
            id: self.id.clone(),
            created_at: self.created_at,
            username: self.username.clone(),
            display_name: self.display_name.clone(),
            avatar_url: clone_opt(&self.avatar_url),
        }
    }
}

/// An account as the store keeps it, secrets included.
pub struct DBUser {
    /// Set by the store when the record is inserted.
    pub id: Option<String>,
    /// Milliseconds since the Unix epoch.
    pub created_at: i64,
    pub username: String,
    pub display_name: String,
    pub avatar_url: Option<String>,
    pub password_hash: String,
    pub salt: String,
}

/// Types with a projection that is safe to hand out.
pub trait APISafe<T: View> {
    /// The projection, as a view.
    spec fn public_view(&self) -> T::V;

    fn public(&self) -> (r: T)
        ensures
            r@ == self.public_view(),
    ;
}

/// The public view of a stored account: its fields but the hash and the
/// salt. A record the store has not yet given an id has an empty one.
pub open spec fn public_of(u: DBUser) -> UserView {
    UserView {
        id: match u.id {
            Some(i) => i@,
            None => Seq::empty(),
        },
        created_at: u.created_at,
        username: u.username@,
        display_name: u.display_name@,
        avatar_url: opt_view(u.avatar_url),
    }
}

impl APISafe<User> for DBUser {
    open spec fn public_view(&self) -> UserView {
        public_of(*self)
    }

    fn public(&self) -> (r: User) {
        let id = match &self.id {
            Some(i) => i.clone(),
            None => String::new(),
        };
        User {
            id,
            created_at: self.created_at,
            username: self.username.clone(),
            display_name: self.display_name.clone(),
            avatar_url: clone_opt(&self.avatar_url),
        }
    }
}

/// A registration request.
pub struct CreateUser {
    pub username: String,
    pub password: String,
    pub display_name: Option<String>,
    pub avatar_url: Option<String>,
}

impl CreateUser {
    /// The record this request makes, given its creation time and password hash.
    pub fn record(&self, created_at: i64, password_hash: String, salt: String) -> (r: DBUser)
        ensures
            r.id is None,
            r.created_at == created_at,
            r.username@ == self.username@,
            r.display_name@ == chosen_display_name(self.username@, opt_view(self.display_name)),
            opt_view(r.avatar_url) == chosen_avatar_url(opt_view(self.avatar_url)),
            r.password_hash == password_hash,
            r.salt == salt,
    {
        let display_name = match &self.display_name {
            Some(dn) => {
                let s = dn.as_str();
                if s.is_empty() || s.as_bytes().len() > MAX_FIELD_LEN {
                    self.username.clone()
                } else {
                    dn.clone()
                }
            },
            None => self.username.clone(),
        };
        let avatar_url = match &self.avatar_url {
            Some(url) => {
                if url.as_str().is_empty() {
                    None
                } else {
                    Some(url.clone())
                }
            },
            None => None,
        };
        DBUser {
            id: None,
            created_at,
            username: self.username.clone(),
            display_name,
            avatar_url,
            password_hash,
            salt,
        }
    }

    /// The record this request makes now, its password hashed under a fresh
    /// salt.
    pub fn dbuser(&self) -> (r: DBUser)
        requires
            encode_utf8(self.password@).len() <= MAX_PASSWORD_BYTES,
        ensures
            r.id is None,
            r.username@ == self.username@,
            r.display_name@ == chosen_display_name(self.username@, opt_view(self.display_name)),
            opt_view(r.avatar_url) == chosen_avatar_url(opt_view(self.avatar_url)),
            password_matches(self.password@, r.password_hash@),
            phc_readable(r.password_hash@),
            r.password_hash@.len() > 64,
            r.salt@.len() == 22,
    {
        let hashed = hash_password(self.password.as_str());
        let created_at = unix_now_millis();
        self.record(created_at, hashed.hash, hashed.salt)
    }
}

/// A login request.
pub struct LoginUser {
    pub username: String,
    pub password: String,
}

} // verus!
