use vstd::prelude::*;
use vstd::utf8::encode_utf8;

verus! {

/// Whether `password` verifies against the PHC hash string `phc` under Argon2.
pub uninterp spec fn password_matches(password: Seq<char>, phc: Seq<char>) -> bool;

/// Whether `phc` reads as a PHC hash string.
pub uninterp spec fn phc_readable(phc: Seq<char>) -> bool;

/// Longest password argon2 accepts, in bytes.
pub const MAX_PASSWORD_BYTES: u64 = 0xFFFF_FFFF;

/// Relies on password_hash's `SaltString::generate` fed by rand's `thread_rng`
/// (16 random bytes, always a valid salt) and on argon2's
/// `Argon2::default().hash_password`, which fails only on a password longer
/// than `MAX_PASSWORD_BYTES` or a salt of bad length. The PHC string it returns
/// reads back, and verifies for the same password, since verification
/// recomputes the hash from the salt and parameters that the string records.
/// Returns the PHC string and the salt. The salt is the 16 random bytes in
/// unpadded B64, 22 characters; the PHC string holds that salt and the 32-byte
/// output in unpadded B64 (43 characters), so it is longer than 64 characters.
#[verifier::external_body]
fn argon2_hash_fresh(password: &str) -> (r: (String, String))
    requires
        encode_utf8(password@).len() <= MAX_PASSWORD_BYTES,
    ensures
        phc_readable(r.0@),
        password_matches(password@, r.0@),
        r.0@.len() > 64,
        r.1@.len() == 22,
{
    let salt = argon2::password_hash::SaltString::generate(&mut rand::thread_rng());
    let hash = argon2::PasswordHasher::hash_password(
        &argon2::Argon2::default(),
        password.as_bytes(),
        &salt,
    ).expect("argon2 accepts a generated salt and a password of this length");
    (hash.to_string(), salt.as_str().to_string())
}

/// Relies on argon2's `PasswordHash::new` and `Argon2::default().verify_password`:
/// whether the password verifies against the PHC string. A string that does
/// not parse verifies no password.
#[verifier::external_body]
fn argon2_verify(password: &str, phc: &str) -> (r: bool)
    ensures
        r == password_matches(password@, phc@),
        !phc_readable(phc@) ==> !r,
        phc@.len() == 0 ==> !r,
{
    match argon2::PasswordHash::new(phc) {
        Ok(h) => argon2::PasswordVerifier::verify_password(
            &argon2::Argon2::default(),
            password.as_bytes(),
            &h,
        ).is_ok(),
        Err(_) => false,
    }
}

/// A string has no more characters than UTF-8 bytes.
pub proof fn lemma_chars_at_most_bytes(s: Seq<char>)
    ensures
        s.len() <= encode_utf8(s).len(),
    decreases s.len(),
{
    if s.len() > 0 {
        lemma_chars_at_most_bytes(s.drop_first());
    }
}

/// A salted Argon2 hash of a password, in PHC string form, with its salt.
pub struct HashedPassword {
    pub hash: String,
    pub salt: String,
}

/// Hashes `password` under a fresh random salt.
pub fn hash_password(password: &str) -> (r: HashedPassword)
    requires
        encode_utf8(password@).len() <= MAX_PASSWORD_BYTES,
    ensures
        password_matches(password@, r.hash@),
        phc_readable(r.hash@),
        r.hash@.len() > 64,
        r.salt@.len() == 22,
{
    let (hash, salt) = argon2_hash_fresh(password);
    HashedPassword { hash, salt }
}

/// Whether `password` verifies against the stored hash `phc`. A corrupt hash
/// is a mismatch, not an error.
pub fn verify_password(password: &str, phc: &str) -> (r: bool)
    ensures
        r == password_matches(password@, phc@),
        !phc_readable(phc@) ==> !r,
{
    argon2_verify(password, phc)
}

} // verus!
