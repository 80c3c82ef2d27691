use crate::application::auth_service::PasswordManager;
use vstd::prelude::*;
use vstd::string::StringExecFns;

verus! {

/// Whether Argon2 finds that a text matches a stored hash, or the
/// description of the fault where the stored hash cannot be read.
pub uninterp spec fn argon2_verdict(candidate: Seq<char>, hashed: Seq<char>) -> Result<
    bool,
    Seq<char>,
>;

/// The Argon2 hash of a text under a salt, or the description of the fault
/// where there is none.
pub uninterp spec fn argon2_digest(candidate: Seq<char>, salt: Seq<char>) -> Result<
    Seq<char>,
    Seq<char>,
>;

/// Reads the stored hash with `PasswordHash::new` and checks the text
/// against it with `verify_password` of `Argon2` in its default setting.
/// A hash that cannot be read gives the fault's description; a text that
/// does not match gives `Ok(false)`. The result is what `argon2_verdict`
/// names. The call takes the memory and the time that the stored hash asks
/// for, and does not return where the machine cannot give them.
#[verifier::external_body]
fn argon2_verify(candidate: &str, hashed: &str) -> (out: Result<bool, String>)
    ensures
        match out {
            Ok(same) => argon2_verdict(candidate@, hashed@) matches Ok(v) && v == same,
            Err(fault) => argon2_verdict(candidate@, hashed@) matches Err(f) && f == fault@,
        },
{
    let parsed = argon2::password_hash::PasswordHash::new(hashed).map_err(|e| e.to_string())?;
    let hasher = argon2::Argon2::default();
    Ok(argon2::PasswordVerifier::verify_password(&hasher, candidate.as_bytes(), &parsed).is_ok())
}

/// Reads the salt with `SaltString::from_b64` and hashes the text under it
/// with `hash_password` of `Argon2` in its default setting. The result is
/// what `argon2_digest` names.
#[verifier::external_body]
fn argon2_hash(candidate: &str, salt: &str) -> (out: Result<String, String>)
    ensures
        match out {
            Ok(hash) => argon2_digest(candidate@, salt@) matches Ok(h) && h == hash@,
            Err(fault) => argon2_digest(candidate@, salt@) matches Err(f) && f == fault@,
        },
{
    let salt = argon2::password_hash::SaltString::from_b64(salt).map_err(|e| e.to_string())?;
    let hasher = argon2::Argon2::default();
    let hash = argon2::PasswordHasher::hash_password(&hasher, candidate.as_bytes(), &salt);
    Ok(hash.map_err(|e| e.to_string())?.to_string())
}

/// Passwords hashed with Argon2. What is hashed is the salt followed by the
/// password.
#[derive(Debug, Clone, Copy)]
pub struct PasswordService;

impl PasswordService {
    /// The text that is hashed for a password under a salt.
    pub open spec fn spec_candidate(raw: Seq<char>, salt: Seq<char>) -> Seq<char> {
        salt + raw
    }

    /// The text that is hashed for a password under a salt.
    pub fn candidate(raw: &str, salt: &str) -> (out: String)
        ensures
            out@ == Self::spec_candidate(raw@, salt@),
    {
        let mut out = String::from_str(salt);
        out.append(raw);
        out
    }
}

impl PasswordManager for PasswordService {
    /// This service answers with what Argon2 finds of the salt followed by
    /// the password against the stored hash.
    open spec fn may_verify(
        &self,
        raw: Seq<char>,
        hashed: Seq<char>,
        salt: Seq<char>,
        answer: Result<bool, String>,
    ) -> bool {
        match answer {
            Ok(same) => argon2_verdict(Self::spec_candidate(raw, salt), hashed) matches Ok(v) && v
                == same,
            Err(fault) => argon2_verdict(Self::spec_candidate(raw, salt), hashed) matches Err(f)
                && f == fault@,
        }
    }

    /// This service answers with the Argon2 hash of the salt followed by
    /// the password, under the salt.
    open spec fn may_hash(&self, raw: Seq<char>, salt: Seq<char>, answer: Result<String, String>) -> bool {
        match answer {
            Ok(hash) => argon2_digest(Self::spec_candidate(raw, salt), salt) matches Ok(h) && h
                == hash@,
            Err(fault) => argon2_digest(Self::spec_candidate(raw, salt), salt) matches Err(f) && f
                == fault@,
        }
    }

    fn verify(&self, raw: &str, hashed: &str, salt: &str) -> (out: Result<bool, String>)
        ensures
            match out {
                Ok(same) => argon2_verdict(Self::spec_candidate(raw@, salt@), hashed@) matches Ok(v)
                    && v == same,
                Err(fault) => argon2_verdict(Self::spec_candidate(raw@, salt@), hashed@) matches Err(
                    f,
                ) && f == fault@,
            },
    {
        let candidate = PasswordService::candidate(raw, salt);
        argon2_verify(candidate.as_str(), hashed)
    }

    fn hash(&self, raw: &str, salt: &str) -> (out: Result<String, String>)
        ensures
            match out {
                Ok(hash) => argon2_digest(Self::spec_candidate(raw@, salt@), salt@) matches Ok(h)
                    && h == hash@,
                Err(fault) => argon2_digest(Self::spec_candidate(raw@, salt@), salt@) matches Err(f)
                    && f == fault@,
            },
    {
        let candidate = PasswordService::candidate(raw, salt);
        argon2_hash(candidate.as_str(), salt)
    }
}

} // verus!
