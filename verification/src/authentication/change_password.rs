use crate::authentication::credentials::{
    argon2_accepts, credentials_outcome, password_check, phc_parses, AuthError, StoredCredentials,
    UnexpectedReason,
};
use crate::configuration::decimal;
use crate::utils::user_id::UserId;
use argon2::PasswordHasher;
use vstd::prelude::*;

verus! {

/// Memory cost of new password hashes, in KiB.
pub const ARGON2_M_COST: u32 = 15000;

/// Number of passes of new password hashes.
pub const ARGON2_T_COST: u32 = 2;

/// Degree of parallelism of new password hashes.
pub const ARGON2_P_COST: u32 = 1;

/// Hashes `password` with Argon2id (version 0x13) under the given costs and a salt that
/// `SaltString::generate` draws from `OsRng`, and renders the hash as a PHC string
/// (`Params::new`, `Argon2::new`, `PasswordHasher::hash_password`, `to_string`).
/// Required: the costs that `Params::new` accepts. Claimed: a hash that is returned parses
/// as a PHC string and `Argon2::default().verify_password` accepts `password` against it
/// (verification recomputes the hash with the algorithm, version, costs and salt that the
/// string records); the string begins with the algorithm, version and costs that it was
/// made with, `$argon2id$v=19$m={m_cost},t={t_cost},p={p_cost}$` (the `Display` of the
/// `PasswordHash` that `hash_password` builds from `algorithm.ident()`, the version and
/// `ParamsString::try_from(&params)`); and hashing succeeds whenever the password is at
/// most `MAX_PWD_LEN` (0xFFFF_FFFF) bytes, its only failure for accepted costs and a
/// generated salt. The salt, and so the rest of the string, is random.
#[verifier::external_body]
fn hash_argon2id(password: &[u8], m_cost: u32, t_cost: u32, p_cost: u32) -> (r: Result<String, argon2::password_hash::Error>)
    requires
        8 <= m_cost,
        8 * p_cost <= m_cost,
        1 <= t_cost,
        1 <= p_cost <= 0xFF_FFFF,
    ensures
        password@.len() <= 0xFFFF_FFFF ==> r is Ok,
        r matches Ok(h) ==> phc_parses(h@) && argon2_accepts(h@, password@),
        r matches Ok(h) ==> argon2id_phc_prefix(m_cost as nat, t_cost as nat, p_cost as nat).is_prefix_of(
            h@,
        ),
{
    let salt = argon2::password_hash::SaltString::generate(&mut argon2::password_hash::rand_core::OsRng);
    let params = argon2::Params::new(m_cost, t_cost, p_cost, None)?;
    let argon2 = argon2::Argon2::new(argon2::Algorithm::Argon2id, argon2::Version::V0x13, params);
    Ok(argon2.hash_password(password, &salt)?.to_string())
}

/// The start of an Argon2id (version 0x13) PHC string made with the given costs.
pub open spec fn argon2id_phc_prefix(m_cost: nat, t_cost: nat, p_cost: nat) -> Seq<char> {
    "$argon2id$v=19$m="@ + decimal(m_cost) + ",t="@ + decimal(t_cost) + ",p="@ + decimal(p_cost)
        + "$"@
}

/// The start of every stored hash: Argon2id, version 0x13, with the library's costs.
pub open spec fn stored_hash_settings() -> Seq<char> {
    argon2id_phc_prefix(ARGON2_M_COST as nat, ARGON2_T_COST as nat, ARGON2_P_COST as nat)
}

/// The stored-hash prefix, written out: `$argon2id$v=19$m=15000,t=2,p=1$`.
pub proof fn lemma_stored_hash_settings_text()
    ensures
        stored_hash_settings() == "$argon2id$v=19$m=15000,t=2,p=1$"@,
{
    reveal_strlit("$argon2id$v=19$m=");
    reveal_strlit(",t=");
    reveal_strlit(",p=");
    reveal_strlit("$");
    reveal_strlit("$argon2id$v=19$m=15000,t=2,p=1$");
    reveal_with_fuel(decimal, 6);
    assert(stored_hash_settings() =~= "$argon2id$v=19$m=15000,t=2,p=1$"@);
}

/// `hash` is a PHC hash string against which `password` verifies.
pub open spec fn hashes_password(hash: Seq<char>, password: Seq<char>) -> bool {
    phc_parses(hash) && argon2_accepts(hash, vstd::utf8::encode_utf8(password))
}

/// Hashes `password` for storage, with Argon2id (version 0x13, m=15000, t=2, p=1) and a
/// fresh random salt. Succeeds for every password of at most 0xFFFF_FFFF bytes.
pub fn compute_password_hash(password: &str) -> (r: Result<String, AuthError>)
    ensures
        vstd::utf8::encode_utf8(password@).len() <= 0xFFFF_FFFF ==> r is Ok,
        match r {
            Ok(h) => hashes_password(h@, password@) && stored_hash_settings().is_prefix_of(h@),
            Err(e) => e == AuthError::UnexpectedError(UnexpectedReason::HashingFailed),
        },
{
    match hash_argon2id(password.as_bytes(), ARGON2_M_COST, ARGON2_T_COST, ARGON2_P_COST) {
        Ok(h) => Ok(h),
        Err(_) => Err(AuthError::UnexpectedError(UnexpectedReason::HashingFailed)),
    }
}

/// The credentials to store for `user_id` so that `new_password` becomes its password:
/// an Argon2id (version 0x13, m=15000, t=2, p=1) hash that verifies it. Succeeds for every
/// password of at most 0xFFFF_FFFF bytes.
pub fn change_password(user_id: UserId, new_password: &str) -> (r: Result<StoredCredentials, AuthError>)
    ensures
        vstd::utf8::encode_utf8(new_password@).len() <= 0xFFFF_FFFF ==> r is Ok,
        match r {
            Ok(s) => s.user_id == user_id && hashes_password(s.password_hash@, new_password@)
                && stored_hash_settings().is_prefix_of(s.password_hash@),
            Err(e) => e == AuthError::UnexpectedError(UnexpectedReason::HashingFailed),
        },
{
    let password_hash = compute_password_hash(new_password)?;
    Ok(StoredCredentials { user_id, password_hash })
}

/// Once a new password's hash is stored for an account, authenticating with that
/// password names the account.
pub proof fn lemma_changed_password_authenticates(user: u128, hash: Seq<char>, password: Seq<char>)
    requires
        hashes_password(hash, password),
    ensures
        password_check(hash, password) == Ok::<(), AuthError>(()),
        credentials_outcome(Some((user, hash)), password) == Ok::<u128, AuthError>(user),
{
}

} // verus!
