use crate::authentication::credentials::AuthError;
use crate::routes::{
    STATUS_FORBIDDEN, STATUS_INTERNAL_SERVER_ERROR, STATUS_NO_CONTENT, STATUS_UNPROCESSABLE_ENTITY,
};
use vstd::prelude::*;

verus! {

/// A request to change the caller's password.
pub struct Request {
    pub old_password: String,
    pub new_password: String,
}

/// Whether a new password is long enough: more than eight bytes in UTF-8.
pub open spec fn secure_enough(password: Seq<char>) -> bool {
    vstd::utf8::encode_utf8(password).len() > 8
}

/// Whether `password` is long enough to be accepted: more than eight bytes.
pub fn is_password_secure_enough(password: &str) -> (r: bool)
    ensures
        r == secure_enough(password@),
        r == (vstd::utf8::encode_utf8(password@).len() > 8),
{
    password.as_bytes().len() > 8
}

/// The UTF-8 encoding of a concatenation is the concatenation of the encodings.
proof fn lemma_encode_utf8_concat(a: Seq<char>, b: Seq<char>)
    ensures
        vstd::utf8::encode_utf8(a + b) == vstd::utf8::encode_utf8(a) + vstd::utf8::encode_utf8(b),
    decreases a.len(),
{
    if a.len() == 0 {
        assert(a + b =~= b);
        assert(vstd::utf8::encode_utf8(a) =~= Seq::<u8>::empty());
        assert(vstd::utf8::encode_utf8(a + b) =~= vstd::utf8::encode_utf8(a) + vstd::utf8::encode_utf8(b));
    } else {
        lemma_encode_utf8_concat(a.drop_first(), b);
        assert((a + b).drop_first() =~= a.drop_first() + b);
        assert((a + b)[0] == a[0]);
        assert(vstd::utf8::encode_utf8(a + b) =~= vstd::utf8::encode_utf8(a) + vstd::utf8::encode_utf8(b));
    }
}

/// Every character takes one to four bytes in UTF-8.
proof fn lemma_encode_utf8_length(a: Seq<char>)
    ensures
        a.len() <= vstd::utf8::encode_utf8(a).len() <= 4 * a.len(),
    decreases a.len(),
{
    if a.len() > 0 {
        lemma_encode_utf8_length(a.drop_first());
    }
}

/// A password is strong enough exactly when its UTF-8 encoding is longer than eight bytes;
/// so every password of more than eight characters is, and no password of at most two
/// characters is.
pub proof fn lemma_strength_is_byte_length(password: Seq<char>)
    ensures
        secure_enough(password) <==> vstd::utf8::encode_utf8(password).len() > 8,
        password.len() > 8 ==> secure_enough(password),
        password.len() <= 2 ==> !secure_enough(password),
{
    lemma_encode_utf8_length(password);
}

/// Lengthening a password that is strong enough keeps it strong enough.
pub proof fn lemma_strength_is_monotone(password: Seq<char>, more: Seq<char>)
    requires
        secure_enough(password),
    ensures
        secure_enough(password + more),
{
    lemma_encode_utf8_concat(password, more);
}

/// What to do next with a password change request.
#[derive(Debug, Clone, Copy, PartialEq, Eq, Structural)]
pub enum PasswordChangeDecision {
    /// Hash and store the new password.
    StoreNewPassword,
    /// Answer with the given status.
    Respond(u16),
}

/// Decides a password change once the old password has been checked: forbidden when the
/// check failed, unprocessable when the new password is too short, otherwise store it.
pub fn put_handler(request: &Request, old_password_check: Result<(), AuthError>) -> (r: PasswordChangeDecision)
    ensures
        r == (if old_password_check is Err {
            PasswordChangeDecision::Respond(STATUS_FORBIDDEN)
        } else if !secure_enough(request.new_password@) {
            PasswordChangeDecision::Respond(STATUS_UNPROCESSABLE_ENTITY)
        } else {
            PasswordChangeDecision::StoreNewPassword
        }),
{
    if old_password_check.is_err() {
        return PasswordChangeDecision::Respond(STATUS_FORBIDDEN);
    }
    if is_password_secure_enough(request.new_password.as_str()) == false {
        return PasswordChangeDecision::Respond(STATUS_UNPROCESSABLE_ENTITY);
    }
    PasswordChangeDecision::StoreNewPassword
}

/// The status that ends a password change, once storing the new password was tried.
pub fn put_handler_stored(store_result: Result<(), AuthError>) -> (r: u16)
    ensures
        r == (if store_result is Ok { STATUS_NO_CONTENT } else { STATUS_INTERNAL_SERVER_ERROR }),
{
    match store_result {
        Ok(()) => STATUS_NO_CONTENT,
        Err(_) => STATUS_INTERNAL_SERVER_ERROR,
    }
}

} // verus!
