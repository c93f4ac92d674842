use validator::ValidateEmail;
use vstd::prelude::*;
use vstd::string::*;

verus! {

/// Whether `validator`'s HTML5 e-mail check accepts the given text.
pub uninterp spec fn email_is_valid(s: Seq<char>) -> bool;

/// The shape that every accepted address has: exactly one `@`, preceded by one to
/// sixty-four characters and followed by one to two hundred and fifty-five.
pub open spec fn email_shape(s: Seq<char>) -> bool {
    exists|i: int|
        #![trigger s[i]]
        0 < i <= 64 && i + 1 < s.len() && s[i] == '@' && s.len() - i - 1 <= 255 && forall|j: int|
            0 <= j < s.len() && j != i ==> s[j] != '@'
}

/// Calls `validator::ValidateEmail::validate_email` on `s`.
/// Claimed: the result is the named check of the text, and an accepted text has the
/// shape that the crate's source checks (split at the last `@`; a local part of 1..=64
/// characters, none of them `@` by the local-part expression; a domain part of at most
/// 255 characters, non-empty since both the domain expression and the bracketed literal
/// need at least one character).
#[verifier::external_body]
fn validate_email(s: &str) -> (r: bool)
    ensures
        r == email_is_valid(s@),
        r ==> email_shape(s@),
{
    s.validate_email()
}

/// An e-mail address that passed validation.
pub struct AccountEmail(String);

impl View for AccountEmail {
    type V = Seq<char>;

    open spec fn view(&self) -> Seq<char> {
        self.spec_text()
    }
}

impl AccountEmail {
    /// The address text.
    pub closed spec fn spec_text(self) -> Seq<char> {
        self.0@
    }

    #[verifier::type_invariant]
    closed spec fn inv(self) -> bool {
        email_is_valid(self.0@)
    }

    /// The error text given for a rejected address.
    pub open spec fn rejection_message(s: Seq<char>) -> Seq<char> {
        s + " is not a valid email"@
    }

    /// Accepts `s` exactly when the e-mail check accepts it; otherwise returns the
    /// message "`s` is not a valid email".
    pub fn parse(s: String) -> (r: Result<AccountEmail, String>)
        ensures
            match r {
                Ok(e) => email_is_valid(s@) && email_shape(s@) && e@ == s@,
                Err(m) => !email_is_valid(s@) && m@ == Self::rejection_message(s@),
            },
    {
        if validate_email(s.as_str()) {
            Ok(AccountEmail(s))
        } else {
            let mut msg = s;
            msg.append(" is not a valid email");
            Err(msg)
        }
    }

    /// The address as a string slice.
    pub fn as_ref(&self) -> (r: &str)
        ensures
            r@ == self@,
            email_is_valid(r@),
    {
        proof {
            use_type_invariant(self);
        }
        self.0.as_str()
    }

    /// The address as an owned string, as it is displayed.
    pub fn to_display_string(&self) -> (r: String)
        ensures
            r@ == self@,
    {
        self.0.clone()
    }
}

/// An address that is empty, has no `@`, or has nothing before its first `@` never has
/// the shape of an accepted address, so `AccountEmail::parse` refuses it.
pub proof fn lemma_address_without_local_part_is_refused(s: Seq<char>)
    requires
        s.len() == 0 || s[0] == '@' || !s.contains('@'),
    ensures
        !email_shape(s),
{
    if email_shape(s) {
        let i = choose|i: int|
            #![trigger s[i]]
            0 < i <= 64 && i + 1 < s.len() && s[i] == '@' && s.len() - i - 1 <= 255 && forall|j: int|
                0 <= j < s.len() && j != i ==> s[j] != '@';
        assert(s.contains('@'));
    }
}

} // verus!
