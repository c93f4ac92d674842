use vstd::prelude::*;

verus! {

/// The key with which tokens are signed.
pub struct HmacSecret(String);

impl Clone for HmacSecret {
    fn clone(&self) -> (r: Self)
        ensures
            r@ == self@,
    {
        HmacSecret(self.0.clone())
    }
}

impl View for HmacSecret {
    type V = Seq<char>;

    open spec fn view(&self) -> Seq<char> {
        self.spec_text()
    }
}

impl HmacSecret {
    /// The key's text.
    pub closed spec fn spec_text(self) -> Seq<char> {
        self.0@
    }

    /// The key's bytes: the UTF-8 encoding of its text.
    pub open spec fn spec_key(self) -> Seq<u8> {
        vstd::utf8::encode_utf8(self@)
    }

    /// A key made from the given text.
    pub fn new(s: &str) -> (r: HmacSecret)
        ensures
            r@ == s@,
    {
        HmacSecret(s.to_owned())
    }

    /// The key's bytes, with which tokens are signed and checked.
    pub fn as_ref(&self) -> (r: &[u8])
        ensures
            r@ == self.spec_key(),
    {
        self.0.as_str().as_bytes()
    }
}

} // verus!
