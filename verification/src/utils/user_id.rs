use vstd::prelude::*;

verus! {

/// The lower-case hexadecimal digit for a value below sixteen.
pub open spec fn hex_char(n: u8) -> char {
    if n < 10 {
        (48 + n) as char
    } else {
        (87 + n) as char
    }
}

/// The `i`-th four-bit group of `u`, counted from the most significant end.
pub open spec fn uuid_nibble(u: u128, i: int) -> u8 {
    ((u >> ((124 - 4 * i) as u128)) & 0xf) as u8
}

/// The thirty-two hexadecimal digits of `u`, most significant first.
pub open spec fn uuid_hex(u: u128) -> Seq<char> {
    Seq::new(32, |i: int| hex_char(uuid_nibble(u, i)))
}

/// The hyphenated lower-case form of a UUID: groups of 8, 4, 4, 4 and 12 digits.
pub open spec fn uuid_hyphenated(u: u128) -> Seq<char> {
    let h = uuid_hex(u);
    h.subrange(0, 8) + seq!['-'] + h.subrange(8, 12) + seq!['-'] + h.subrange(12, 16) + seq!['-']
        + h.subrange(16, 20) + seq!['-'] + h.subrange(20, 32)
}

/// What `uuid::Uuid::parse_str` makes of a text: the UUID's value, or nothing.
pub uninterp spec fn uuid_parse(s: Seq<char>) -> Option<u128>;

/// Calls `uuid::Uuid::parse_str` and takes the parsed UUID as a 128-bit value.
/// Claimed: the result is the named parse of the text, and a text in the hyphenated
/// lower-case form of a UUID parses to that UUID (the crate's documented format).
#[verifier::external_body]
fn parse_uuid(s: &str) -> (r: Option<u128>)
    ensures
        r == uuid_parse(s@),
        forall|u: u128| s@ == #[trigger] uuid_hyphenated(u) ==> r == Some(u),
{
    uuid::Uuid::parse_str(s).ok().map(|u| u.as_u128())
}

/// Calls `String::push`, which appends one character.
#[verifier::external_body]
pub(crate) fn push_char(s: &mut String, c: char)
    ensures
        final(s)@ == old(s)@.push(c),
{
    s.push(c);
}

fn hex_digit(n: u8) -> (c: char)
    requires
        n < 16,
    ensures
        c == hex_char(n),
{
    if n < 10 {
        (48 + n) as char
    } else {
        (87 + n) as char
    }
}

fn push_hex_digits(s: &mut String, u: u128, from: usize, to: usize)
    requires
        from <= to <= 32,
    ensures
        final(s)@ == old(s)@ + uuid_hex(u).subrange(from as int, to as int),
{
    let ghost start = s@;
    let mut i = from;
    while i < to
        invariant
            from <= i <= to <= 32,
            s@ == start + uuid_hex(u).subrange(from as int, i as int),
        decreases to - i,
    {
        let shift: u128 = (124 - 4 * i) as u128;
        let n: u8 = ((u >> shift) & 0xf) as u8;
        assert(((u >> shift) & 0xf) < 16) by (bit_vector);
        push_char(s, hex_digit(n));
        assert(uuid_hex(u).subrange(from as int, i + 1) =~= uuid_hex(u).subrange(from as int, i as int).push(hex_char(n)));
        i = i + 1;
    }
}

/// The identifier of an account, a UUID held as its 128-bit value.
#[derive(Clone, Copy, Debug, PartialEq, Eq, Structural)]
pub struct UserId(u128);

impl View for UserId {
    type V = u128;

    open spec fn view(&self) -> u128 {
        self.spec_value()
    }
}

impl UserId {
    /// The UUID's value.
    pub closed spec fn spec_value(self) -> u128 {
        self.0
    }

    /// The identifier with the given UUID value.
    pub fn from_u128(value: u128) -> (r: UserId)
        ensures
            r@ == value,
    {
        UserId(value)
    }

    /// The UUID's value.
    pub fn as_u128(&self) -> (r: u128)
        ensures
            r == self@,
    {
        self.0
    }

    /// The hyphenated lower-case form of the UUID, as it is written in a token.
    pub fn to_hyphenated(&self) -> (r: String)
        ensures
            r@ == uuid_hyphenated(self@),
    {
        let u = self.0;
        let mut s = String::new();
        push_hex_digits(&mut s, u, 0, 8);
        push_char(&mut s, '-');
        push_hex_digits(&mut s, u, 8, 12);
        push_char(&mut s, '-');
        push_hex_digits(&mut s, u, 12, 16);
        push_char(&mut s, '-');
        push_hex_digits(&mut s, u, 16, 20);
        push_char(&mut s, '-');
        push_hex_digits(&mut s, u, 20, 32);
        assert(s@ =~= uuid_hyphenated(u));
        s
    }

    /// Reads an identifier from the text of a UUID, as the `uuid` crate parses it.
    pub fn parse(s: &str) -> (r: Option<UserId>)
        ensures
            match r {
                Some(id) => uuid_parse(s@) == Some(id@),
                None => uuid_parse(s@) is None,
            },
            forall|u: u128| s@ == #[trigger] uuid_hyphenated(u) ==> (r matches Some(id) && id@ == u),
    {
        match parse_uuid(s) {
            Some(u) => Some(UserId(u)),
            None => None,
        }
    }

}

} // verus!
