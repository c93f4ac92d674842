use crate::utils::user_id::push_char;
use vstd::prelude::*;
use vstd::string::*;

verus! {

/// The decimal digit for a value below ten.
pub open spec fn decimal_digit(d: nat) -> char {
    (48 + d) as char
}

/// The decimal representation of `n`, without leading zeros.
pub open spec fn decimal(n: nat) -> Seq<char>
    decreases n,
{
    if n < 10 {
        seq![decimal_digit(n)]
    } else {
        decimal(n / 10).push(decimal_digit(n % 10))
    }
}

/// The number that a sequence of decimal digits denotes, most significant digit first.
pub open spec fn numeral_value(s: Seq<char>) -> int
    decreases s.len(),
{
    if s.len() == 0 {
        0
    } else {
        numeral_value(s.drop_last()) * 10 + (s.last() as int - 48)
    }
}

/// `decimal(n)` is the ordinary base-10 numeral of `n`: non-empty, made of the digits `0`
/// to `9`, denoting `n`, and without a leading zero unless it is the numeral of zero.
pub proof fn lemma_decimal_is_the_numeral(n: nat)
    ensures
        decimal(n).len() > 0,
        forall|i: int| 0 <= i < decimal(n).len() ==> 48 <= #[trigger] decimal(n)[i] as int <= 57,
        numeral_value(decimal(n)) == n,
        n == 0 <==> decimal(n)[0] == '0',
        n == 0 ==> decimal(n) == seq!['0'],
    decreases n,
{
    if n < 10 {
        assert(decimal_digit(n) as int == 48 + n);
        assert(decimal(n).drop_last() =~= Seq::<char>::empty());
        assert(numeral_value(decimal(n).drop_last()) == 0);
        assert(decimal(n).last() == decimal_digit(n));
        assert(numeral_value(decimal(n)) == n);
    } else {
        assert(decimal_digit(n % 10) as int == 48 + n % 10);
        lemma_decimal_is_the_numeral(n / 10);
        let prefix = decimal(n / 10);
        assert(decimal(n).drop_last() =~= prefix);
        assert(decimal(n)[0] == prefix[0]);
        assert forall|i: int| 0 <= i < decimal(n).len() implies 48 <= #[trigger] decimal(n)[i] as int
            <= 57 by {
            if i < prefix.len() {
                assert(decimal(n)[i] == prefix[i]);
            }
        }
        assert(decimal(n).last() == decimal_digit(n % 10));
        assert(numeral_value(decimal(n)) == numeral_value(prefix) * 10 + (n % 10));
        assert(n == (n / 10) * 10 + n % 10);
    }
}

fn push_decimal(s: &mut String, n: u16)
    ensures
        final(s)@ == old(s)@ + decimal(n as nat),
    decreases n,
{
    if n >= 10 {
        push_decimal(s, n / 10);
    }
    let d: u8 = (n % 10) as u8;
    push_char(s, (48 + d) as char);
    assert(s@ =~= old(s)@ + decimal(n as nat));
}

/// The settings of the whole service.
pub struct Configuration {
    pub application: ApplicationConfiguration,
    pub database: DatabaseConfiguration,
}

/// How to reach the database.
pub struct DatabaseConfiguration {
    pub username: String,
    pub password: String,
    pub port: u16,
    pub host: String,
    pub database_name: String,
}

/// Where the service listens, and the key that signs its tokens.
pub struct ApplicationConfiguration {
    pub port: u16,
    pub host: String,
    pub hmac_secret: String,
}

impl DatabaseConfiguration {
    /// The connection URL `postgres://{username}:{password}@{host}:{port}/{database_name}`.
    pub open spec fn spec_connection_string(&self) -> Seq<char> {
        "postgres://"@ + self.username@ + ":"@ + self.password@ + "@"@ + self.host@ + ":"@
            + decimal(self.port as nat) + "/"@ + self.database_name@
    }

    /// The connection URL of the database.
    pub fn connection_string(&self) -> (r: String)
        ensures
            r@ == self.spec_connection_string(),
    {
        let mut s = String::from_str("postgres://");
        s.append(self.username.as_str());
        s.append(":");
        s.append(self.password.as_str());
        s.append("@");
        s.append(self.host.as_str());
        s.append(":");
        push_decimal(&mut s, self.port);
        s.append("/");
        s.append(self.database_name.as_str());
        s
    }
}

impl ApplicationConfiguration {
    /// The address `{host}:{port}`.
    pub open spec fn spec_address(&self) -> Seq<char> {
        self.host@ + ":"@ + decimal(self.port as nat)
    }

    /// The address on which the service listens.
    pub fn address(&self) -> (r: String)
        ensures
            r@ == self.spec_address(),
    {
        let mut s = String::from_str(self.host.as_str());
        s.append(":");
        push_decimal(&mut s, self.port);
        s
    }
}

} // verus!
