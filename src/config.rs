//! The database connection descriptor and the connection string made from it.
use vstd::prelude::*;

verus! {

/// Where and as whom to connect to the database; built once at startup.
pub struct DatabaseConfig {
    pub host: String,
    pub port: u16,
    pub user: String,
    pub password: String,
    pub dbname: String,
}

/// The decimal digit `d` as text.
pub open spec fn digit(d: nat) -> Seq<char> {
    if d == 0 {
        "0"@
    } else if d == 1 {
        "1"@
    } else if d == 2 {
        "2"@
    } else if d == 3 {
        "3"@
    } else if d == 4 {
        "4"@
    } else if d == 5 {
        "5"@
    } else if d == 6 {
        "6"@
    } else if d == 7 {
        "7"@
    } else if d == 8 {
        "8"@
    } else {
        "9"@
    }
}

/// `n` written in decimal, without leading zeros.
pub open spec fn decimal(n: nat) -> Seq<char>
    decreases n,
{
    if n < 10 {
        digit(n)
    } else {
        decimal(n / 10) + digit(n % 10)
    }
}

/// The connection string for a descriptor, fields in a fixed order.
pub open spec fn connection_string_spec(c: DatabaseConfig) -> Seq<char> {
    "host="@ + c.host@ + " port="@ + decimal(c.port as nat) + " user="@ + c.user@ + " password="@
        + c.password@ + " dbname="@ + c.dbname@
}

fn digit_text(d: u16) -> (r: &'static str)
    requires
        d < 10,
    ensures
        r@ == digit(d as nat),
{
    if d == 0 {
        "0"
    } else if d == 1 {
        "1"
    } else if d == 2 {
        "2"
    } else if d == 3 {
        "3"
    } else if d == 4 {
        "4"
    } else if d == 5 {
        "5"
    } else if d == 6 {
        "6"
    } else if d == 7 {
        "7"
    } else if d == 8 {
        "8"
    } else {
        "9"
    }
}

/// Appends `n` in decimal to `s`.
fn append_decimal(s: &mut String, n: u16)
    ensures
        final(s)@ == old(s)@ + decimal(n as nat),
    decreases n,
{
    if n >= 10 {
        append_decimal(s, n / 10);
    }
    s.append(digit_text(n % 10));
    proof {
        if n >= 10 {
            assert(final(s)@ =~= old(s)@ + decimal(n as nat));
        }
    }
}

impl DatabaseConfig {
    /// The connection string handed to the database driver:
    /// `host=.. port=.. user=.. password=.. dbname=..`.
    pub fn connection_string(&self) -> (r: String)
        ensures
            r@ == connection_string_spec(*self),
    {
        let mut s = String::from_str("host=");
        s.append(self.host.as_str());
        s.append(" port=");
        append_decimal(&mut s, self.port);
        s.append(" user=");
        s.append(self.user.as_str());
        s.append(" password=");
        s.append(self.password.as_str());
        s.append(" dbname=");
        s.append(self.dbname.as_str());
        proof {
            assert(s@ =~= connection_string_spec(*self));
        }
        s
    }
}

} // verus!
