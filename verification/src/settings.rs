//! Where the service listens, and the addresses that follow from it.

use crate::hex::hex_char;
use vstd::prelude::*;
use vstd::string::StringExecFns;

verus! {

/// The decimal digits of `n`, most significant first, without sign.
pub open spec fn decimal_digits(n: nat) -> Seq<char>
    decreases n,
{
    if n < 10 {
        seq![hex_char(n as int)]
    } else {
        decimal_digits(n / 10).push(hex_char((n % 10) as int))
    }
}

/// `n` in decimal, with a leading `-` when it is negative.
pub open spec fn decimal_text(n: int) -> Seq<char> {
    if n < 0 {
        seq!['-'] + decimal_digits((-n) as nat)
    } else {
        decimal_digits(n as nat)
    }
}

/// `host:port`.
pub open spec fn address_text(host: Seq<char>, port: int) -> Seq<char> {
    host + seq![':'] + decimal_text(port)
}

/// The characters of `http://localhost:`.
pub open spec fn local_prefix() -> Seq<char> {
    seq!['h', 't', 't', 'p', ':', '/', '/', 'l', 'o', 'c', 'a', 'l', 'h', 'o', 's', 't', ':']
}

/// The characters of `/health`.
pub open spec fn health_path() -> Seq<char> {
    seq!['/', 'h', 'e', 'a', 'l', 't', 'h']
}

/// The address of the service's own health endpoint on this machine.
pub open spec fn health_url_text(port: int) -> Seq<char> {
    local_prefix() + decimal_text(port) + health_path()
}

/// The characters of `127.0.0.1`.
pub open spec fn loopback() -> Seq<char> {
    seq!['1', '2', '7', '.', '0', '.', '0', '.', '1']
}

/// The text of one decimal digit.
fn digit_text(d: u64) -> (s: &'static str)
    requires
        d < 10,
    ensures
        s@ == seq![hex_char(d as int)],
{
    proof {
        reveal_strlit("0");
        reveal_strlit("1");
        reveal_strlit("2");
        reveal_strlit("3");
        reveal_strlit("4");
        reveal_strlit("5");
        reveal_strlit("6");
        reveal_strlit("7");
        reveal_strlit("8");
        reveal_strlit("9");
    }
    let s = if d == 0 {
        "0"
    } else if d == 1 {
        "1"
    } else if d == 2 {
        "2"
    } else if d == 3 {
        "3"
    } else if d == 4 {
        "4"
    } else if d == 5 {
        "5"
    } else if d == 6 {
        "6"
    } else if d == 7 {
        "7"
    } else if d == 8 {
        "8"
    } else {
        "9"
    };
    s
}

/// Appends the decimal digits of `n` to `out`.
fn push_decimal(out: &mut String, n: u64)
    ensures
        final(out)@ == old(out)@ + decimal_digits(n as nat),
    decreases n,
{
    if n >= 10 {
        push_decimal(out, n / 10);
    }
    out.append(digit_text(n % 10));
}

/// Appends `n` in decimal to `out`.
pub fn push_number(out: &mut String, n: i32)
    ensures
        final(out)@ == old(out)@ + decimal_text(n as int),
{
    if n < 0 {
        proof {
            reveal_strlit("-");
        }
        out.append("-");
        let magnitude: u64 = (-(n as i64)) as u64;
        push_decimal(out, magnitude);
    } else {
        push_decimal(out, n as u64);
    }
}

/// Host and port on which the service listens.
#[derive(Debug)]
pub struct Settings {
    /// The host to bind to.
    pub host: String,
    /// The port to bind to.
    pub port: i32,
}

impl Clone for Settings {
    fn clone(&self) -> (s: Self)
        ensures
            s.host@ == self.host@,
            s.port == self.port,
    {
        Settings { host: self.host.clone(), port: self.port }
    }
}

impl Settings {
    /// The settings in force when nothing else is given: `127.0.0.1`, port
    /// 3000.
    pub fn standard() -> (s: Self)
        ensures
            s.host@ == loopback(),
            s.port == 3000,
    {
        proof {
            reveal_strlit("127.0.0.1");
        }
        let host = String::from_str("127.0.0.1");
        Settings { host, port: 3000 }
    }

    /// The address to bind to: host, a colon, the port.
    pub fn address(&self) -> (a: String)
        ensures
            a@ == address_text(self.host@, self.port as int),
    {
        proof {
            reveal_strlit(":");
        }
        let mut a = self.host.clone();
        a.append(":");
        push_number(&mut a, self.port);
        a
    }

    /// The address under which the service reaches its own health endpoint.
    pub fn health_url(&self) -> (u: String)
        ensures
            u@ == health_url_text(self.port as int),
    {
        proof {
            reveal_strlit("http://localhost:");
            reveal_strlit("/health");
        }
        let mut u = String::from_str("http://localhost:");
        push_number(&mut u, self.port);
        u.append("/health");
        u
    }
}

} // verus!
