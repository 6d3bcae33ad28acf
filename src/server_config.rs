//! Server settings of the generated backend: how they are derived from the
//! values the process is started with, and the defaults used before they are.
use vstd::prelude::*;

use crate::text::{chars_of, owned};

verus! {

/// Server configuration service
pub struct ServerConfigService;

/// The server settings.
#[derive(Debug, Clone)]
pub struct ServerConfig {
    pub port: u16,
    pub host: String,
    pub protocol: String,
    pub environment: String,
}

/// The value of a sequence of decimal digits.
pub open spec fn digits_value(d: Seq<char>) -> int
    decreases d.len(),
{
    if d.len() == 0 {
        0
    } else {
        digits_value(d.drop_last()) * 10 + (d.last() as int - '0' as int)
    }
}

/// Every character of `d` is an ASCII decimal digit.
pub open spec fn all_digits(d: Seq<char>) -> bool {
    forall|i: int| 0 <= i < d.len() ==> '0' <= #[trigger] d[i] <= '9'
}

/// The digits of an unsigned number in text: all of it, or all but a leading `+`.
pub open spec fn unsigned_digits(s: Seq<char>) -> Seq<char> {
    if s.len() > 0 && s[0] == '+' {
        s.skip(1)
    } else {
        s
    }
}

/// The port that `s` spells: an optional `+` and at least one decimal digit,
/// with a value that fits in 16 bits.
pub open spec fn parse_port_spec(s: Seq<char>) -> Option<u16> {
    let d = unsigned_digits(s);
    if d.len() > 0 && all_digits(d) && digits_value(d) <= u16::MAX {
        Some(digits_value(d) as u16)
    } else {
        None
    }
}

proof fn lemma_digits_value_monotone(d: Seq<char>, n: int)
    requires
        all_digits(d),
        0 <= n <= d.len(),
    ensures
        0 <= digits_value(d.take(n)) <= digits_value(d),
    decreases d.len() - n,
{
    assert(d.take(d.len() as int) =~= d);
    if n < d.len() {
        let e = d.take(n + 1);
        assert(e.drop_last() =~= d.take(n));
        lemma_digits_value_monotone(d, n + 1);
        lemma_digits_value_nonneg(d.take(n));
    } else {
        lemma_digits_value_nonneg(d);
    }
}

proof fn lemma_digits_value_nonneg(d: Seq<char>)
    requires
        all_digits(d),
    ensures
        digits_value(d) >= 0,
    decreases d.len(),
{
    if d.len() > 0 {
        lemma_digits_value_nonneg(d.drop_last());
    }
}

/// Reads a port number the way `str::parse::<u16>` does.
pub fn parse_port(s: &str) -> (r: Option<u16>)
    ensures
        r == parse_port_spec(s@),
{
    let v = chars_of(s);
    let mut i: usize = 0;
    if v.len() > 0 && v[0] == '+' {
        i = 1;
    }
    let ghost d = unsigned_digits(s@);
    assert(d =~= v@.skip(i as int));
    if i == v.len() {
        return None;
    }
    let start = i;
    let mut value: u32 = 0;
    while i < v.len()
        invariant
            start <= i <= v.len(),
            d == v@.skip(start as int),
            d == unsigned_digits(s@),
            d.len() > 0,
            all_digits(d.take(i - start)),
            value as int == digits_value(d.take(i - start)),
            value <= u16::MAX,
        decreases v.len() - i,
    {
        let c = v[i];
        if c < '0' || c > '9' {
            assert(d[i - start] == c);
            assert(!all_digits(d));
            return None;
        }
        assert(d.take(i + 1 - start).drop_last() =~= d.take(i - start));
        assert(d.take(i + 1 - start).last() == c);
        let digit = (c as u32) - ('0' as u32);
        let next = value * 10 + digit;
        proof {
            assert(all_digits(d.take(i + 1 - start)));
        }
        if next > 65535 {
            proof {
                let k = i + 1 - start;
                assert(digits_value(d.take(k)) == next);
                if all_digits(d) {
                    lemma_digits_value_monotone(d, k);
                }
            }
            return None;
        }
        value = next;
        i = i + 1;
    }
    assert(d.take(i - start) =~= d);
    Some(value as u16)
}

/// The settings for the values the process was started with: the port, host and
/// environment, each when given. The port falls back to 3000 when absent or not
/// a valid port, the host to `localhost`, and the environment to `development`;
/// the protocol is HTTPS in the `production` environment and HTTP otherwise.
pub open spec fn settings_spec(
    port: Option<Seq<char>>,
    host: Option<Seq<char>>,
    environment: Option<Seq<char>>,
) -> (u16, Seq<char>, Seq<char>, Seq<char>) {
    let p = match port {
        Some(s) => match parse_port_spec(s) {
            Some(n) => n,
            None => 3000u16,
        },
        None => 3000u16,
    };
    let h = match host {
        Some(s) => s,
        None => "localhost"@,
    };
    let e = match environment {
        Some(s) => s,
        None => "development"@,
    };
    let proto = if e == "production"@ {
        "HTTPS"@
    } else {
        "HTTP"@
    };
    (p, h, proto, e)
}

/// The view of an optional borrowed string.
pub open spec fn opt_view(s: Option<&str>) -> Option<Seq<char>> {
    match s {
        Some(x) => Some(x@),
        None => None,
    }
}

impl ServerConfigService {
    /// Builds the server settings from the values the process was started with.
    pub fn configure(port: Option<&str>, host: Option<&str>, environment: Option<&str>) -> (r: ServerConfig)
        ensures
            (r.port, r.host@, r.protocol@, r.environment@) == settings_spec(
                opt_view(port),
                opt_view(host),
                opt_view(environment),
            ),
    {
        let p: u16 = match port {
            Some(s) => match parse_port(s) {
                Some(n) => n,
                None => 3000,
            },
            None => 3000,
        };
        let h = match host {
            Some(s) => owned(s),
            None => owned("localhost"),
        };
        let e = match environment {
            Some(s) => owned(s),
            None => owned("development"),
        };
        let protocol = if e == owned("production") {
            owned("HTTPS")
        } else {
            owned("HTTP")
        };
        ServerConfig { port: p, host: h, protocol, environment: e }
    }

    /// Get server configuration: the settings stored at start-up, if any.
    pub fn get_config(stored: Option<&ServerConfig>) -> (r: Option<&ServerConfig>)
        ensures
            r == stored,
    {
        stored
    }

    /// Get server port
    pub fn get_port(stored: Option<&ServerConfig>) -> (r: u16)
        ensures
            r == match stored {
                Some(c) => c.port,
                None => 3000,
            },
    {
        match Self::get_config(stored) {
            Some(c) => c.port,
            None => 3000,
        }
    }

    /// Get server host
    pub fn get_host(stored: Option<&ServerConfig>) -> (r: String)
        ensures
            r@ == match stored {
                Some(c) => c.host@,
                None => "localhost"@,
            },
    {
        match Self::get_config(stored) {
            Some(c) => c.host.clone(),
            None => owned("localhost"),
        }
    }

    /// Get server protocol
    pub fn get_protocol(stored: Option<&ServerConfig>) -> (r: String)
        ensures
            r@ == match stored {
                Some(c) => c.protocol@,
                None => "HTTP"@,
            },
    {
        match Self::get_config(stored) {
            Some(c) => c.protocol.clone(),
            None => owned("HTTP"),
        }
    }

    /// Get environment
    pub fn get_environment(stored: Option<&ServerConfig>) -> (r: String)
        ensures
            r@ == match stored {
                Some(c) => c.environment@,
                None => "development"@,
            },
    {
        match Self::get_config(stored) {
            Some(c) => c.environment.clone(),
            None => owned("development"),
        }
    }
}

} // verus!
