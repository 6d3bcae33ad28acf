//! Human-readable figures for the generated backend's system monitor.
use vstd::prelude::*;

use crate::server_config::{ServerConfig, ServerConfigService};
use crate::text::{decimal, digit_char, push_char, push_decimal, push_str};

verus! {

/// System monitoring service for collecting system metrics
pub struct SystemMonitorService;

/// User analytics data structure
#[derive(Debug, Clone, Copy)]
pub struct UserAnalytics {
    pub total_users: u64,
    pub active_users_7_days: u64,
    pub new_users_24_hours: u64,
    pub new_users_7_days: u64,
    pub new_users_30_days: u64,
}

/// The unit a byte count is shown in: 0 for bytes, 1 for KB, 2 for MB, 3 for GB.
pub open spec fn byte_unit(bytes: nat) -> nat {
    if bytes >= 1073741824 {
        3
    } else if bytes >= 1048576 {
        2
    } else if bytes >= 1024 {
        1
    } else {
        0
    }
}

/// The number of bytes in one of a unit.
pub open spec fn unit_size(unit: nat) -> nat {
    if unit == 3 {
        1073741824
    } else if unit == 2 {
        1048576
    } else if unit == 1 {
        1024
    } else {
        1
    }
}

/// The name of a unit.
pub open spec fn unit_name(unit: nat) -> Seq<char> {
    if unit == 3 {
        "GB"@
    } else if unit == 2 {
        "MB"@
    } else if unit == 1 {
        "KB"@
    } else {
        "B"@
    }
}

/// `n / d` rounded to the nearest integer, ties to the even one.
pub open spec fn round_div(n: nat, d: nat) -> nat
    recommends
        d > 0,
{
    let q = n / d;
    let r = n % d;
    if 2 * r > d || (2 * r == d && q % 2 == 1) {
        q + 1
    } else {
        q
    }
}

/// A byte count in tenths of its unit.
pub open spec fn byte_tenths(bytes: nat) -> nat {
    round_div(bytes * 10, unit_size(byte_unit(bytes)))
}

/// A byte count with one decimal in the largest unit, up to GB, that it
/// reaches: `1536` is `1.5 KB`.
pub open spec fn bytes_text(bytes: nat) -> Seq<char> {
    let t = byte_tenths(bytes);
    decimal(t / 10) + seq!['.', digit_char(t % 10), ' '] + unit_name(byte_unit(bytes))
}

/// An uptime in days, hours and minutes, leaving out leading zero fields:
/// `3661` seconds is `1h 1m`.
pub open spec fn uptime_text(seconds: nat) -> Seq<char> {
    let days = seconds / 86400;
    let hours = (seconds % 86400) / 3600;
    let minutes = (seconds % 3600) / 60;
    if days > 0 {
        decimal(days) + "d "@ + decimal(hours) + "h "@ + decimal(minutes) + "m"@
    } else if hours > 0 {
        decimal(hours) + "h "@ + decimal(minutes) + "m"@
    } else {
        decimal(minutes) + "m"@
    }
}

impl SystemMonitorService {
    /// Format bytes to human readable format
    pub fn format_bytes(bytes: u64) -> (r: String)
        ensures
            r@ == bytes_text(bytes as nat),
    {
        let (unit, size, name): (u64, u64, &str) = if bytes >= 1073741824 {
            (3, 1073741824, "GB")
        } else if bytes >= 1048576 {
            (2, 1048576, "MB")
        } else if bytes >= 1024 {
            (1, 1024, "KB")
        } else {
            (0, 1, "B")
        };
        let n: u128 = (bytes as u128) * 10;
        let q: u128 = n / (size as u128);
        let rem: u128 = n % (size as u128);
        let t: u128 = if 2 * rem > size as u128 || (2 * rem == size as u128 && q % 2 == 1) {
            q + 1
        } else {
            q
        };
        assert(t == byte_tenths(bytes as nat));
        assert(t <= 184467440737095516160u128 + 1);
        let whole: u64 = (t / 10) as u64;
        let frac: u64 = (t % 10) as u64;
        let mut r = String::new();
        push_decimal(&mut r, whole);
        push_char(&mut r, '.');
        push_char(&mut r, crate::text::digit_of(frac));
        push_char(&mut r, ' ');
        push_str(&mut r, name);
        assert(r@ =~= bytes_text(bytes as nat));
        r
    }

    /// Format uptime to human readable format
    pub fn format_uptime(seconds: u64) -> (r: String)
        ensures
            r@ == uptime_text(seconds as nat),
    {
        let days = seconds / 86400;
        let hours = (seconds % 86400) / 3600;
        let minutes = (seconds % 3600) / 60;
        let mut r = String::new();
        if days > 0 {
            push_decimal(&mut r, days);
            push_str(&mut r, "d ");
            push_decimal(&mut r, hours);
            push_str(&mut r, "h ");
            push_decimal(&mut r, minutes);
            push_str(&mut r, "m");
        } else if hours > 0 {
            push_decimal(&mut r, hours);
            push_str(&mut r, "h ");
            push_decimal(&mut r, minutes);
            push_str(&mut r, "m");
        } else {
            push_decimal(&mut r, minutes);
            push_str(&mut r, "m");
        }
        assert(r@ =~= uptime_text(seconds as nat));
        r
    }

    /// Get server information: host, port, protocol and environment.
    pub fn get_server_info(stored: Option<&ServerConfig>) -> (r: (String, u16, String, String))
        ensures
            r.0@ == match stored {
                Some(c) => c.host@,
                None => "localhost"@,
            },
            r.1 == match stored {
                Some(c) => c.port,
                None => 3000,
            },
            r.2@ == match stored {
                Some(c) => c.protocol@,
                None => "HTTP"@,
            },
            r.3@ == match stored {
                Some(c) => c.environment@,
                None => "development"@,
            },
    {
        let host = ServerConfigService::get_host(stored);
        let port = ServerConfigService::get_port(stored);
        let protocol = ServerConfigService::get_protocol(stored);
        let environment = ServerConfigService::get_environment(stored);
        (host, port, protocol, environment)
    }
}

} // verus!
