use vstd::prelude::*;
use crate::error::Error;

verus! {

/// The response header holding how many requests are left in the window.
pub const RATE_LIMIT_REMAINING_HEADER: &'static str = "x-ratelimit-remaining";

/// The response header holding the seconds until the window resets.
pub const RATE_LIMIT_RESET_HEADER: &'static str = "x-ratelimit-reset";

/// A decimal digit.
pub open spec fn is_digit(c: char) -> bool {
    '0' <= c && c <= '9'
}

/// The value of a decimal digit.
pub open spec fn digit_value(c: char) -> nat {
    (c as u32 - '0' as u32) as nat
}

/// The number that a string of decimal digits denotes.
pub open spec fn digits_value(d: Seq<char>) -> nat
    decreases d.len(),
{
    if d.len() == 0 {
        0
    } else {
        digits_value(d.drop_last()) * 10 + digit_value(d.last())
    }
}

/// The text after an optional leading `+`.
pub open spec fn unsigned_digits(s: Seq<char>) -> Seq<char> {
    if s.len() > 0 && s[0] == '+' {
        s.drop_first()
    } else {
        s
    }
}

/// `s` read as an unsigned 64-bit decimal: an optional `+`, then one or more
/// digits, denoting a value that fits. Anything else reads as `None`.
pub open spec fn u64_of(s: Seq<char>) -> Option<u64> {
    let d = unsigned_digits(s);
    if d.len() > 0 && (forall|i: int| 0 <= i < d.len() ==> is_digit(#[trigger] d[i]))
        && digits_value(d) <= u64::MAX {
        Some(digits_value(d) as u64)
    } else {
        None
    }
}

/// Read `s` as an unsigned decimal integer.
pub fn parse_u64(s: &str) -> (r: Option<u64>)
    ensures
        r == u64_of(s@),
{
    let n = s.unicode_len();
    let mut start: usize = 0;
    if n > 0 && s.get_char(0) == '+' {
        start = 1;
    }
    let ghost d = unsigned_digits(s@);
    assert(d =~= s@.subrange(start as int, n as int));
    if start >= n {
        return None;
    }
    let mut v: u64 = 0;
    let mut overflow = false;
    let mut i: usize = start;
    while i < n
        invariant
            n == s@.len(),
            start <= i <= n,
            d == unsigned_digits(s@),
            d =~= s@.subrange(start as int, n as int),
            forall|j: int| 0 <= j < i - start ==> is_digit(#[trigger] d[j]),
            !overflow ==> v == digits_value(d.subrange(0, i - start)),
            overflow ==> digits_value(d.subrange(0, i - start)) > u64::MAX,
        decreases n - i,
    {
        let c = s.get_char(i);
        if !('0' <= c && c <= '9') {
            assert(!is_digit(d[i - start]));
            assert(!(forall|j: int| 0 <= j < d.len() ==> is_digit(#[trigger] d[j])));
            return None;
        }
        let dig = (c as u32 - '0' as u32) as u64;
        let ghost p = d.subrange(0, i - start + 1);
        assert(p.drop_last() =~= d.subrange(0, i - start));
        assert(p.last() == c);
        assert(digits_value(p) == digits_value(d.subrange(0, i - start)) * 10 + dig);
        if !overflow {
            if v > (u64::MAX - dig) / 10 {
                overflow = true;
                assert(v * 10 + dig > u64::MAX) by (nonlinear_arith)
                    requires
                        v > (u64::MAX - dig) / 10,
                        dig <= 9,
                ;
            } else {
                assert(v * 10 + dig <= u64::MAX) by (nonlinear_arith)
                    requires
                        v <= (u64::MAX - dig) / 10,
                        dig <= 9,
                ;
                v = v * 10 + dig;
            }
        } else {
            assert(digits_value(p) > u64::MAX) by (nonlinear_arith)
                requires
                    digits_value(p) == digits_value(d.subrange(0, i - start)) * 10 + dig,
                    digits_value(d.subrange(0, i - start)) > u64::MAX,
            ;
        }
        i += 1;
    }
    assert(d.subrange(0, n - start) =~= d);
    if overflow {
        None
    } else {
        Some(v)
    }
}

/// A client or server error status.
pub open spec fn is_error_status(code: u16) -> bool {
    400 <= code && code <= 599
}

/// The view of an optional header value.
pub open spec fn header_view(h: Option<&str>) -> Option<Seq<char>> {
    match h {
        Some(s) => Some(s@),
        None => None,
    }
}

/// How the client throttles itself from the service's rate-limit headers.
#[derive(Debug, Clone, Copy, PartialEq, Eq, Structural)]
pub struct RateLimitPolicy {
    /// Wait once the remaining quota is at or below this
    pub threshold: u64,
    /// Seconds to wait where the reset header is missing or unreadable
    pub default_wait_secs: u64,
}

/// The wait, in seconds, that the headers call for under `p`: none unless the
/// remaining quota reads as a number at or below the threshold; then the reset
/// header's number, or the default where that does not read.
pub open spec fn wait_of(p: RateLimitPolicy, remaining: Option<Seq<char>>, reset: Option<
    Seq<char>,
>) -> Option<u64> {
    match remaining {
        Some(rem) => match u64_of(rem) {
            Some(left) => if left <= p.threshold {
                Some(
                    match reset {
                        Some(t) => match u64_of(t) {
                            Some(secs) => secs,
                            None => p.default_wait_secs,
                        },
                        None => p.default_wait_secs,
                    },
                )
            } else {
                None
            },
            None => None,
        },
        None => None,
    }
}

impl RateLimitPolicy {
    /// Wait when one request or none is left; wait a minute when the reset is unknown.
    pub fn new() -> (r: RateLimitPolicy)
        ensures
            r.threshold == 1,
            r.default_wait_secs == 60,
    {
        RateLimitPolicy { threshold: 1, default_wait_secs: 60 }
    }

    /// The seconds to wait after a successful response with these header values.
    pub fn wait_secs(&self, remaining: Option<&str>, reset: Option<&str>) -> (r: Option<u64>)
        ensures
            r == wait_of(*self, header_view(remaining), header_view(reset)),
    {
        let left = match remaining {
            Some(rem) => parse_u64(rem),
            None => None,
        };
        match left {
            Some(l) => {
                if l <= self.threshold {
                    let secs = match reset {
                        Some(t) => match parse_u64(t) {
                            Some(x) => x,
                            None => self.default_wait_secs,
                        },
                        None => self.default_wait_secs,
                    };
                    Some(secs)
                } else {
                    None
                }
            },
            None => None,
        }
    }

    /// What follows a response: an error status ends the call with
    /// `Error::Status`; otherwise the call goes on after the wait, if any.
    pub fn after_response(&self, status: u16, remaining: Option<&str>, reset: Option<&str>) -> (r:
        Result<Option<u64>, Error>)
        ensures
            is_error_status(status) ==> r == Err::<Option<u64>, Error>(Error::Status(status)),
            !is_error_status(status) ==> r == Ok::<Option<u64>, Error>(
                wait_of(*self, header_view(remaining), header_view(reset)),
            ),
    {
        if 400 <= status && status <= 599 {
            Err(Error::Status(status))
        } else {
            Ok(self.wait_secs(remaining, reset))
        }
    }
}

} // verus!
