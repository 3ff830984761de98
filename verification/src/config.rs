//! Configuration loading: the staleness threshold and the monitored host
//! list, both handed in as the raw text of their environment entries.

use vstd::prelude::*;

verus! {

/// Default staleness threshold: one hour, in milliseconds.
pub const DEFAULT_THRESHOLD_MS: i64 = 3600000;

/// A fatal configuration error, raised at startup before any host is polled.
#[derive(Debug, Clone, Copy, PartialEq, Eq, Structural)]
pub enum ConfigError {
    /// The configured threshold is not a decimal integer in range.
    MalformedThreshold,
}

/// A decimal digit, `'0'` through `'9'`.
pub open spec fn is_dec_digit(c: char) -> bool {
    48 <= c as int <= 57
}

/// Numeric value of a decimal digit.
pub open spec fn digit_val(c: char) -> int {
    c as int - 48
}

/// Every character of `s` is a decimal digit.
pub open spec fn all_dec_digits(s: Seq<char>) -> bool {
    forall|i: int| 0 <= i < s.len() ==> is_dec_digit(#[trigger] s[i])
}

/// Value of a digit sequence read in base ten.
pub open spec fn dec_val(s: Seq<char>) -> int
    decreases s.len(),
{
    if s.len() == 0 {
        0
    } else {
        dec_val(s.drop_last()) * 10 + digit_val(s.last())
    }
}

/// The digit part of integer text: everything after an optional leading sign.
pub open spec fn int_body(s: Seq<char>) -> Seq<char> {
    if s.len() > 0 && (s[0] == '+' || s[0] == '-') {
        s.subrange(1, s.len() as int)
    } else {
        s
    }
}

/// The sign of integer text: `-1` under a leading minus, `1` otherwise.
pub open spec fn int_sign(s: Seq<char>) -> int {
    if s.len() > 0 && s[0] == '-' {
        -1
    } else {
        1
    }
}

/// Well-formed integer text: an optional sign followed by one or more
/// decimal digits, and nothing else.
pub open spec fn is_int_text(s: Seq<char>) -> bool {
    int_body(s).len() > 0 && all_dec_digits(int_body(s))
}

/// The integer that well-formed integer text denotes.
pub open spec fn int_text_val(s: Seq<char>) -> int {
    int_sign(s) * dec_val(int_body(s))
}

proof fn lemma_dec_val_nonneg(s: Seq<char>)
    requires
        all_dec_digits(s),
    ensures
        dec_val(s) >= 0,
    decreases s.len(),
{
    if s.len() > 0 {
        assert(all_dec_digits(s.drop_last()));
        lemma_dec_val_nonneg(s.drop_last());
    }
}

proof fn lemma_dec_val_prefix_le(s: Seq<char>, k: int)
    requires
        all_dec_digits(s),
        0 <= k <= s.len(),
    ensures
        dec_val(s.subrange(0, k)) <= dec_val(s),
    decreases s.len() - k,
{
    if k == s.len() {
        assert(s.subrange(0, k) =~= s);
    } else {
        let p = s.subrange(0, k);
        let q = s.subrange(0, k + 1);
        assert(q.drop_last() =~= p);
        assert(q.last() == s[k]);
        assert(all_dec_digits(p));
        lemma_dec_val_nonneg(p);
        assert(dec_val(q) == dec_val(p) * 10 + digit_val(s[k]));
        lemma_dec_val_prefix_le(s, k + 1);
    }
}

/// Parses decimal integer text — an optional `+` or `-` sign followed by one
/// or more digits — into an `i64`, rejecting malformed text and values out
/// of range.
pub fn parse_i64(s: &str) -> (r: Option<i64>)
    ensures
        r is Some <==> (is_int_text(s@) && i64::MIN <= int_text_val(s@) <= i64::MAX),
        r matches Some(v) ==> v as int == int_text_val(s@),
{
    let n = s.unicode_len();
    if n == 0 {
        return None;
    }
    let c0 = s.get_char(0);
    let negative = c0 == '-';
    let start: usize = if c0 == '-' || c0 == '+' {
        1
    } else {
        0
    };
    proof {
        if start == 0 {
            assert(s@.subrange(0, n as int) =~= s@);
        }
        assert(int_body(s@) == s@.subrange(start as int, n as int));
    }
    if start == n {
        return None;
    }
    let mut i: usize = start;
    let mut acc: u128 = 0;
    while i < n
        invariant
            n == s@.len(),
            start <= i <= n,
            start == 1 ==> (s@[0] == '-' || s@[0] == '+'),
            negative == (n > 0 && s@[0] == '-'),
            int_body(s@) == s@.subrange(start as int, n as int),
            int_sign(s@) == if negative {
                -1int
            } else {
                1int
            },
            all_dec_digits(s@.subrange(start as int, i as int)),
            acc as int == dec_val(s@.subrange(start as int, i as int)),
            acc <= 9223372036854775808u128,
        decreases n - i,
    {
        let c = s.get_char(i);
        let d = c as u32;
        if d < 48 || d > 57 {
            proof {
                let body = int_body(s@);
                assert(body[i - start] == s@[i as int]);
                assert(!is_dec_digit(body[i - start]));
            }
            return None;
        }
        proof {
            let p = s@.subrange(start as int, i as int);
            let q = s@.subrange(start as int, i as int + 1);
            assert(q.drop_last() =~= p);
            assert(q.last() == s@[i as int]);
            assert(dec_val(q) == dec_val(p) * 10 + digit_val(s@[i as int]));
        }
        acc = acc * 10 + (d - 48) as u128;
        if acc > 9223372036854775808u128 {
            proof {
                if is_int_text(s@) {
                    let body = int_body(s@);
                    let done = i as int + 1 - start;
                    assert(s@.subrange(start as int, i as int + 1) =~= body.subrange(0, done));
                    lemma_dec_val_prefix_le(body, done);
                }
            }
            return None;
        }
        i = i + 1;
    }
    proof {
        assert(s@.subrange(start as int, n as int) =~= int_body(s@));
    }
    if negative {
        let v: i64 = (-(acc as i128)) as i64;
        Some(v)
    } else {
        if acc > 9223372036854775807u128 {
            return None;
        }
        Some(acc as i64)
    }
}

/// Reads the staleness threshold from the raw text of its configuration
/// entry. An absent entry means the default of one hour; malformed text —
/// anything but a decimal integer that fits an `i64` — is a fatal
/// configuration error, never silently defaulted.
pub fn threshold_from_config(raw: Option<String>) -> (r: Result<i64, ConfigError>)
    ensures
        raw is None ==> r == Ok::<i64, ConfigError>(DEFAULT_THRESHOLD_MS),
        raw matches Some(s) ==> if is_int_text(s@) && i64::MIN <= int_text_val(s@) <= i64::MAX {
            r matches Ok(t) && t as int == int_text_val(s@)
        } else {
            r == Err::<i64, ConfigError>(ConfigError::MalformedThreshold)
        },
{
    match raw {
        None => Ok(DEFAULT_THRESHOLD_MS),
        Some(s) => match parse_i64(s.as_str()) {
            Some(v) => Ok(v),
            None => Err(ConfigError::MalformedThreshold),
        },
    }
}

/// What decoding host-list text yields: `Some` with the listed connection
/// strings when the text is a JSON array of strings, `None` otherwise.
pub uninterp spec fn json_string_list(s: Seq<char>) -> Option<Seq<Seq<char>>>;

/// Relies on `serde_json::from_str::<Vec<String>>`: decodes JSON text into a
/// list of strings, failing exactly when the text is not a JSON array of
/// strings; the outcome is a function of the input text alone.
#[verifier::external_body]
fn decode_host_list(s: &str) -> (r: Option<Vec<String>>)
    ensures
        r is Some <==> json_string_list(s@) is Some,
        r matches Some(v) ==> json_string_list(s@) == Some(v.deep_view()),
{
    match serde_json::from_str::<Vec<String>>(s) {
        Ok(v) => Some(v),
        Err(_) => None,
    }
}

/// Reads the monitored host list from the raw text of its configuration
/// entry. An absent or undecodable entry yields the empty list — the checks
/// then run as no-ops — never an error.
pub fn hosts_from_config(raw: Option<String>) -> (r: Vec<String>)
    ensures
        raw is None ==> r@.len() == 0,
        raw matches Some(s) ==> match json_string_list(s@) {
            Some(hosts) => r.deep_view() == hosts,
            None => r@.len() == 0,
        },
{
    match raw {
        None => Vec::new(),
        Some(s) => match decode_host_list(s.as_str()) {
            Some(hosts) => hosts,
            None => Vec::new(),
        },
    }
}

} // verus!
