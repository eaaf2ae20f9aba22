//! Local inference settings.

use vstd::prelude::*;

use crate::error::{msg_error, AppError};
use crate::text::to_owned_string;

verus! {

/// Default cap on generated tokens for local completion.
pub const DEFAULT_MAX_NEW_TOKENS: i32 = 4096;

/// Upper bound on the generated-token cap.
pub const MAX_NEW_TOKENS_CAP: i32 = 32768;

/// Whether every character of `s` is an ASCII digit.
pub open spec fn all_digits(s: Seq<char>) -> bool {
    forall|i: int| 0 <= i < s.len() ==> '0' <= #[trigger] s[i] && s[i] <= '9'
}

/// The value of a string of ASCII digits.
pub open spec fn digits_value(s: Seq<char>) -> int
    decreases s.len(),
{
    if s.len() == 0 {
        0
    } else {
        digits_value(s.drop_last()) * 10 + (s.last() as int - '0' as int)
    }
}

/// What `str::parse::<i32>` gives: an optional `+` or `-` followed by one or more ASCII digits
/// whose value fits in `i32`; anything else (empty text, white space, other characters,
/// overflow) is no number.
pub open spec fn parse_i32_spec(s: Seq<char>) -> Option<i32> {
    let neg = s.len() > 0 && s[0] == '-';
    let digits = if s.len() > 0 && (s[0] == '-' || s[0] == '+') {
        s.drop_first()
    } else {
        s
    };
    let v = if neg {
        -digits_value(digits)
    } else {
        digits_value(digits)
    };
    if digits.len() == 0 || !all_digits(digits) || v < i32::MIN || v > i32::MAX {
        None
    } else {
        Some(v as i32)
    }
}

proof fn lemma_digits_value_nonneg(s: Seq<char>)
    requires
        all_digits(s),
    ensures
        digits_value(s) >= 0,
    decreases s.len(),
{
    if s.len() > 0 {
        assert(all_digits(s.drop_last())) by {
            assert forall|i: int| 0 <= i < s.drop_last().len() implies '0' <= #[trigger] s.drop_last()[i] && s.drop_last()[i] <= '9' by {
                assert(s.drop_last()[i] == s[i]);
            }
        }
        lemma_digits_value_nonneg(s.drop_last());
        assert(s.last() == s[s.len() - 1]);
    }
}

/// A longer digit string is worth at least as much as its prefixes.
proof fn lemma_digits_value_prefix(s: Seq<char>, k: int)
    requires
        all_digits(s),
        0 <= k <= s.len(),
    ensures
        digits_value(s.take(k)) <= digits_value(s),
    decreases s.len(),
{
    if k < s.len() {
        let d = s.drop_last();
        assert(all_digits(d)) by {
            assert forall|i: int| 0 <= i < d.len() implies '0' <= #[trigger] d[i] && d[i] <= '9' by {
                assert(d[i] == s[i]);
            }
        }
        lemma_digits_value_prefix(d, k);
        assert(d.take(k) =~= s.take(k));
        lemma_digits_value_nonneg(d);
        assert(s.last() == s[s.len() - 1]);
    } else {
        assert(s.take(k) =~= s);
    }
}

/// `str::parse::<i32>` (integer `FromStr`): an optional sign, then decimal digits, in range.
fn parse_i32(s: &str) -> (r: Option<i32>)
    ensures
        r == parse_i32_spec(s@),
{
    let n = s.unicode_len();
    if n == 0 {
        return None;
    }
    let first = s.get_char(0);
    let neg = first == '-';
    let start: usize = if first == '-' || first == '+' {
        1
    } else {
        0
    };
    let ghost digits = if s@.len() > 0 && (s@[0] == '-' || s@[0] == '+') {
        s@.drop_first()
    } else {
        s@
    };
    assert(digits =~= s@.subrange(start as int, n as int));
    if start == n {
        return None;
    }
    let mut acc: i64 = 0;
    let mut i: usize = start;
    while i < n
        invariant
            n == s@.len(),
            start <= i <= n,
            digits == s@.subrange(start as int, n as int),
            digits == if s@.len() > 0 && (s@[0] == '-' || s@[0] == '+') {
                s@.drop_first()
            } else {
                s@
            },
            all_digits(digits.take(i - start)),
            acc as int == digits_value(digits.take(i - start)),
            0 <= acc <= 2147483648,
        decreases n - i,
    {
        let c = s.get_char(i);
        let ghost k = (i - start) as int;
        assert(digits[k] == c);
        if !('0' <= c && c <= '9') {
            assert(!all_digits(digits));

            return None;
        }
        let d = (c as u32 - '0' as u32) as i64;
        let next = acc * 10 + d;
        proof {
            let t = digits.take(k + 1);
            assert(t.drop_last() =~= digits.take(k));
            assert(t.last() == c);
            assert(all_digits(t)) by {
                assert forall|j: int| 0 <= j < t.len() implies '0' <= #[trigger] t[j] && t[j] <= '9' by {
                    if j < k {
                        assert(t[j] == digits.take(k)[j]);
                    }
                }
            }
        }
        if next > 2147483648 {
            proof {
                if all_digits(digits) {
                    lemma_digits_value_prefix(digits, k + 1);
                }
            }
            return None;
        }
        acc = next;
        i = i + 1;
    }
    assert(digits.take(n - start) =~= digits);
    if neg {
        Some((-acc) as i32)
    } else if acc <= 2147483647 {
        Some(acc as i32)
    } else {
        None
    }
}

/// The token cap from the value of `CLAI_MAX_NEW_TOKENS`: a positive number, capped; otherwise
/// the default.
pub open spec fn max_new_tokens_spec(env_value: Option<Seq<char>>) -> i32 {
    match env_value {
        Some(v) => match parse_i32_spec(v) {
            Some(n) => if n > 0 {
                if n < MAX_NEW_TOKENS_CAP {
                    n
                } else {
                    MAX_NEW_TOKENS_CAP
                }
            } else {
                DEFAULT_MAX_NEW_TOKENS
            },
            None => DEFAULT_MAX_NEW_TOKENS,
        },
        None => DEFAULT_MAX_NEW_TOKENS,
    }
}

/// Effective max new tokens for local completion, from the value of `CLAI_MAX_NEW_TOKENS`.
pub fn max_new_tokens_local(env_value: Option<&str>) -> (r: i32)
    ensures
        r == max_new_tokens_spec(
            match env_value {
                Some(v) => Some(v@),
                None => None,
            },
        ),
        0 < r <= MAX_NEW_TOKENS_CAP,
{
    match env_value {
        Some(v) => match parse_i32(v) {
            Some(n) => if n > 0 {
                if n < MAX_NEW_TOKENS_CAP {
                    n
                } else {
                    MAX_NEW_TOKENS_CAP
                }
            } else {
                DEFAULT_MAX_NEW_TOKENS
            },
            None => DEFAULT_MAX_NEW_TOKENS,
        },
        None => DEFAULT_MAX_NEW_TOKENS,
    }
}

/// Message of a build without embedded inference.
pub const NO_LLAMA_MSG: &'static str = "clai was built without `llama`; rebuild with default features";

/// Generate model text for a request with the local model. This build has no embedded
/// inference engine, so it always reports that.
pub fn complete_local_best_effort(model_path: &str, system: &str, user: &str, max_tokens: i32) -> (r:
    Result<String, AppError>)
    ensures
        r is Err && msg_error(r->Err_0, NO_LLAMA_MSG@),
{
    Err(AppError::Msg(to_owned_string(NO_LLAMA_MSG)))
}

} // verus!
