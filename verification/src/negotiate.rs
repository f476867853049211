//! Capacity negotiation: reading the per-cycle transmission capacity out of
//! the handshake response, and clamping it by the optional global limit.
//!
//! The parser is deliberately tolerant: a response whose first
//! whitespace-separated token is missing, non-numeric or too large to hold
//! yields capacity zero instead of failing the session.

use vstd::prelude::*;

verus! {

/// ASCII whitespace, as the handshake parser sees it: space, tab, line
/// feed, vertical tab, form feed, carriage return.
pub open spec fn is_ws(b: u8) -> bool {
    b == 32 || (9 <= b && b <= 13)
}

/// The response with its leading whitespace removed.
pub open spec fn skip_ws(s: Seq<u8>) -> Seq<u8>
    decreases s.len(),
{
    if s.len() == 0 {
        s
    } else if is_ws(s[0]) {
        skip_ws(s.drop_first())
    } else {
        s
    }
}

/// The longest whitespace-free prefix.
pub open spec fn take_token(s: Seq<u8>) -> Seq<u8>
    decreases s.len(),
{
    if s.len() == 0 || is_ws(s[0]) {
        Seq::<u8>::empty()
    } else {
        seq![s[0]] + take_token(s.drop_first())
    }
}

/// The first whitespace-separated token of the response.
pub open spec fn first_token(s: Seq<u8>) -> Seq<u8> {
    take_token(skip_ws(s))
}

/// Whether every byte of `t` is an ASCII decimal digit.
pub open spec fn all_digits(t: Seq<u8>) -> bool {
    forall|i: int| 0 <= i < t.len() ==> 48 <= #[trigger] t[i] <= 57
}

/// The numeric value of a decimal digit string, most significant first.
pub open spec fn token_value(t: Seq<u8>) -> nat
    decreases t.len(),
{
    if t.len() == 0 {
        0
    } else {
        token_value(t.drop_last()) * 10 + (t.last() - 48) as nat
    }
}

/// The capacity a handshake response yields: its first whitespace-separated
/// token read as a non-negative decimal integer; a missing, non-numeric or
/// oversized token falls back to zero.
pub open spec fn spec_capacity_of(s: Seq<u8>) -> nat {
    let t = first_token(s);
    if t.len() > 0 && all_digits(t) && token_value(t) <= usize::MAX as nat {
        token_value(t)
    } else {
        0
    }
}

proof fn lemma_skip_ws_at(s: Seq<u8>, k: int)
    requires
        0 <= k <= s.len(),
        forall|j: int| 0 <= j < k ==> is_ws(#[trigger] s[j]),
        k == s.len() || !is_ws(s[k]),
    ensures
        skip_ws(s) =~= s.subrange(k, s.len() as int),
    decreases k,
{
    if k == 0 {
        assert(skip_ws(s) =~= s.subrange(0, s.len() as int));
    } else {
        lemma_skip_ws_at(s.drop_first(), k - 1);
        assert(skip_ws(s) =~= s.subrange(k, s.len() as int));
    }
}

proof fn lemma_take_token_at(s: Seq<u8>, m: int)
    requires
        0 <= m <= s.len(),
        forall|j: int| 0 <= j < m ==> !is_ws(#[trigger] s[j]),
        m == s.len() || is_ws(s[m]),
    ensures
        take_token(s) =~= s.subrange(0, m),
    decreases m,
{
    if m == 0 {
    } else {
        lemma_take_token_at(s.drop_first(), m - 1);
        assert(take_token(s) =~= s.subrange(0, m));
    }
}

proof fn lemma_token_value_monotone(t: Seq<u8>, m: int)
    requires
        0 <= m <= t.len(),
        all_digits(t),
    ensures
        token_value(t) >= token_value(t.subrange(0, m)),
    decreases t.len() - m,
{
    if m == t.len() {
        assert(t.subrange(0, m) =~= t);
    } else {
        lemma_token_value_monotone(t, m + 1);
        assert(t.subrange(0, m + 1).drop_last() =~= t.subrange(0, m));
        assert(token_value(t.subrange(0, m + 1)) >= token_value(t.subrange(0, m)));
    }
}

/// Reads the negotiated capacity out of a raw handshake response: the first
/// whitespace-separated token as a non-negative decimal integer, or zero
/// when the token is missing, non-numeric, or does not fit in `usize`.
pub fn parse_capacity(response: &Vec<u8>) -> (cap: usize)
    ensures
        cap == spec_capacity_of(response@),
{
    let ghost s = response@;
    let n: usize = response.len();

    let mut start: usize = 0;
    while start < n && (response[start] == 32 || (9 <= response[start] && response[start] <= 13))
        invariant
            0 <= start <= n,
            n == s.len(),
            s == response@,
            forall|j: int| 0 <= j < start ==> is_ws(#[trigger] s[j]),
        decreases n - start,
    {
        start = start + 1;
    }

    let mut end: usize = start;
    while end < n && !(response[end] == 32 || (9 <= response[end] && response[end] <= 13))
        invariant
            start <= end <= n,
            n == s.len(),
            s == response@,
            forall|j: int| start <= j < end ==> !is_ws(#[trigger] s[j]),
        decreases n - end,
    {
        end = end + 1;
    }

    let ghost token = s.subrange(start as int, end as int);
    proof {
        lemma_skip_ws_at(s, start as int);
        lemma_take_token_at(s.subrange(start as int, s.len() as int), end - start);
        assert(s.subrange(start as int, s.len() as int).subrange(0, end - start) =~= token);
        assert(first_token(s) =~= token);
    }

    if start == end {
        return 0;
    }

    let mut k: usize = start;
    while k < end
        invariant
            start <= k <= end <= n,
            n == s.len(),
            s == response@,
            token == s.subrange(start as int, end as int),
            first_token(s) == token,
            token.len() > 0,
            forall|j: int| start <= j < k ==> 48 <= #[trigger] s[j] <= 57,
        decreases end - k,
    {
        let b: u8 = response[k];
        if b < 48 || b > 57 {
            proof {
                assert(token[k - start] == s[k as int]);
                assert(!all_digits(token));
            }
            return 0;
        }
        k = k + 1;
    }
    proof {
        assert(forall|j: int| 0 <= j < token.len() ==> 48 <= #[trigger] token[j] <= 57) by {
            assert(forall|j: int|
                0 <= j < token.len() ==> token[j] == s[j + start] && 48 <= #[trigger] s[j + start]
                    <= 57);
        }
        assert(all_digits(token));
    }

    let mut acc: usize = 0;
    let mut k: usize = start;
    while k < end
        invariant
            start <= k <= end <= n,
            n == s.len(),
            s == response@,
            token == s.subrange(start as int, end as int),
            first_token(s) == token,
            token.len() > 0,
            all_digits(token),
            forall|j: int| start <= j < end ==> 48 <= #[trigger] s[j] <= 57,
            acc == token_value(s.subrange(start as int, k as int)),
        decreases end - k,
    {
        let d: u8 = response[k] - 48;
        if acc > (usize::MAX - d as usize) / 10 {
            proof {
                let prefix = s.subrange(start as int, k as int + 1);
                assert(prefix.drop_last() =~= s.subrange(start as int, k as int));
                assert(prefix.last() == s[k as int]);
                assert(token_value(prefix) == acc * 10 + (s[k as int] - 48));
                assert(acc * 10 + d >= usize::MAX + 1);
                assert(prefix =~= token.subrange(0, k - start + 1));
                lemma_token_value_monotone(token, k - start + 1);
                assert(token_value(token) > usize::MAX);
            }
            return 0;
        }
        acc = acc * 10 + d as usize;
        proof {
            let prefix = s.subrange(start as int, k as int + 1);
            assert(prefix.drop_last() =~= s.subrange(start as int, k as int));
        }
        k = k + 1;
    }
    proof {
        assert(s.subrange(start as int, end as int) =~= token);
    }
    acc
}

/// Clamps a negotiated capacity by the optional global limit of
/// `max_len_seconds` seconds of audio: with a nonzero limit the result is
/// `min(capacity, sample_rate * max_len_seconds)`; a zero limit means
/// unlimited and leaves the capacity unchanged.
pub fn clamp_capacity(capacity: usize, sample_rate: usize, max_len_seconds: usize) -> (r: usize)
    ensures
        max_len_seconds == 0 ==> r == capacity,
        max_len_seconds > 0 ==> r == vstd::math::min(
            capacity as int,
            sample_rate * max_len_seconds,
        ),
{
    if max_len_seconds > 0 {
        match sample_rate.checked_mul(max_len_seconds) {
            Some(limit) => if capacity <= limit {
                capacity
            } else {
                limit
            },
            // The exact limit exceeds usize::MAX, so no capacity reaches it.
            None => capacity,
        }
    } else {
        capacity
    }
}

/// One whole negotiation, after the handshake bytes have been exchanged:
/// the tolerant parse of the response followed by the global clamp.
pub fn negotiate_capacity(response: &Vec<u8>, sample_rate: usize, max_len_seconds: usize) -> (cap:
    usize)
    ensures
        max_len_seconds == 0 ==> cap == spec_capacity_of(response@),
        max_len_seconds > 0 ==> cap == vstd::math::min(
            spec_capacity_of(response@) as int,
            sample_rate * max_len_seconds,
        ),
{
    let negotiated: usize = parse_capacity(response);
    clamp_capacity(negotiated, sample_rate, max_len_seconds)
}

} // verus!
