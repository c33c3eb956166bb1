//! Money amounts: the API sends them as decimal strings, the store keeps
//! them as signed 64-bit integers.
use vstd::prelude::*;
use crate::text::{chars_of, decimal, digit_char, signed_decimal};

verus! {

pub open spec fn is_ascii_digit(c: char) -> bool {
    '0' <= c && c <= '9'
}

pub open spec fn digit_value(c: char) -> int {
    c as int - '0' as int
}

pub open spec fn all_ascii_digits(ds: Seq<char>) -> bool {
    forall|i: int| 0 <= i < ds.len() ==> is_ascii_digit(#[trigger] ds[i])
}

/// The number that a sequence of decimal digits denotes, most significant first.
pub open spec fn decimal_value(ds: Seq<char>) -> int
    decreases ds.len(),
{
    if ds.len() == 0 {
        0
    } else {
        decimal_value(ds.drop_last()) * 10 + digit_value(ds.last())
    }
}

/// What `i64`'s `FromStr` accepts: an optional `+` or `-`, then one or more
/// ASCII digits, denoting a value in the range of `i64`. `None` for anything else.
pub open spec fn parsed_i64(s: Seq<char>) -> Option<int> {
    let signed = s.len() > 0 && (s[0] == '-' || s[0] == '+');
    let body = if signed { s.drop_first() } else { s };
    let magnitude = decimal_value(body);
    let v = if s.len() > 0 && s[0] == '-' { -magnitude } else { magnitude };
    if body.len() == 0 || !all_ascii_digits(body) {
        None
    } else if i64::MIN <= v && v <= i64::MAX {
        Some(v)
    } else {
        None
    }
}

/// The amount stored for a money string: its value where it parses, 0 where not.
pub open spec fn money_value(s: Seq<char>) -> int {
    match parsed_i64(s) {
        Some(v) => v,
        None => 0,
    }
}

pub proof fn lemma_decimal_value_nonneg(ds: Seq<char>)
    requires
        all_ascii_digits(ds),
    ensures
        decimal_value(ds) >= 0,
    decreases ds.len(),
{
    if ds.len() > 0 {
        lemma_decimal_value_nonneg(ds.drop_last());
    }
}

/// Parses a numeric string like "644360000" into an `i64`, giving 0 where the
/// string is not a valid `i64`.
pub fn parse_money(s: &str) -> (res: i64)
    ensures
        res == money_value(s@),
{
    let cs = chars_of(s);
    let n = cs.len();
    if n == 0 {
        return 0;
    }
    let negative = cs[0] == '-';
    let start: usize = if cs[0] == '-' || cs[0] == '+' { 1 } else { 0 };
    if start == n {
        return 0;
    }
    let ghost body = cs@.subrange(start as int, n as int);
    assert(body == (if cs@[0] == '-' || cs@[0] == '+' { s@.drop_first() } else { s@ }));
    // 2^63: the largest magnitude an i64 can hold (as a negative number)
    let limit: i128 = 9223372036854775808;
    let mut acc: i128 = 0;
    let mut too_large = false;
    let mut i = start;
    while i < n
        invariant
            start <= i <= n,
            n == cs@.len(),
            cs@ == s@,
            n > 0,
            body == (if cs@[0] == '-' || cs@[0] == '+' { s@.drop_first() } else { s@ }),
            body == cs@.subrange(start as int, n as int),
            limit == 9223372036854775808,
            all_ascii_digits(cs@.subrange(start as int, i as int)),
            !too_large ==> acc == decimal_value(cs@.subrange(start as int, i as int)),
            !too_large ==> 0 <= acc <= limit,
            too_large ==> decimal_value(cs@.subrange(start as int, i as int)) > limit,
        decreases n - i,
    {
        let c = cs[i];
        if !('0' <= c && c <= '9') {
            assert(body[i - start] == c);
            assert(!is_ascii_digit(body[i - start]));
            assert(!all_ascii_digits(body));
            return 0;
        }
        let ghost prefix = cs@.subrange(start as int, i as int);
        let ghost next = cs@.subrange(start as int, i + 1);
        assert(next.drop_last() == prefix);
        assert(next.last() == c);
        assert(all_ascii_digits(next)) by {
            assert forall|k: int| 0 <= k < next.len() implies is_ascii_digit(#[trigger] next[k]) by {
                if k < prefix.len() {
                    assert(next[k] == prefix[k]);
                }
            }
        }
        proof {
            lemma_decimal_value_nonneg(prefix);
        }
        if !too_large {
            let d = (c as u32 - '0' as u32) as i128;
            let candidate = acc * 10 + d;
            if candidate > limit {
                too_large = true;
            } else {
                acc = candidate;
            }
        }
        i = i + 1;
    }
    assert(cs@.subrange(start as int, n as int) == body);
    if too_large {
        return 0;
    }
    if negative {
        assert(cs@[0] == '-');
        (-acc) as i64
    } else if acc <= 9223372036854775807 {
        acc as i64
    } else {
        0
    }
}

/// The decimal notation of `n` is made of digits and denotes `n`.
pub proof fn lemma_decimal_denotes(n: nat)
    ensures
        decimal(n).len() > 0,
        all_ascii_digits(decimal(n)),
        decimal_value(decimal(n)) == n,
    decreases n,
{
    if n >= 10 {
        lemma_decimal_denotes(n / 10);
        let d = decimal(n);
        assert(d.drop_last() == decimal(n / 10));
        assert(digit_value(digit_char(n % 10)) == n % 10);
        assert(d.last() == digit_char(n % 10));
        assert((n / 10) * 10 + n % 10 == n);
        assert(decimal_value(d) == decimal_value(d.drop_last()) * 10 + digit_value(d.last()));
        assert forall|i: int| 0 <= i < d.len() implies is_ascii_digit(#[trigger] d[i]) by {
            if i < d.len() - 1 {
                assert(d[i] == decimal(n / 10)[i]);
            }
        }
    } else {
        assert(decimal(n).drop_last() =~= Seq::<char>::empty());
        assert(digit_value(digit_char(n)) == n);
        assert(decimal_value(Seq::<char>::empty()) == 0);
        assert(decimal(n).last() == digit_char(n));
    }
}

/// Money amounts survive being written out and read back: the decimal
/// notation of any `i64` (as the store shows it) parses to that same value.
pub proof fn law_money_text_round_trip(v: i64)
    ensures
        parsed_i64(signed_decimal(v as int)) == Some(v as int),
        money_value(signed_decimal(v as int)) == v,
{
    if v < 0 {
        let m = (-v) as nat;
        lemma_decimal_denotes(m);
        let s = signed_decimal(v as int);
        assert(s[0] == '-');
        assert(s.drop_first() =~= decimal(m));
    } else {
        lemma_decimal_denotes(v as nat);
        let s = decimal(v as nat);
        assert(is_ascii_digit(s[0]));
    }
}

/// Anything but an optional sign followed by digits is stored as 0: the
/// empty string, a lone sign, and any string with a character that is not a
/// digit after the first position (or, there, neither a digit nor a sign).
pub proof fn law_malformed_money_is_zero(s: Seq<char>, k: int)
    requires
        0 <= k < s.len(),
        !is_ascii_digit(s[k]),
        k > 0 || (s[0] != '-' && s[0] != '+') || s.len() == 1,
    ensures
        parsed_i64(s) == None::<int>,
        money_value(s) == 0,
        parsed_i64(Seq::empty()) == None::<int>,
{
    let signed = s.len() > 0 && (s[0] == '-' || s[0] == '+');
    let body = if signed { s.drop_first() } else { s };
    if signed && k > 0 {
        assert(body[k - 1] == s[k]);
    } else if !signed {
        assert(body[k] == s[k]);
    }
}

/// A leading `-` negates, a leading `+` changes nothing.
pub proof fn law_money_sign(ds: Seq<char>)
    requires
        ds.len() > 0,
        all_ascii_digits(ds),
        decimal_value(ds) <= i64::MAX,
    ensures
        parsed_i64(ds) == Some(decimal_value(ds)),
        parsed_i64(seq!['+'] + ds) == Some(decimal_value(ds)),
        parsed_i64(seq!['-'] + ds) == Some(-decimal_value(ds)),
{
    lemma_decimal_value_nonneg(ds);
    assert(is_ascii_digit(ds[0]));
    assert((seq!['+'] + ds).drop_first() =~= ds);
    assert((seq!['-'] + ds).drop_first() =~= ds);
}

} // verus!
