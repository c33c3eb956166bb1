//! Character-level helpers shared by the other modules: splitting a string
//! into its characters, building strings, searching and decimal formatting.
use vstd::prelude::*;

verus! {

/// `String::push` from std: appends one character at the end.
#[verifier::external_body]
pub(crate) fn push_char(s: &mut String, c: char)
    ensures
        final(s)@ == old(s)@.push(c),
{
    s.push(c);
}

/// White_Space in the Unicode Character Database (PropList.txt): the
/// characters that `str::trim` strips.
pub open spec fn unicode_white_space(c: char) -> bool {
    let u = c as u32;
    ||| (0x09 <= u && u <= 0x0d)
    ||| u == 0x20
    ||| u == 0x85
    ||| u == 0xa0
    ||| u == 0x1680
    ||| (0x2000 <= u && u <= 0x200a)
    ||| u == 0x2028
    ||| u == 0x2029
    ||| u == 0x202f
    ||| u == 0x205f
    ||| u == 0x3000
}

/// How many white-space characters `s` starts with.
pub open spec fn leading_white_space(s: Seq<char>) -> nat
    decreases s.len(),
{
    if s.len() > 0 && unicode_white_space(s[0]) {
        1 + leading_white_space(s.drop_first())
    } else {
        0
    }
}

/// How many white-space characters `s` ends with.
pub open spec fn trailing_white_space(s: Seq<char>) -> nat
    decreases s.len(),
{
    if s.len() > 0 && unicode_white_space(s.last()) {
        1 + trailing_white_space(s.drop_last())
    } else {
        0
    }
}

/// `s` without its leading and trailing white space.
pub open spec fn trimmed(s: Seq<char>) -> Seq<char> {
    if leading_white_space(s) >= s.len() {
        Seq::empty()
    } else {
        s.subrange(leading_white_space(s) as int, s.len() - trailing_white_space(s))
    }
}

proof fn lemma_leading_white_space(s: Seq<char>)
    ensures
        leading_white_space(s) <= s.len(),
        forall|k: int| 0 <= k < leading_white_space(s) ==> unicode_white_space(#[trigger] s[k]),
        leading_white_space(s) < s.len() ==> !unicode_white_space(s[leading_white_space(s) as int]),
    decreases s.len(),
{
    if s.len() > 0 && unicode_white_space(s[0]) {
        let t = s.drop_first();
        lemma_leading_white_space(t);
        assert forall|k: int| 0 <= k < leading_white_space(s) implies unicode_white_space(
            #[trigger] s[k],
        ) by {
            if k > 0 {
                assert(s[k] == t[k - 1]);
            }
        }
        if leading_white_space(s) < s.len() {
            assert(s[leading_white_space(s) as int] == t[leading_white_space(t) as int]);
        }
    }
}

proof fn lemma_trailing_white_space(s: Seq<char>)
    ensures
        trailing_white_space(s) <= s.len(),
        forall|k: int|
            0 <= k < trailing_white_space(s) ==> unicode_white_space(#[trigger] s[s.len() - 1 - k]),
        trailing_white_space(s) < s.len() ==> !unicode_white_space(
            s[s.len() - 1 - trailing_white_space(s)],
        ),
    decreases s.len(),
{
    if s.len() > 0 && unicode_white_space(s.last()) {
        let t = s.drop_last();
        lemma_trailing_white_space(t);
        assert forall|k: int| 0 <= k < trailing_white_space(s) implies unicode_white_space(
            #[trigger] s[s.len() - 1 - k],
        ) by {
            if k > 0 {
                assert(s[s.len() - 1 - k] == t[t.len() - 1 - (k - 1)]);
            }
        }
        if trailing_white_space(s) < s.len() {
            assert(s[s.len() - 1 - trailing_white_space(s)] == t[t.len() - 1 - trailing_white_space(
                t,
            )]);
        }
    }
}

/// Trimming twice is trimming once.
pub proof fn lemma_trimmed_idempotent(s: Seq<char>)
    ensures
        trimmed(trimmed(s)) == trimmed(s),
{
    lemma_leading_white_space(s);
    lemma_trailing_white_space(s);
    let l = leading_white_space(s) as int;
    let r = trailing_white_space(s) as int;
    if l < s.len() {
        if r >= s.len() - l {
            let k = s.len() - 1 - l;
            assert(unicode_white_space(s[s.len() - 1 - k]));
        }
        let t = trimmed(s);
        assert(t == s.subrange(l, s.len() - r));
        assert(t[0] == s[l]);
        assert(leading_white_space(t) == 0);
        assert(t.last() == s[s.len() - 1 - r]);
        assert(trailing_white_space(t) == 0);
        assert(t.subrange(0, t.len() as int) =~= t);
    } else {
        assert(leading_white_space(Seq::<char>::empty()) == 0);
    }
}

/// `str::trim` from std: the slice of `s` without leading and trailing
/// characters that have the Unicode White_Space property.
#[verifier::external_body]
pub(crate) fn trim(s: &str) -> (res: &str)
    ensures
        res@ == trimmed(s@),
{
    s.trim()
}

/// What `str::to_uppercase` from std returns for a string: each character
/// mapped by Unicode's full upper-case mapping (one character may become
/// several).
pub uninterp spec fn upper_cased(s: Seq<char>) -> Seq<char>;

/// `str::to_uppercase` from std. Nothing is claimed of the result beyond
/// that it depends on the characters of `s` alone.
#[verifier::external_body]
pub(crate) fn to_uppercase(s: &str) -> (res: String)
    ensures
        res@ == upper_cased(s@),
{
    s.to_uppercase()
}

/// Whether `needle` occurs in `hay` as a contiguous run (the empty run occurs
/// everywhere).
pub open spec fn occurs_in(needle: Seq<char>, hay: Seq<char>) -> bool {
    exists|i: int|
        0 <= i && i + needle.len() <= hay.len() && #[trigger] hay.subrange(i, i + needle.len())
            == needle
}

/// The characters of `s`, in order.
pub fn chars_of(s: &str) -> (res: Vec<char>)
    ensures
        res@ == s@,
{
    let mut res: Vec<char> = Vec::new();
    for c in it: s.chars()
        invariant
            res@ == it.seq().take(it.index() as int),
            it.seq() == s@,
    {
        res.push(c);
    }
    res
}

/// Whether `c` occurs in `s`.
pub fn has_char(s: &str, c: char) -> (res: bool)
    ensures
        res == s@.contains(c),
{
    let cs = chars_of(s);
    for i in 0..cs.len()
        invariant
            cs@ == s@,
            forall|j: int| 0 <= j < i ==> cs@[j] != c,
    {
        if cs[i] == c {
            assert(s@[i as int] == c);
            return true;
        }
    }
    false
}

/// Whether `needle` occurs in `hay` starting at position `at`.
fn occurs_at(needle: &[char], hay: &[char], at: usize) -> (res: bool)
    requires
        at + needle@.len() <= hay@.len(),
    ensures
        res == (hay@.subrange(at as int, at + needle@.len()) == needle@),
{
    let n = needle.len();
    for k in 0..n
        invariant
            n == needle@.len(),
            at + n <= hay@.len(),
            hay@.len() == hay.len(),
            forall|j: int| 0 <= j < k ==> hay@[at + j] == needle@[j],
    {
        if hay[at + k] != needle[k] {
            assert(hay@.subrange(at as int, at + n)[k as int] != needle@[k as int]);
            return false;
        }
    }
    assert(hay@.subrange(at as int, at + n) =~= needle@);
    true
}

/// Whether `needle` occurs in `hay`, as `str::contains` with a string pattern.
pub fn contains_chars(hay: &[char], needle: &[char]) -> (res: bool)
    ensures
        res == occurs_in(needle@, hay@),
{
    let n = needle.len();
    let h = hay.len();
    if n > h {
        return false;
    }
    let mut i: usize = 0;
    while i <= h - n
        invariant_except_break
            n == needle@.len(),
            h == hay@.len(),
            n <= h,
            i <= h - n,
            forall|j: int| 0 <= j < i ==> #[trigger] hay@.subrange(j, j + n) != needle@,
        ensures
            forall|j: int| 0 <= j <= h - n ==> #[trigger] hay@.subrange(j, j + n) != needle@,
        decreases h - n - i,
    {
        if occurs_at(needle, hay, i) {
            return true;
        }
        if i == h - n {
            break;
        }
        i = i + 1;
    }
    false
}

/// Whether `s` holds anything but white space.
pub fn has_nonblank(s: &str) -> (res: bool)
    ensures
        res == (trimmed(s@).len() > 0),
{
    !trim(s).is_empty()
}

/// Whether `a` and `b` hold the same characters, as `==` on `str`.
pub fn same_text(a: &str, b: &str) -> (res: bool)
    ensures
        res == (a@ == b@),
{
    let x = chars_of(a);
    let y = chars_of(b);
    if x.len() != y.len() {
        return false;
    }
    for i in 0..x.len()
        invariant
            x@ == a@,
            y@ == b@,
            x@.len() == y@.len(),
            forall|j: int| 0 <= j < i ==> x@[j] == y@[j],
    {
        if x[i] != y[i] {
            return false;
        }
    }
    assert(x@ =~= y@);
    true
}

/// An owned copy of `s`.
pub fn owned(s: &str) -> (res: String)
    ensures
        res@ == s@,
{
    s.to_owned()
}

/// The character of a decimal digit.
pub open spec fn digit_char(d: nat) -> char {
    (48 + d) as char
}

/// The decimal notation of `n`, without leading zeros.
pub open spec fn decimal(n: nat) -> Seq<char>
    decreases n,
{
    if n < 10 {
        seq![digit_char(n)]
    } else {
        decimal(n / 10).push(digit_char(n % 10))
    }
}

/// The decimal notation of `v`, with a leading `-` where it is negative.
pub open spec fn signed_decimal(v: int) -> Seq<char> {
    if v < 0 {
        seq!['-'] + decimal((-v) as nat)
    } else {
        decimal(v as nat)
    }
}

fn digit(d: u64) -> (c: char)
    requires
        d < 10,
    ensures
        c == digit_char(d as nat),
{
    let b: u8 = 48 + d as u8;
    b as char
}

/// Appends the decimal notation of `n`.
pub fn push_decimal(s: &mut String, n: u64)
    ensures
        final(s)@ == old(s)@ + decimal(n as nat),
    decreases n,
{
    if n >= 10 {
        push_decimal(s, n / 10);
    }
    let ghost before = s@;
    push_char(s, digit(n % 10));
    if n < 10 {
        assert(s@ == old(s)@ + decimal(n as nat));
    } else {
        assert(s@ == old(s)@ + decimal((n / 10) as nat).push(digit_char((n % 10) as nat)));
    }
}

/// The decimal notation of `v`, as signed integers are displayed.
pub fn signed_decimal_text(v: i64) -> (res: String)
    ensures
        res@ == signed_decimal(v as int),
{
    let mut s = String::new();
    if v < 0 {
        push_char(&mut s, '-');
        let magnitude: u64 = if v == i64::MIN {
            9223372036854775808
        } else {
            (-v) as u64
        };
        push_decimal(&mut s, magnitude);
    } else {
        push_decimal(&mut s, v as u64);
        assert(s@ == Seq::<char>::empty() + decimal(v as nat));
    }
    s
}

/// `s` followed by spaces up to `width` characters, as `{:<width}` formats
/// it; a longer `s` is left as it is.
pub open spec fn padded(s: Seq<char>, width: nat) -> Seq<char> {
    if s.len() < width {
        s + Seq::new((width - s.len()) as nat, |i: int| ' ')
    } else {
        s
    }
}

/// `s` left-aligned in a field of `width` characters.
pub fn pad_right(s: &str, width: usize) -> (res: String)
    ensures
        res@ == padded(s@, width as nat),
{
    let cs = chars_of(s);
    let mut res = owned(s);
    let mut k = cs.len();
    while k < width
        invariant
            cs@ == s@,
            cs@.len() <= k <= width || (k == cs@.len() && k >= width),
            res@ == s@ + Seq::new((k - s@.len()) as nat, |i: int| ' '),
        decreases width - k,
    {
        let ghost before = res@;
        push_char(&mut res, ' ');
        assert(res@ =~= s@ + Seq::new((k + 1 - s@.len()) as nat, |i: int| ' '));
        k = k + 1;
    }
    assert(res@ =~= padded(s@, width as nat));
    res
}

/// Left-aligning keeps the text as it is at the front and fills with spaces
/// up to the width; text at least as wide stays unchanged.
pub proof fn law_padding(s: Seq<char>, width: nat)
    ensures
        padded(s, width).len() == if s.len() < width {
            width
        } else {
            s.len()
        },
        padded(s, width).subrange(0, s.len() as int) == s,
        forall|i: int| s.len() <= i < padded(s, width).len() ==> #[trigger] padded(s, width)[i] == ' ',
{
    assert(padded(s, width).subrange(0, s.len() as int) =~= s);
}

} // verus!
