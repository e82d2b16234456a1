//! Character-level string operations with exact specifications.
use vstd::prelude::*;
use vstd::string::*;

verus! {

/// Appends one character to a string (`String::push`).
#[verifier::external_body]
pub(crate) fn push_char(s: &mut String, c: char)
    ensures
        final(s)@ == old(s)@.push(c),
{
    s.push(c);
}

/// The characters of `s`, in order.
pub fn chars_of(s: &str) -> (v: Vec<char>)
    ensures
        v@ == s@,
{
    let mut v: Vec<char> = Vec::new();
    for c in it: s.chars()
        invariant
            v@ == it.seq().take(it.index() as int),
            it.seq() == s@,
    {
        v.push(c);
    }
    v
}

/// Builds a string from a sequence of characters.
pub fn string_of(v: &Vec<char>) -> (s: String)
    ensures
        s@ == v@,
{
    let mut s = String::new();
    for i in 0..v.len()
        invariant
            s@ == v@.take(i as int),
    {
        push_char(&mut s, v[i]);
    }
    s
}

/// The views of a list of strings.
pub open spec fn string_views(v: Seq<String>) -> Seq<Seq<char>> {
    v.map_values(|s: String| s@)
}

/// Builds a string from a string slice.
pub fn owned(s: &str) -> (r: String)
    ensures
        r@ == s@,
{
    String::from_str(s)
}

/// Appends a string slice to a string.
pub fn append_str(s: &mut String, t: &str)
    ensures
        final(s)@ == old(s)@ + t@,
{
    s.append(t);
}

/// Character-wise equality of two character vectors.
pub fn chars_equal(a: &Vec<char>, b: &Vec<char>) -> (r: bool)
    ensures
        r == (a@ == b@),
{
    if a.len() != b.len() {
        return false;
    }
    for i in 0..a.len()
        invariant
            a.len() == b.len(),
            forall|j: int| 0 <= j < i ==> a@[j] == b@[j],
    {
        if a[i] != b[i] {
            assert(a@[i as int] != b@[i as int]);
            return false;
        }
    }
    assert(a@ =~= b@);
    true
}

/// Equality of two string slices, character by character.
pub fn str_equal(a: &str, b: &str) -> (r: bool)
    ensures
        r == (a@ == b@),
{
    let va = chars_of(a);
    let vb = chars_of(b);
    chars_equal(&va, &vb)
}

/// The characters of `v` in positions `from .. to`.
pub fn chars_between(v: &Vec<char>, from: usize, to: usize) -> (r: Vec<char>)
    requires
        from <= to <= v.len(),
    ensures
        r@ == v@.subrange(from as int, to as int),
{
    let mut r: Vec<char> = Vec::new();
    let mut i = from;
    while i < to
        invariant
            from <= i <= to <= v.len(),
            r@ == v@.subrange(from as int, i as int),
        decreases to - i,
    {
        r.push(v[i]);
        i = i + 1;
    }
    r
}

// ---------------------------------------------------------------------------
// Whitespace and trimming
// ---------------------------------------------------------------------------

/// The Unicode `White_Space` property, which `char::is_whitespace` and
/// `str::trim` use.
pub open spec fn is_white_space(c: char) -> bool {
    let u = c as u32;
    ||| 0x9 <= u <= 0xd
    ||| u == 0x20
    ||| u == 0x85
    ||| u == 0xa0
    ||| u == 0x1680
    ||| 0x2000 <= u <= 0x200a
    ||| u == 0x2028
    ||| u == 0x2029
    ||| u == 0x202f
    ||| u == 0x205f
    ||| u == 0x3000
}

/// Whether `c` has the Unicode `White_Space` property.
pub fn is_white_space_char(c: char) -> (r: bool)
    ensures
        r == is_white_space(c),
{
    let u = c as u32;
    (0x9 <= u && u <= 0xd) || u == 0x20 || u == 0x85 || u == 0xa0 || u == 0x1680 || (0x2000 <= u
        && u <= 0x200a) || u == 0x2028 || u == 0x2029 || u == 0x202f || u == 0x205f || u == 0x3000
}

/// `s` without its leading whitespace.
pub open spec fn trim_start(s: Seq<char>) -> Seq<char>
    decreases s.len(),
{
    if s.len() > 0 && is_white_space(s[0]) {
        trim_start(s.drop_first())
    } else {
        s
    }
}

/// `s` without its trailing whitespace.
pub open spec fn trim_end(s: Seq<char>) -> Seq<char>
    decreases s.len(),
{
    if s.len() > 0 && is_white_space(s.last()) {
        trim_end(s.drop_last())
    } else {
        s
    }
}

/// `s` without leading and trailing whitespace (what `str::trim` returns).
pub open spec fn trimmed(s: Seq<char>) -> Seq<char> {
    trim_end(trim_start(s))
}

/// Removes leading and trailing whitespace.
pub fn trim_chars(v: &Vec<char>) -> (r: Vec<char>)
    ensures
        r@ == trimmed(v@),
{
    let n = v.len();
    let mut i: usize = 0;
    assert(v@.subrange(0, n as int) =~= v@);
    while i < n && is_white_space_char(v[i])
        invariant
            i <= n == v.len(),
            trim_start(v@) == trim_start(v@.subrange(i as int, n as int)),
        decreases n - i,
    {
        assert(v@.subrange(i as int, n as int).drop_first() =~= v@.subrange(i + 1, n as int));
        i = i + 1;
    }
    assert(trim_start(v@) == v@.subrange(i as int, n as int));
    let mut j: usize = n;
    while j > i && is_white_space_char(v[j - 1])
        invariant
            i <= j <= n == v.len(),
            trim_start(v@) == v@.subrange(i as int, n as int),
            trimmed(v@) == trim_end(v@.subrange(i as int, j as int)),
        decreases j,
    {
        assert(v@.subrange(i as int, j as int).drop_last() =~= v@.subrange(i as int, j - 1));
        j = j - 1;
    }
    chars_between(v, i, j)
}

// ---------------------------------------------------------------------------
// Decimal numbers
// ---------------------------------------------------------------------------

/// The ASCII digit for `d` (which is below ten).
pub open spec fn digit_char(d: nat) -> char {
    ((d + 48) as u8) as char
}

/// The decimal representation of `n`, without sign or leading zeros.
pub open spec fn decimal(n: nat) -> Seq<char>
    decreases n,
{
    if n < 10 {
        seq![digit_char(n)]
    } else {
        decimal(n / 10).push(digit_char(n % 10))
    }
}

fn push_decimal(out: &mut Vec<char>, n: u64)
    ensures
        final(out)@ == old(out)@ + decimal(n as nat),
    decreases n,
{
    if n >= 10 {
        push_decimal(out, n / 10);
    }
    let d = (n % 10) as u8;
    out.push((d + 48) as char);
    assert(final(out)@ =~= old(out)@ + decimal(n as nat));
}

/// The decimal representation of `n`.
pub fn decimal_string(n: u64) -> (s: String)
    ensures
        s@ == decimal(n as nat),
{
    let mut v: Vec<char> = Vec::new();
    push_decimal(&mut v, n);
    assert(v@ =~= decimal(n as nat));
    string_of(&v)
}

/// Whether `c` is an ASCII decimal digit.
pub open spec fn is_digit(c: char) -> bool {
    '0' <= c <= '9'
}

/// The value of a string of decimal digits (most significant first).
pub open spec fn digits_value(s: Seq<char>) -> int
    decreases s.len(),
{
    if s.len() == 0 {
        0
    } else {
        digits_value(s.drop_last()) * 10 + (s.last() as int - 48)
    }
}

/// `s` without one leading `+`, if it has one.
pub open spec fn without_plus(s: Seq<char>) -> Seq<char> {
    if s.len() > 0 && s[0] == '+' {
        s.drop_first()
    } else {
        s
    }
}

/// Whether every character of `s` is an ASCII digit.
pub open spec fn all_digits(s: Seq<char>) -> bool {
    forall|i: int| 0 <= i < s.len() ==> is_digit(#[trigger] s[i])
}

/// What `str::parse::<u32>` gives: an optional `+` followed by at least one
/// ASCII digit, whose value fits in `u32`.
pub open spec fn parse_u32_spec(s: Seq<char>) -> Option<u32> {
    let d = without_plus(s);
    if d.len() > 0 && all_digits(d) && digits_value(d) <= u32::MAX {
        Some(digits_value(d) as u32)
    } else {
        None
    }
}

/// The decimal representation of `n` is a non-empty string of digits whose
/// value is `n`.
pub proof fn lemma_decimal_value(n: nat)
    ensures
        decimal(n).len() > 0,
        all_digits(decimal(n)),
        digits_value(decimal(n)) == n,
    decreases n,
{
    assert(digit_char(n % 10) as int == n % 10 + 48);
    if n >= 10 {
        lemma_decimal_value(n / 10);
        let d = decimal(n);
        assert(d.drop_last() =~= decimal(n / 10));
        assert(n == (n / 10) * 10 + n % 10) by {
            vstd::arithmetic::div_mod::lemma_fundamental_div_mod(n as int, 10);
        }
        assert(d.last() == digit_char(n % 10));
        assert(digits_value(d) == digits_value(decimal(n / 10)) * 10 + (d.last() as int - 48));
        assert(forall|i: int| 0 <= i < d.len() ==> is_digit(#[trigger] d[i])) by {
            assert forall|i: int| 0 <= i < d.len() implies is_digit(#[trigger] d[i]) by {
                if i < d.len() - 1 {
                    assert(d[i] == decimal(n / 10)[i]);
                }
            }
        }
    } else {
        let d = decimal(n);
        assert(d.drop_last() =~= Seq::<char>::empty());
        assert(d.last() == digit_char(n));
        assert(digits_value(d) == digits_value(d.drop_last()) * 10 + (d.last() as int - 48));
    }
}

/// Different numbers have different decimal representations.
pub proof fn lemma_decimal_injective(m: nat, n: nat)
    requires
        decimal(m) == decimal(n),
    ensures
        m == n,
{
    lemma_decimal_value(m);
    lemma_decimal_value(n);
}

/// Parsing the decimal representation of a `u32` gives it back.
pub proof fn lemma_parse_decimal(n: u32)
    ensures
        parse_u32_spec(decimal(n as nat)) == Some(n),
{
    lemma_decimal_value(n as nat);
    assert(decimal(n as nat)[0] != '+');
}

proof fn lemma_digits_value_nonneg(s: Seq<char>)
    requires
        forall|i: int| 0 <= i < s.len() ==> is_digit(#[trigger] s[i]),
    ensures
        digits_value(s) >= 0,
    decreases s.len(),
{
    if s.len() > 0 {
        assert(is_digit(s[s.len() - 1]));
        lemma_digits_value_nonneg(s.drop_last());
    }
}

proof fn lemma_digits_value_prefix(s: Seq<char>, k: int)
    requires
        0 <= k <= s.len(),
        forall|i: int| 0 <= i < s.len() ==> is_digit(#[trigger] s[i]),
    ensures
        digits_value(s.subrange(0, k)) <= digits_value(s),
    decreases s.len(),
{
    if k == s.len() {
        assert(s.subrange(0, k) =~= s);
    } else {
        let t = s.drop_last();
        assert(t.subrange(0, k) =~= s.subrange(0, k));
        assert(is_digit(s[s.len() - 1]));
        lemma_digits_value_prefix(t, k);
        lemma_digits_value_nonneg(t);
    }
}

/// Parses a `u32` as `str::parse::<u32>` does.
pub fn parse_u32(s: &str) -> (r: Option<u32>)
    ensures
        r == parse_u32_spec(s@),
{
    let v = chars_of(s);
    let start: usize = if v.len() > 0 && v[0] == '+' {
        1
    } else {
        0
    };
    let ghost d = without_plus(s@);
    assert(d =~= v@.subrange(start as int, v.len() as int));
    if start == v.len() {
        return None;
    }
    let mut acc: u64 = 0;
    let mut i: usize = start;
    while i < v.len()
        invariant
            start <= i <= v.len(),
            v@ == s@,
            d == without_plus(s@),
            d.len() > 0,
            d == v@.subrange(start as int, v.len() as int),
            forall|j: int| 0 <= j < i - start ==> is_digit(#[trigger] d[j]),
            acc == digits_value(d.subrange(0, i - start)),
            acc <= u32::MAX,
        decreases v.len() - i,
    {
        let c = v[i];
        if !('0' <= c && c <= '9') {
            assert(!is_digit(d[i - start]));
            assert(!all_digits(d));
            assert(parse_u32_spec(s@) is None);
            return None;
        }
        assert(d.subrange(0, i + 1 - start).drop_last() =~= d.subrange(0, i - start));
        let next = acc * 10 + ((c as u32) - 48) as u64;
        if next > 0xffff_ffff {
            proof {
                assert(digits_value(d.subrange(0, i + 1 - start)) == next);
                if all_digits(d) {
                    lemma_digits_value_prefix(d, i + 1 - start);
                }
                assert(parse_u32_spec(s@) is None);
            }
            return None;
        }
        acc = next;
        i = i + 1;
    }
    assert(d.subrange(0, d.len() as int) =~= d);
    Some(acc as u32)
}

// ---------------------------------------------------------------------------
// Quotes and escaped spaces
// ---------------------------------------------------------------------------

/// `s` without a surrounding pair of `q`: the inner part when `s` both starts
/// and ends with `q` (two distinct characters), else `s` itself.
pub open spec fn unquoted(s: Seq<char>, q: char) -> Seq<char> {
    if s.len() >= 2 && s[0] == q && s[s.len() - 1] == q {
        s.subrange(1, s.len() - 1)
    } else {
        s
    }
}

/// Removes one surrounding pair of `q`, as `strip_prefix(q)` followed by
/// `strip_suffix(q)` on what remains does (and keeps `v` when either fails).
pub fn strip_enclosing(v: &Vec<char>, q: char) -> (r: Vec<char>)
    ensures
        r@ == unquoted(v@, q),
{
    let n = v.len();
    if n >= 2 && v[0] == q && v[n - 1] == q {
        chars_between(v, 1, n - 1)
    } else {
        chars_between(v, 0, n)
    }
}

/// `s` with each backslash directly followed by a space replaced by a single
/// space, scanning from the left (what `str::replace("\\ ", " ")` gives).
pub open spec fn unescape_spaces(s: Seq<char>) -> Seq<char>
    decreases s.len(),
{
    if s.len() == 0 {
        s
    } else if s.len() >= 2 && s[0] == '\\' && s[1] == ' ' {
        seq![' '] + unescape_spaces(s.subrange(2, s.len() as int))
    } else {
        seq![s[0]] + unescape_spaces(s.drop_first())
    }
}

/// Replaces each escaped space (`\ `) by a plain space.
pub fn replace_escaped_spaces(v: &Vec<char>) -> (r: Vec<char>)
    ensures
        r@ == unescape_spaces(v@),
{
    let n = v.len();
    let mut out: Vec<char> = Vec::new();
    let mut i: usize = 0;
    assert(v@.subrange(0, n as int) =~= v@);
    while i < n
        invariant
            i <= n == v.len(),
            unescape_spaces(v@) == out@ + unescape_spaces(v@.subrange(i as int, n as int)),
        decreases n - i,
    {
        let ghost rest = v@.subrange(i as int, n as int);
        if i + 1 < n && v[i] == '\\' && v[i + 1] == ' ' {
            assert(rest.subrange(2, rest.len() as int) =~= v@.subrange(i + 2, n as int));
            assert(unescape_spaces(rest) == seq![' '] + unescape_spaces(
                v@.subrange(i + 2, n as int),
            ));
            let ghost old_out = out@;
            out.push(' ');
            assert(old_out + (seq![' '] + unescape_spaces(v@.subrange(i + 2, n as int))) =~= out@
                + unescape_spaces(v@.subrange(i + 2, n as int)));
            i = i + 2;
        } else {
            assert(rest.drop_first() =~= v@.subrange(i + 1, n as int));
            assert(unescape_spaces(rest) == seq![v@[i as int]] + unescape_spaces(
                v@.subrange(i + 1, n as int),
            ));
            let ghost old_out = out@;
            out.push(v[i]);
            assert(old_out + (seq![v@[i as int]] + unescape_spaces(v@.subrange(i + 1, n as int)))
                =~= out@ + unescape_spaces(v@.subrange(i + 1, n as int)));
            i = i + 1;
        }
    }
    assert(v@.subrange(n as int, n as int) =~= Seq::<char>::empty());
    assert(out@ + Seq::<char>::empty() =~= out@);
    out
}

// ---------------------------------------------------------------------------
// Laws of the text operations
// ---------------------------------------------------------------------------

/// Spaces, tabs, line feeds, carriage returns and the no-break and
/// ideographic spaces are whitespace; ASCII letters, digits, quotes,
/// backslashes and path separators are not.
pub proof fn lemma_white_space(c: char)
    ensures
        c == ' ' || c == '\t' || c == '\n' || c == '\r' || c == '\u{a0}' || c == '\u{3000}'
            ==> is_white_space(c),
        ('a' <= c <= 'z') || ('A' <= c <= 'Z') || ('0' <= c <= '9') || c == '\'' || c == '"'
            || c == '\\' || c == '/' || c == '.' || c == '_' ==> !is_white_space(c),
{
}

/// Trimming the start removes exactly the leading whitespace: what is left is
/// a suffix of `s` that is empty or starts with a non-whitespace character,
/// and everything removed is whitespace.
pub proof fn lemma_trim_start(s: Seq<char>)
    ensures
        exists|a: int|
            0 <= a <= s.len() && trim_start(s) == s.subrange(a, s.len() as int) && (forall|i: int|
                0 <= i < a ==> is_white_space(#[trigger] s[i])) && (a == s.len()
                || !is_white_space(s[a])),
    decreases s.len(),
{
    if s.len() > 0 && is_white_space(s[0]) {
        let t = s.drop_first();
        lemma_trim_start(t);
        let a = choose|a: int|
            0 <= a <= t.len() && trim_start(t) == t.subrange(a, t.len() as int) && (forall|i: int|
                0 <= i < a ==> is_white_space(#[trigger] t[i])) && (a == t.len()
                || !is_white_space(t[a]));
        assert(t.subrange(a, t.len() as int) =~= s.subrange(a + 1, s.len() as int));
        assert forall|i: int| 0 <= i < a + 1 implies is_white_space(#[trigger] s[i]) by {
            if i > 0 {
                assert(s[i] == t[i - 1]);
            }
        }
        assert(a + 1 == s.len() || !is_white_space(s[a + 1])) by {
            if a < t.len() {
                assert(s[a + 1] == t[a]);
            }
        }
    } else {
        assert(s.subrange(0, s.len() as int) =~= s);
    }
}

/// Trimming the end removes exactly the trailing whitespace: what is left is
/// a prefix of `s` that is empty or ends with a non-whitespace character, and
/// everything removed is whitespace.
pub proof fn lemma_trim_end(s: Seq<char>)
    ensures
        exists|b: int|
            0 <= b <= s.len() && trim_end(s) == s.subrange(0, b) && (forall|i: int|
                b <= i < s.len() ==> is_white_space(#[trigger] s[i])) && (b == 0 || !is_white_space(
                s[b - 1],
            )),
    decreases s.len(),
{
    if s.len() > 0 && is_white_space(s.last()) {
        let t = s.drop_last();
        lemma_trim_end(t);
        let b = choose|b: int|
            0 <= b <= t.len() && trim_end(t) == t.subrange(0, b) && (forall|i: int|
                b <= i < t.len() ==> is_white_space(#[trigger] t[i])) && (b == 0 || !is_white_space(
                t[b - 1],
            ));
        assert(t.subrange(0, b) =~= s.subrange(0, b));
        assert forall|i: int| b <= i < s.len() implies is_white_space(#[trigger] s[i]) by {
            if i < s.len() - 1 {
                assert(s[i] == t[i]);
            }
        }
        assert(b == 0 || !is_white_space(s[b - 1])) by {
            if b > 0 {
                assert(s[b - 1] == t[b - 1]);
            }
        }
    } else {
        assert(s.subrange(0, s.len() as int) =~= s);
    }
}

/// Trimming keeps a contiguous part of `s` that is empty or starts and ends
/// with non-whitespace, and removes only whitespace on either side.
pub proof fn lemma_trimmed(s: Seq<char>)
    ensures
        exists|a: int, b: int|
            0 <= a <= b <= s.len() && trimmed(s) == s.subrange(a, b) && (forall|i: int|
                0 <= i < a ==> is_white_space(#[trigger] s[i])) && (forall|i: int|
                b <= i < s.len() ==> is_white_space(#[trigger] s[i])) && (a == b || (
            !is_white_space(s[a]) && !is_white_space(s[b - 1]))),
{
    lemma_trim_start(s);
    let a = choose|a: int|
        0 <= a <= s.len() && trim_start(s) == s.subrange(a, s.len() as int) && (forall|i: int|
            0 <= i < a ==> is_white_space(#[trigger] s[i])) && (a == s.len() || !is_white_space(
            s[a],
        ));
    let t = trim_start(s);
    lemma_trim_end(t);
    let b = choose|b: int|
        0 <= b <= t.len() && trim_end(t) == t.subrange(0, b) && (forall|i: int|
            b <= i < t.len() ==> is_white_space(#[trigger] t[i])) && (b == 0 || !is_white_space(
            t[b - 1],
        ));
    assert(t.subrange(0, b) =~= s.subrange(a, a + b));
    assert forall|i: int| a + b <= i < s.len() implies is_white_space(#[trigger] s[i]) by {
        assert(s[i] == t[i - a]);
    }
    if b > 0 {
        assert(s[a] == t[0]);
        assert(s[a + b - 1] == t[b - 1]);
        if b < t.len() || true {
        }
        assert(!is_white_space(s[a])) by {
            if is_white_space(s[a]) {
                assert(a < s.len());
            }
        }
    }
}

/// Removing a pair of quotes: a string that starts and ends with `q` (with
/// something between or not) is that quote, the result, and the quote again;
/// any other string is left as it is.
pub proof fn lemma_unquoted(s: Seq<char>, q: char)
    ensures
        s.len() >= 2 && s[0] == q && s.last() == q ==> seq![q] + unquoted(s, q) + seq![q] == s,
        !(s.len() >= 2 && s[0] == q && s.last() == q) ==> unquoted(s, q) == s,
{
    if s.len() >= 2 && s[0] == q && s.last() == q {
        assert(seq![q] + unquoted(s, q) + seq![q] =~= s);
    }
}

/// An escaped space becomes a space, and unescaping never lengthens a string.
pub proof fn lemma_unescape_spaces(s: Seq<char>)
    ensures
        unescape_spaces(seq!['\\', ' '] + s) == seq![' '] + unescape_spaces(s),
        unescape_spaces(s).len() <= s.len(),
        !s.contains('\\') ==> unescape_spaces(s) == s,
    decreases s.len(),
{
    let e = seq!['\\', ' '] + s;
    assert(e.subrange(2, e.len() as int) =~= s);
    if s.len() > 0 {
        lemma_unescape_spaces(s.drop_first());
        if s.len() >= 2 && s[0] == '\\' && s[1] == ' ' {
            lemma_unescape_spaces(s.subrange(2, s.len() as int));
        }
        if !s.contains('\\') {
            assert(s[0] != '\\');
            assert(!s.drop_first().contains('\\')) by {
                if s.drop_first().contains('\\') {
                    let i = choose|i: int| 0 <= i < s.drop_first().len() && s.drop_first()[i] == '\\';
                    assert(s[i + 1] == '\\');
                }
            }
            assert(seq![s[0]] + s.drop_first() =~= s);
        }
    }
}

/// A parsed number is what its digits say: the text is an optional `+` and
/// then only digits, and their value is the number.
pub proof fn lemma_parse_u32_digits(s: Seq<char>)
    ensures
        parse_u32_spec(s) matches Some(v) ==> {
            let d = if s[0] == '+' {
                s.subrange(1, s.len() as int)
            } else {
                s
            };
            &&& d.len() > 0
            &&& forall|i: int| 0 <= i < d.len() ==> '0' <= #[trigger] d[i] <= '9'
            &&& digits_value(d) == v
        },
        (exists|i: int| 0 < i < s.len() && !('0' <= #[trigger] s[i] <= '9')) ==> parse_u32_spec(s) is None,
        s.len() == 0 ==> parse_u32_spec(s) is None,
{
    if s.len() > 0 && s[0] == '+' {
        assert(s.drop_first() =~= s.subrange(1, s.len() as int));
    }
    if parse_u32_spec(s) is Some {
        let d = without_plus(s);
        assert forall|i: int| 0 <= i < d.len() implies '0' <= #[trigger] d[i] <= '9' by {
            assert(is_digit(d[i]));
        }
        lemma_digits_value_nonneg(d);
    }
    if exists|i: int| 0 < i < s.len() && !('0' <= #[trigger] s[i] <= '9') {
        let i = choose|i: int| 0 < i < s.len() && !('0' <= #[trigger] s[i] <= '9');
        let d = without_plus(s);
        if s[0] == '+' {
            assert(d[i - 1] == s[i]);
        } else {
            assert(d[i] == s[i]);
        }
    }
}

} // verus!
