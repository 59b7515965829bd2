//! Character-level helpers shared by the renderings and parsers: decimal digits,
//! zero padding, whitespace and control-character classes.

use vstd::prelude::*;

verus! {

/// `String::push` appends one character.
pub assume_specification[ String::push ](s: &mut String, ch: char)
    ensures
        final(s)@ == old(s)@.push(ch),
;

/// The ASCII digit for `d` (`0 <= d < 10`).
pub open spec fn digit_char(d: int) -> char {
    if d == 0 {
        '0'
    } else if d == 1 {
        '1'
    } else if d == 2 {
        '2'
    } else if d == 3 {
        '3'
    } else if d == 4 {
        '4'
    } else if d == 5 {
        '5'
    } else if d == 6 {
        '6'
    } else if d == 7 {
        '7'
    } else if d == 8 {
        '8'
    } else {
        '9'
    }
}

/// The decimal digits of `n`, most significant first, without leading zeros.
pub open spec fn decimal(n: nat) -> Seq<char>
    decreases n,
{
    if n < 10 {
        seq![digit_char(n as int)]
    } else {
        decimal(n / 10).push(digit_char((n % 10) as int))
    }
}

/// `s` left-padded with `'0'` to at least `width` characters.
pub open spec fn zero_pad(s: Seq<char>, width: nat) -> Seq<char> {
    if s.len() >= width {
        s
    } else {
        Seq::new((width - s.len()) as nat, |i: int| '0') + s
    }
}

/// The decimal text of `v` zero-padded to `width` characters, sign included —
/// the text `format!("{:0width$}", v)` produces.
pub open spec fn padded_int(v: int, width: nat) -> Seq<char> {
    if v < 0 {
        seq!['-'] + zero_pad(decimal((-v) as nat), if width > 0 { (width - 1) as nat } else { 0 })
    } else {
        zero_pad(decimal(v as nat), width)
    }
}

/// Append the decimal digits of `n` to `out`.
pub fn push_decimal(out: &mut String, n: u64)
    ensures
        final(out)@ == old(out)@ + decimal(n as nat),
    decreases n,
{
    if n < 10 {
        out.push(digit(n));
        assert(decimal(n as nat) =~= seq![digit_char(n as int)]);
    } else {
        push_decimal(out, n / 10);
        out.push(digit(n % 10));
    }
}

/// The ASCII digit for `d`.
pub fn digit(d: u64) -> (c: char)
    requires
        d < 10,
    ensures
        c == digit_char(d as int),
{
    if d == 0 {
        '0'
    } else if d == 1 {
        '1'
    } else if d == 2 {
        '2'
    } else if d == 3 {
        '3'
    } else if d == 4 {
        '4'
    } else if d == 5 {
        '5'
    } else if d == 6 {
        '6'
    } else if d == 7 {
        '7'
    } else if d == 8 {
        '8'
    } else {
        '9'
    }
}

/// The number of decimal digits of `n`.
pub fn decimal_len(n: u64) -> (r: usize)
    ensures
        r == decimal(n as nat).len(),
    decreases n,
{
    if n < 10 {
        1
    } else {
        let k = decimal_len(n / 10);
        assert(k <= 20) by {
            lemma_decimal_len_bound(n as nat);
        };
        k + 1
    }
}

proof fn lemma_decimal_len_bound(n: nat)
    requires
        n <= u64::MAX,
    ensures
        decimal(n).len() <= 20,
{
    reveal_with_fuel(pow10, 21);
    assert(pow10(20) == 100000000000000000000nat);
    lemma_decimal_len_le(n, 20);
}

proof fn lemma_decimal_len_le(n: nat, k: nat)
    requires
        k >= 1,
        n < pow10(k),
    ensures
        decimal(n).len() <= k,
    decreases n,
{
    if n >= 10 {
        lemma_pow10_pos((k - 1) as nat);
        assert(n / 10 < pow10((k - 1) as nat)) by {
            assert(pow10(k) == 10 * pow10((k - 1) as nat));
        }
        if k == 1 {
            assert(pow10(1) == 10 * pow10(0));
        } else {
            lemma_decimal_len_le(n / 10, (k - 1) as nat);
        }
    }
}

spec fn pow10(k: nat) -> nat
    decreases k,
{
    if k == 0 {
        1
    } else {
        10 * pow10((k - 1) as nat)
    }
}

proof fn lemma_pow10_pos(k: nat)
    ensures
        pow10(k) >= 1,
    decreases k,
{
    if k > 0 {
        lemma_pow10_pos((k - 1) as nat);
    }
}

/// Append `v` as decimal text zero-padded to `width` characters, sign included.
pub fn push_padded_int(out: &mut String, v: i64, width: usize)
    requires
        v > i64::MIN,
    ensures
        final(out)@ == old(out)@ + padded_int(v as int, width as nat),
{
    let ghost start = out@;
    let magnitude: u64 = if v < 0 { (-v) as u64 } else { v as u64 };
    let pad_to: usize = if v < 0 { if width > 0 { width - 1 } else { 0 } } else { width };
    if v < 0 {
        out.push('-');
    }
    let len = decimal_len(magnitude);
    let ghost mid = out@;
    let mut k: usize = len;
    while k < pad_to
        invariant
            len <= k <= pad_to || (k == len && pad_to < len),
            out@ == mid + Seq::new((k - len) as nat, |i: int| '0'),
        decreases pad_to - k,
    {
        out.push('0');
        assert(out@ =~= mid + Seq::new((k + 1 - len) as nat, |i: int| '0'));
        k = k + 1;
    }
    push_decimal(out, magnitude);
    proof {
        let digits = decimal(magnitude as nat);
        if pad_to > len {
            assert(k == pad_to);
        } else {
            assert(Seq::new((k - len) as nat, |i: int| '0') =~= Seq::<char>::empty());
        }
        if v < 0 {
            assert(out@ =~= start + padded_int(v as int, width as nat));
        } else {
            assert(out@ =~= start + padded_int(v as int, width as nat));
        }
    }
}

/// Whether `c` is one of the ASCII digits `0` to `9`.
pub open spec fn is_ascii_digit(c: char) -> bool {
    '0' <= c && c <= '9'
}

/// The value of the ASCII digit `c`.
pub open spec fn digit_value(c: char) -> int {
    (c as int) - ('0' as int)
}

/// Whether every character of `s` is an ASCII digit.
pub open spec fn all_digits(s: Seq<char>) -> bool {
    forall|i: int| 0 <= i < s.len() ==> is_ascii_digit(#[trigger] s[i])
}

/// The value of the decimal digits `s`, most significant first.
pub open spec fn digits_value(s: Seq<char>) -> int
    decreases s.len(),
{
    if s.len() == 0 {
        0
    } else {
        digits_value(s.drop_last()) * 10 + digit_value(s.last())
    }
}

/// The integer `str::parse` reads from `s`, before its range check: an
/// optional `+` or `-` followed by at least one ASCII digit, nothing else.
pub open spec fn integer_text_value(s: Seq<char>) -> Option<int> {
    if s.len() > 0 && (s[0] == '+' || s[0] == '-') {
        let digits = s.drop_first();
        if digits.len() > 0 && all_digits(digits) {
            Some(
                if s[0] == '-' {
                    -digits_value(digits)
                } else {
                    digits_value(digits)
                },
            )
        } else {
            None
        }
    } else if s.len() > 0 && all_digits(s) {
        Some(digits_value(s))
    } else {
        None
    }
}

/// What `str::parse` yields for an integer type whose values are `lo..=hi`.
pub open spec fn bounded_integer_value(s: Seq<char>, lo: int, hi: int) -> Option<int> {
    match integer_text_value(s) {
        Some(v) => if lo <= v <= hi {
            Some(v)
        } else {
            None
        },
        None => None,
    }
}

/// Digits past this value cannot bring a number back into any range this
/// library parses.
pub const PARSE_CAP: i64 = 1000000;

proof fn lemma_digits_value_nonneg(s: Seq<char>)
    requires
        all_digits(s),
    ensures
        digits_value(s) >= 0,
    decreases s.len(),
{
    if s.len() > 0 {
        lemma_digits_value_nonneg(s.drop_last());
        assert(is_ascii_digit(s[s.len() - 1]));
    }
}

/// Parse `text` as an integer in `lo..=hi` the way `str::parse` does for a
/// signed integer type with that range.
pub fn parse_bounded(text: &str, lo: i64, hi: i64) -> (r: Option<i64>)
    requires
        -PARSE_CAP < lo <= hi < PARSE_CAP,
    ensures
        r == (match bounded_integer_value(text@, lo as int, hi as int) {
            Some(v) => Some(v as i64),
            None => None,
        }),
{
    let n = text.unicode_len();
    if n == 0 {
        return None;
    }
    let first = text.get_char(0);
    let negative = first == '-';
    let start: usize = if first == '-' || first == '+' {
        1
    } else {
        0
    };
    if start == n {
        return None;
    }
    let ghost digits = text@.subrange(start as int, n as int);
    let mut acc: i64 = 0;
    let mut i: usize = start;
    while i < n
        invariant
            n == text@.len(),
            start <= i <= n,
            start < n,
            start == 0 || start == 1,
            start == 1 <==> (text@[0] == '+' || text@[0] == '-'),
            negative == (text@[0] == '-'),
            digits == text@.subrange(start as int, n as int),
            all_digits(text@.subrange(start as int, i as int)),
            0 <= acc <= PARSE_CAP,
            digits_value(text@.subrange(start as int, i as int)) < PARSE_CAP ==> acc
                == digits_value(text@.subrange(start as int, i as int)),
            digits_value(text@.subrange(start as int, i as int)) >= PARSE_CAP ==> acc == PARSE_CAP,
        decreases n - i,
    {
        let c = text.get_char(i);
        let ghost before = text@.subrange(start as int, i as int);
        let ghost after = text@.subrange(start as int, i as int + 1);
        assert(after.drop_last() =~= before);
        assert(after.last() == c);
        if !('0' <= c && c <= '9') {
            assert(!all_digits(digits)) by {
                assert(digits[i - start] == c);
            }
            if start == 1 {
                assert(digits =~= text@.drop_first());
            } else {
                assert(digits =~= text@);
            }
            return None;
        }
        let d: i64 = (c as u32 - '0' as u32) as i64;
        assert(d == digit_value(c));
        proof {
            lemma_digits_value_nonneg(before);
        }
        if acc >= PARSE_CAP || acc * 10 + d >= PARSE_CAP {
            acc = PARSE_CAP;
        } else {
            acc = acc * 10 + d;
        }
        i = i + 1;
    }
    assert(text@.subrange(start as int, n as int) == digits);
    if start == 1 {
        assert(digits =~= text@.drop_first());
    } else {
        assert(digits =~= text@);
    }
    let v: i64 = if negative {
        -acc
    } else {
        acc
    };
    if acc < PARSE_CAP && lo <= v && v <= hi {
        Some(v)
    } else {
        None
    }
}

proof fn lemma_digit_char(d: int)
    requires
        0 <= d < 10,
    ensures
        is_ascii_digit(digit_char(d)),
        digit_value(digit_char(d)) == d,
{
}

/// Every character of `decimal(n)` is an ASCII digit, and they read back as `n`.
pub proof fn lemma_decimal_reads_back(n: nat)
    ensures
        decimal(n).len() >= 1,
        all_digits(decimal(n)),
        digits_value(decimal(n)) == n,
    decreases n,
{
    lemma_digit_char((n % 10) as int);
    if n < 10 {
        assert(decimal(n).drop_last() =~= Seq::<char>::empty());
        assert(decimal(n).last() == digit_char(n as int));
        assert(n % 10 == n);
        assert(digits_value(decimal(n).drop_last()) == 0);
        assert(digits_value(decimal(n)) == digit_value(digit_char(n as int)));
    } else {
        lemma_decimal_reads_back(n / 10);
        let d = decimal(n);
        assert(d.drop_last() =~= decimal(n / 10));
        assert(all_digits(d)) by {
            assert forall|i: int| 0 <= i < d.len() implies is_ascii_digit(#[trigger] d[i]) by {
                if i < d.len() - 1 {
                    assert(d[i] == decimal(n / 10)[i]);
                }
            }
        }
        assert(d.last() == digit_char((n % 10) as int));
        assert((n / 10) * 10 + n % 10 == n);
        assert(digits_value(d) == digits_value(decimal(n / 10)) * 10 + (n % 10));
    }
}

/// Leading zeros do not change the value of a digit string.
pub proof fn lemma_leading_zeros(k: nat, s: Seq<char>)
    ensures
        digits_value(Seq::new(k, |i: int| '0') + s) == digits_value(s),
    decreases s.len(), k,
{
    let z = Seq::new(k, |i: int| '0');
    if s.len() > 0 {
        lemma_leading_zeros(k, s.drop_last());
        assert((z + s).drop_last() =~= z + s.drop_last());
    } else {
        assert(z + s =~= z);
        if k > 0 {
            lemma_leading_zeros((k - 1) as nat, s);
            assert(z.drop_last() =~= Seq::new((k - 1) as nat, |i: int| '0'));
            assert(Seq::new((k - 1) as nat, |i: int| '0') + s =~= Seq::new((k - 1) as nat, |i: int| '0'));
        }
    }
}

/// The text `padded_int` renders reads back as the number it renders.
pub proof fn lemma_padded_int_reads_back(v: int, width: nat)
    ensures
        integer_text_value(padded_int(v, width)) == Some(v),
        padded_int(v, width).len() >= 1,
        forall|i: int|
            0 <= i < padded_int(v, width).len() ==> #[trigger] padded_int(v, width)[i] == '-'
                || is_ascii_digit(padded_int(v, width)[i]),
        forall|i: int|
            1 <= i < padded_int(v, width).len() ==> is_ascii_digit(
                #[trigger] padded_int(v, width)[i],
            ),
{
    let m: nat = if v < 0 {
        (-v) as nat
    } else {
        v as nat
    };
    let w: nat = if v < 0 {
        if width > 0 {
            (width - 1) as nat
        } else {
            0
        }
    } else {
        width
    };
    lemma_decimal_reads_back(m);
    let d = decimal(m);
    let padded = zero_pad(d, w);
    let k: nat = if d.len() >= w {
        0
    } else {
        (w - d.len()) as nat
    };
    lemma_leading_zeros(k, d);
    assert(padded =~= Seq::new(k, |i: int| '0') + d);
    assert(all_digits(padded)) by {
        assert forall|i: int| 0 <= i < padded.len() implies is_ascii_digit(#[trigger] padded[i]) by {
            if i >= k {
                assert(padded[i] == d[i - k]);
            }
        }
    }
    if v < 0 {
        let t = padded_int(v, width);
        assert(t =~= seq!['-'] + padded);
        assert(t.drop_first() =~= padded);
        assert forall|i: int| 1 <= i < t.len() implies is_ascii_digit(#[trigger] t[i]) by {
            assert(t[i] == padded[i - 1]);
        }
    } else {
        assert(padded_int(v, width) == padded);
        assert(is_ascii_digit(padded[0]));
    }
}

/// The lowercase hexadecimal digit for `d` (`0 <= d < 16`).
pub open spec fn hex_digit(d: int) -> char {
    if d < 10 {
        digit_char(d)
    } else if d == 10 {
        'a'
    } else if d == 11 {
        'b'
    } else if d == 12 {
        'c'
    } else if d == 13 {
        'd'
    } else if d == 14 {
        'e'
    } else {
        'f'
    }
}

/// What `char::escape_debug` yields for `c`.
pub uninterp spec fn char_escape_debug(c: char) -> Seq<char>;

/// Escapes a character beyond ASCII as `char::escape_debug` does: itself when
/// it is printable and not grapheme-extending, `\u{..}` otherwise.
///
/// Claimed: the text depends on `c` alone (named `char_escape_debug`). Which
/// characters count as printable or grapheme-extending is core's Unicode
/// tables' business and is not restated.
#[verifier::external_body]
fn escape_beyond_ascii(c: char) -> (r: String)
    requires
        (c as int) >= 0x80,
    ensures
        r@ == char_escape_debug(c),
{
    c.escape_debug().to_string()
}

/// How `{:?}` shows the character `c` inside a quoted string. An ASCII
/// character gets the usual backslash escapes (a single quote is left as it
/// is), `\u{..}` when it is any other control character, and is itself
/// otherwise; a character beyond ASCII is shown as `char::escape_debug` shows
/// it, which the `Debug` of a string uses for every character it escapes.
pub open spec fn debug_char(c: char) -> Seq<char> {
    if (c as int) >= 0x80 {
        char_escape_debug(c)
    } else if c == '\0' {
        seq!['\\', '0']
    } else if c == '\t' {
        seq!['\\', 't']
    } else if c == '\r' {
        seq!['\\', 'r']
    } else if c == '\n' {
        seq!['\\', 'n']
    } else if c == '\\' {
        seq!['\\', '\\']
    } else if c == '"' {
        seq!['\\', '"']
    } else if (c as int) < 0x10 {
        seq!['\\', 'u', '{', hex_digit(c as int), '}']
    } else if (c as int) < 0x20 || (c as int) == 0x7f {
        seq!['\\', 'u', '{', hex_digit((c as int) / 16), hex_digit((c as int) % 16), '}']
    } else {
        seq![c]
    }
}

/// `s` with every character shown by [`debug_char`].
pub open spec fn debug_text(s: Seq<char>) -> Seq<char>
    decreases s.len(),
{
    if s.len() == 0 {
        Seq::empty()
    } else {
        debug_text(s.drop_last()) + debug_char(s.last())
    }
}

/// `s` in double quotes, escaped as `{:?}` shows a string.
pub open spec fn debug_quoted(s: Seq<char>) -> Seq<char> {
    seq!['"'] + debug_text(s) + seq!['"']
}

fn push_hex_digit(out: &mut String, d: u32)
    requires
        d < 16,
    ensures
        final(out)@ == old(out)@.push(hex_digit(d as int)),
{
    if d < 10 {
        out.push(digit(d as u64));
    } else if d == 10 {
        out.push('a');
    } else if d == 11 {
        out.push('b');
    } else if d == 12 {
        out.push('c');
    } else if d == 13 {
        out.push('d');
    } else if d == 14 {
        out.push('e');
    } else {
        out.push('f');
    }
}

/// Append `s` to `out` quoted and escaped as [`debug_quoted`] describes.
pub fn push_debug_quoted(out: &mut String, s: &str)
    ensures
        final(out)@ == old(out)@ + debug_quoted(s@),
{
    let ghost start = out@;
    out.push('"');
    let n = s.unicode_len();
    let mut i: usize = 0;
    while i < n
        invariant
            n == s@.len(),
            i <= n,
            out@ == start + seq!['"'] + debug_text(s@.take(i as int)),
        decreases n - i,
    {
        let c = s.get_char(i);
        let ghost before = out@;
        assert(s@.take(i as int + 1).drop_last() =~= s@.take(i as int));
        let code = c as u32;
        if c == '\0' {
            out.push('\\');
            out.push('0');
        } else if c == '\t' {
            out.push('\\');
            out.push('t');
        } else if c == '\r' {
            out.push('\\');
            out.push('r');
        } else if c == '\n' {
            out.push('\\');
            out.push('n');
        } else if c == '\\' {
            out.push('\\');
            out.push('\\');
        } else if c == '"' {
            out.push('\\');
            out.push('"');
        } else if code < 0x10 {
            out.push('\\');
            out.push('u');
            out.push('{');
            push_hex_digit(out, code);
            out.push('}');
        } else if code < 0x20 || code == 0x7f {
            out.push('\\');
            out.push('u');
            out.push('{');
            push_hex_digit(out, code / 16);
            push_hex_digit(out, code % 16);
            out.push('}');
        } else if code < 0x80 {
            out.push(c);
        } else {
            let escaped = escape_beyond_ascii(c);
            out.append(escaped.as_str());
        }
        assert(out@ =~= before + debug_char(c));
        i = i + 1;
    }
    out.push('"');
    assert(s@.take(n as int) =~= s@);
    assert(out@ =~= start + debug_quoted(s@));
}

/// Whether `c` is a Unicode `White_Space` character (what `char::is_whitespace`
/// tests).
pub open spec fn is_white_space(c: char) -> bool {
    ('\u{9}' <= c && c <= '\u{d}') || c == ' ' || c == '\u{85}' || c == '\u{a0}' || c
        == '\u{1680}' || ('\u{2000}' <= c && c <= '\u{200a}') || c == '\u{2028}' || c
        == '\u{2029}' || c == '\u{202f}' || c == '\u{205f}' || c == '\u{3000}'
}

/// Whether `c` is ASCII whitespace (what `char::is_ascii_whitespace` tests):
/// space, tab, line feed, form feed or carriage return.
pub open spec fn is_ascii_white_space(c: char) -> bool {
    c == ' ' || c == '\t' || c == '\n' || c == '\u{c}' || c == '\r'
}

/// Whether `c` is ASCII whitespace.
pub fn ascii_white_space(c: char) -> (r: bool)
    ensures
        r == is_ascii_white_space(c),
{
    c == ' ' || c == '\t' || c == '\n' || c == '\u{c}' || c == '\r'
}

/// Whether `c` is a control character (general category `Cc`, what
/// `char::is_control` tests).
pub open spec fn is_control_char(c: char) -> bool {
    c <= '\u{1f}' || ('\u{7f}' <= c && c <= '\u{9f}')
}

/// Whether `s` holds nothing but whitespace (so trims to the empty string).
pub open spec fn is_blank(s: Seq<char>) -> bool {
    forall|i: int| 0 <= i < s.len() ==> is_white_space(#[trigger] s[i])
}

/// Whether `c` is whitespace.
pub fn white_space(c: char) -> (r: bool)
    ensures
        r == is_white_space(c),
{
    ('\u{9}' <= c && c <= '\u{d}') || c == ' ' || c == '\u{85}' || c == '\u{a0}' || c
        == '\u{1680}' || ('\u{2000}' <= c && c <= '\u{200a}') || c == '\u{2028}' || c
        == '\u{2029}' || c == '\u{202f}' || c == '\u{205f}' || c == '\u{3000}'
}

/// Whether `c` is a control character.
pub fn control_char(c: char) -> (r: bool)
    ensures
        r == is_control_char(c),
{
    c <= '\u{1f}' || ('\u{7f}' <= c && c <= '\u{9f}')
}

/// Whether `s` holds nothing but whitespace.
pub fn blank(s: &str) -> (r: bool)
    ensures
        r == is_blank(s@),
{
    let n = s.unicode_len();
    let mut i: usize = 0;
    while i < n
        invariant
            n == s@.len(),
            i <= n,
            forall|j: int| 0 <= j < i ==> is_white_space(#[trigger] s@[j]),
        decreases n - i,
    {
        if !white_space(s.get_char(i)) {
            return false;
        }
        i = i + 1;
    }
    true
}

/// The length of the leading whitespace run of `s`.
pub open spec fn leading_white(s: Seq<char>) -> nat
    decreases s.len(),
{
    if s.len() > 0 && is_white_space(s[0]) {
        1 + leading_white(s.drop_first())
    } else {
        0
    }
}

/// `s` with leading and trailing whitespace removed (what `str::trim` yields).
pub open spec fn trimmed(s: Seq<char>) -> Seq<char> {
    let front = s.skip(leading_white(s) as int);
    front.take((front.len() - trailing_white(front)) as int)
}

/// The length of the trailing whitespace run of `s`.
pub open spec fn trailing_white(s: Seq<char>) -> nat
    decreases s.len(),
{
    if s.len() > 0 && is_white_space(s.last()) {
        1 + trailing_white(s.drop_last())
    } else {
        0
    }
}

proof fn lemma_leading_white_bound(s: Seq<char>)
    ensures
        leading_white(s) <= s.len(),
        forall|j: int| 0 <= j < leading_white(s) ==> is_white_space(#[trigger] s[j]),
        leading_white(s) < s.len() ==> !is_white_space(s[leading_white(s) as int]),
    decreases s.len(),
{
    if s.len() > 0 && is_white_space(s[0]) {
        lemma_leading_white_bound(s.drop_first());
        assert forall|j: int| 0 <= j < leading_white(s) implies is_white_space(#[trigger] s[j]) by {
            if j > 0 {
                assert(s[j] == s.drop_first()[j - 1]);
            }
        }
    }
}

proof fn lemma_trailing_white_bound(s: Seq<char>)
    ensures
        trailing_white(s) <= s.len(),
        forall|j: int|
            s.len() - trailing_white(s) <= j < s.len() ==> is_white_space(#[trigger] s[j]),
        trailing_white(s) < s.len() ==> !is_white_space(s[s.len() - trailing_white(s) - 1]),
    decreases s.len(),
{
    if s.len() > 0 && is_white_space(s.last()) {
        lemma_trailing_white_bound(s.drop_last());
        assert forall|j: int|
            s.len() - trailing_white(s) <= j < s.len() implies is_white_space(#[trigger] s[j]) by {
            if j < s.len() - 1 {
                assert(s[j] == s.drop_last()[j]);
            }
        }
    }
}

/// `s` without leading and trailing whitespace.
pub fn trim(s: &str) -> (r: String)
    ensures
        r@ == trimmed(s@),
{
    let n = s.unicode_len();
    let mut start: usize = 0;
    proof {
        lemma_leading_white_bound(s@);
    }
    while start < n && white_space(s.get_char(start))
        invariant
            n == s@.len(),
            start <= leading_white(s@),
            leading_white(s@) <= n,
            forall|j: int| 0 <= j < leading_white(s@) ==> is_white_space(#[trigger] s@[j]),
            leading_white(s@) < n ==> !is_white_space(s@[leading_white(s@) as int]),
        decreases n - start,
    {
        start = start + 1;
    }
    assert(start == leading_white(s@));
    let ghost front = s@.skip(start as int);
    proof {
        lemma_trailing_white_bound(front);
    }
    let mut end: usize = n;
    while end > start && white_space(s.get_char(end - 1))
        invariant
            n == s@.len(),
            start <= end <= n,
            front == s@.skip(start as int),
            n - end <= trailing_white(front),
            trailing_white(front) <= front.len(),
            forall|j: int|
                front.len() - trailing_white(front) <= j < front.len() ==> is_white_space(
                    #[trigger] front[j],
                ),
            trailing_white(front) < front.len() ==> !is_white_space(
                front[front.len() - trailing_white(front) - 1],
            ),
        decreases end,
    {
        assert(s@[end - 1] == front[end - 1 - start]);
        end = end - 1;
    }
    proof {
        if end > start {
            assert(s@[end - 1] == front[end - 1 - start]);
        }
    }
    assert(n - end == trailing_white(front));
    let piece = s.substring_char(start, end);
    assert(piece@ =~= trimmed(s@));
    String::from_str(piece)
}

} // verus!

verus! {

/// Whether two texts are equal.
pub fn same_text(a: &str, b: &str) -> (r: bool)
    ensures
        r == (a@ == b@),
{
    let n = a.unicode_len();
    if n != b.unicode_len() {
        return false;
    }
    let mut i: usize = 0;
    while i < n
        invariant
            n == a@.len(),
            n == b@.len(),
            i <= n,
            forall|j: int| 0 <= j < i ==> a@[j] == b@[j],
        decreases n - i,
    {
        if a.get_char(i) != b.get_char(i) {
            return false;
        }
        i = i + 1;
    }
    assert(a@ =~= b@);
    true
}

/// `s` padded on the right with spaces to at least `width` characters — what
/// `format!("{:<width$}", s)` produces.
pub open spec fn pad_right(s: Seq<char>, width: nat) -> Seq<char> {
    if s.len() >= width {
        s
    } else {
        s + Seq::new((width - s.len()) as nat, |i: int| ' ')
    }
}

/// Append `s` to `out`, padded on the right with spaces to `width` characters.
pub fn push_padded(out: &mut String, s: &str, width: usize)
    ensures
        final(out)@ == old(out)@ + pad_right(s@, width as nat),
{
    let ghost start = out@;
    out.append(s);
    let n = s.unicode_len();
    let mut k: usize = n;
    while k < width
        invariant
            n == s@.len(),
            n <= k,
            k <= width || k == n,
            out@ == start + s@ + Seq::new((k - n) as nat, |i: int| ' '),
        decreases width - k,
    {
        out.push(' ');
        assert(out@ =~= start + s@ + Seq::new((k + 1 - n) as nat, |i: int| ' '));
        k = k + 1;
    }
    proof {
        if n >= width {
            assert(Seq::new((k - n) as nat, |i: int| ' ') =~= Seq::<char>::empty());
            assert(out@ =~= start + s@);
        } else {
            assert(out@ =~= start + pad_right(s@, width as nat));
        }
    }
}

} // verus!
