//! Text helpers: Unicode whitespace trimming, single-character trimming and
//! decimal rendering of integers, each proved against a short specification.
use vstd::prelude::*;
use vstd::string::*;

verus! {

/// The characters that carry the Unicode `White_Space` property, which is
/// what `char::is_whitespace` (and so `str::trim`) treats as whitespace.
pub open spec fn is_ws(c: char) -> bool {
    ||| ('\u{0009}' <= c && c <= '\u{000D}')
    ||| c == '\u{0020}'
    ||| c == '\u{0085}'
    ||| c == '\u{00A0}'
    ||| c == '\u{1680}'
    ||| ('\u{2000}' <= c && c <= '\u{200A}')
    ||| c == '\u{2028}'
    ||| c == '\u{2029}'
    ||| c == '\u{202F}'
    ||| c == '\u{205F}'
    ||| c == '\u{3000}'
}

/// `s` without the leading characters that satisfy `is_ws`.
pub open spec fn trim_start_ws(s: Seq<char>) -> Seq<char>
    decreases s.len(),
{
    if s.len() > 0 && is_ws(s[0]) {
        trim_start_ws(s.drop_first())
    } else {
        s
    }
}

/// `s` without the trailing characters that satisfy `is_ws`.
pub open spec fn trim_end_ws(s: Seq<char>) -> Seq<char>
    decreases s.len(),
{
    if s.len() > 0 && is_ws(s.last()) {
        trim_end_ws(s.drop_last())
    } else {
        s
    }
}

/// What `str::trim` gives back: leading and trailing whitespace removed.
pub open spec fn trim_ws(s: Seq<char>) -> Seq<char> {
    trim_end_ws(trim_start_ws(s))
}

/// `s` without every leading occurrence of `c` (`str::trim_start_matches(c)`).
pub open spec fn trim_start_char(s: Seq<char>, c: char) -> Seq<char>
    decreases s.len(),
{
    if s.len() > 0 && s[0] == c {
        trim_start_char(s.drop_first(), c)
    } else {
        s
    }
}

/// `s` without every trailing occurrence of `c` (`str::trim_end_matches(c)`).
pub open spec fn trim_end_char(s: Seq<char>, c: char) -> Seq<char>
    decreases s.len(),
{
    if s.len() > 0 && s.last() == c {
        trim_end_char(s.drop_last(), c)
    } else {
        s
    }
}

/// The character of a decimal digit.
pub open spec fn digit_char(d: int) -> char {
    if d == 0 {
        '0'
    } else if d == 1 {
        '1'
    } else if d == 2 {
        '2'
    } else if d == 3 {
        '3'
    } else if d == 4 {
        '4'
    } else if d == 5 {
        '5'
    } else if d == 6 {
        '6'
    } else if d == 7 {
        '7'
    } else if d == 8 {
        '8'
    } else {
        '9'
    }
}

/// The decimal digits of `n`, most significant first, with no leading zeros
/// (what `format!("{}", n)` writes for an unsigned integer).
pub open spec fn decimal(n: nat) -> Seq<char>
    decreases n,
{
    if n < 10 {
        seq![digit_char(n as int)]
    } else {
        decimal(n / 10).push(digit_char((n % 10) as int))
    }
}

/// `s` preceded by as many `'0'` as it takes to reach `width` characters
/// (what the `{:0w}` format flag does to the digits of a number).
pub open spec fn zero_pad(s: Seq<char>, width: nat) -> Seq<char> {
    if s.len() >= width {
        s
    } else {
        Seq::new((width - s.len()) as nat, |i: int| '0') + s
    }
}

/// What `format!("{:0w}", n)` writes for a signed integer `n`: the sign
/// counts toward the width and the zeros go after it.
pub open spec fn signed_zero_pad(n: int, width: nat) -> Seq<char> {
    if n < 0 {
        seq!['-'] + zero_pad(decimal((-n) as nat), if width >= 1 { (width - 1) as nat } else { 0 })
    } else {
        zero_pad(decimal(n as nat), width)
    }
}

/// The value of a decimal digit character (`0` for any other character).
pub open spec fn digit_value(c: char) -> int {
    if c == '1' {
        1
    } else if c == '2' {
        2
    } else if c == '3' {
        3
    } else if c == '4' {
        4
    } else if c == '5' {
        5
    } else if c == '6' {
        6
    } else if c == '7' {
        7
    } else if c == '8' {
        8
    } else if c == '9' {
        9
    } else {
        0
    }
}

/// The number a string of decimal digits stands for, read most significant
/// digit first.
pub open spec fn digits_value(s: Seq<char>) -> int
    decreases s.len(),
{
    if s.len() == 0 {
        0
    } else {
        10 * digits_value(s.drop_last()) + digit_value(s.last())
    }
}

/// `10` to the power `k`.
pub open spec fn pow10(k: nat) -> int
    decreases k,
{
    if k == 0 {
        1
    } else {
        10 * pow10((k - 1) as nat)
    }
}

/// Reading the decimal digits of `n` gives `n` back; there is at least one
/// digit, and no more than `k` when `n < 10^k`.
pub proof fn lemma_decimal_value(n: nat, k: nat)
    ensures
        digits_value(decimal(n)) == n,
        decimal(n).len() >= 1,
        k >= 1 && n < pow10(k) ==> decimal(n).len() <= k,
    decreases n,
{
    if n >= 10 {
        let q = (n / 10) as nat;
        if k >= 1 {
            lemma_decimal_value(q, (k - 1) as nat);
        } else {
            lemma_decimal_value(q, 0);
        }
        assert(decimal(n) == decimal(q).push(digit_char((n % 10) as int)));
        assert(decimal(n).drop_last() =~= decimal(q));
        assert(decimal(n).last() == digit_char((n % 10) as int));
        assert(digit_value(digit_char((n % 10) as int)) == n % 10);
        assert(digits_value(decimal(n)) == 10 * digits_value(decimal(q)) + n % 10);
        if k == 1 {
            assert(pow10(1) == 10) by {
                reveal_with_fuel(pow10, 2);
            }
        }
    } else {
        let one = seq![digit_char(n as int)];
        assert(digit_value(digit_char(n as int)) == n);
        assert(one.drop_last() =~= Seq::<char>::empty());
        assert(digits_value(Seq::<char>::empty()) == 0);
        assert(digits_value(one) == 10 * digits_value(one.drop_last()) + digit_value(one.last()));
    }
}

/// Leading zeros do not change the value of a digit string.
pub proof fn lemma_leading_zeros_value(k: nat, s: Seq<char>)
    ensures
        digits_value(Seq::new(k, |i: int| '0') + s) == digits_value(s),
    decreases s.len(), k,
{
    let zeros = Seq::new(k, |i: int| '0');
    if s.len() == 0 {
        assert(zeros + s =~= zeros);
        if k > 0 {
            lemma_leading_zeros_value((k - 1) as nat, s);
            assert(zeros.drop_last() =~= Seq::new((k - 1) as nat, |i: int| '0') + s);
        }
    } else {
        lemma_leading_zeros_value(k, s.drop_last());
        assert((zeros + s).drop_last() =~= zeros + s.drop_last());
    }
}

/// `n` zero-padded to `width` digits reads back as `n`, and is exactly
/// `width` characters long when `n < 10^width`.
pub proof fn lemma_zero_pad_value(n: nat, width: nat)
    ensures
        digits_value(zero_pad(decimal(n), width)) == n,
        width >= 1 && n < pow10(width) ==> zero_pad(decimal(n), width).len() == width,
{
    lemma_decimal_value(n, width);
    if decimal(n).len() < width {
        lemma_leading_zeros_value((width - decimal(n).len()) as nat, decimal(n));
    }
}

/// Cutting trailing zeros off a digit string divides its value by ten for
/// each zero cut.
pub proof fn lemma_trailing_zeros_value(s: Seq<char>)
    ensures
        trim_end_char(s, '0').len() <= s.len(),
        trim_end_char(s, '0').len() > 0 ==> trim_end_char(s, '0').last() != '0',
        digits_value(trim_end_char(s, '0')) * pow10((s.len() - trim_end_char(s, '0').len()) as nat)
            == digits_value(s),
    decreases s.len(),
{
    if s.len() > 0 && s.last() == '0' {
        lemma_trailing_zeros_value(s.drop_last());
        let t = trim_end_char(s, '0');
        let k = (s.drop_last().len() - t.len()) as nat;
        assert(pow10(k + 1) == 10 * pow10(k));
        assert(digits_value(t) * pow10(k + 1) == 10 * (digits_value(t) * pow10(k))) by (nonlinear_arith);
        assert(digit_value('0') == 0);
    }
}

/// Cutting every trailing `c` keeps `s` from its first character: the result
/// is a prefix of `s`, everything cut is `c`, and the result does not end
/// in `c`.
pub proof fn lemma_trim_end_char(s: Seq<char>, c: char)
    ensures
        trim_end_char(s, c).len() <= s.len(),
        s.subrange(0, trim_end_char(s, c).len() as int) == trim_end_char(s, c),
        forall|i: int| trim_end_char(s, c).len() <= i < s.len() ==> s[i] == c,
        trim_end_char(s, c).len() > 0 ==> trim_end_char(s, c).last() != c,
    decreases s.len(),
{
    let t = trim_end_char(s, c);
    if s.len() > 0 && s.last() == c {
        lemma_trim_end_char(s.drop_last(), c);
        assert(s.drop_last().subrange(0, t.len() as int) =~= s.subrange(0, t.len() as int));
        assert forall|i: int| t.len() <= i < s.len() implies s[i] == c by {
            if i < s.len() - 1 {
                assert(s[i] == s.drop_last()[i]);
            }
        }
    } else {
        assert(s.subrange(0, s.len() as int) =~= s);
    }
}

/// `char::is_whitespace`.
pub fn is_whitespace(c: char) -> (r: bool)
    ensures
        r == is_ws(c),
{
    ('\u{0009}' <= c && c <= '\u{000D}') || c == '\u{0020}' || c == '\u{0085}' || c == '\u{00A0}'
        || c == '\u{1680}' || ('\u{2000}' <= c && c <= '\u{200A}') || c == '\u{2028}' || c
        == '\u{2029}' || c == '\u{202F}' || c == '\u{205F}' || c == '\u{3000}'
}

/// Index of the first character of `s` at or after which `trim_start_ws`
/// keeps everything.
fn leading_ws_count(s: &str) -> (i: usize)
    ensures
        i <= s@.len(),
        trim_start_ws(s@) == s@.subrange(i as int, s@.len() as int),
{
    let n = s.unicode_len();
    let mut i: usize = 0;
    assert(s@.subrange(0, n as int) =~= s@);
    while i < n
        invariant
            n == s@.len(),
            i <= n,
            trim_start_ws(s@) == trim_start_ws(s@.subrange(i as int, n as int)),
        decreases n - i,
    {
        let c = s.get_char(i);
        if !is_whitespace(c) {
            assert(s@.subrange(i as int, n as int)[0] == c);
            return i;
        }
        assert(s@.subrange(i as int, n as int).drop_first() =~= s@.subrange(
            i + 1,
            n as int,
        ));
        i = i + 1;
    }
    assert(s@.subrange(n as int, n as int).len() == 0);
    i
}

/// `str::trim`: `s` with leading and trailing whitespace removed.
pub fn trim(s: &str) -> (r: &str)
    ensures
        r@ == trim_ws(s@),
{
    let n = s.unicode_len();
    let i = leading_ws_count(s);
    let ghost t = s@.subrange(i as int, n as int);
    let mut j: usize = n;
    while j > i
        invariant
            n == s@.len(),
            i <= j <= n,
            t == s@.subrange(i as int, n as int),
            trim_start_ws(s@) == t,
            trim_end_ws(t) == trim_end_ws(s@.subrange(i as int, j as int)),
        decreases j,
    {
        let c = s.get_char(j - 1);
        if !is_whitespace(c) {
            assert(s@.subrange(i as int, j as int).last() == c);
            assert(trim_end_ws(s@.subrange(i as int, j as int)) == s@.subrange(i as int, j as int));
            return s.substring_char(i, j);
        }
        assert(s@.subrange(i as int, j as int).drop_last() =~= s@.subrange(
            i as int,
            j - 1,
        ));
        j = j - 1;
    }
    assert(s@.subrange(i as int, j as int).len() == 0);
    s.substring_char(i, j)
}

/// `str::trim_start_matches(c)` for a single character `c`.
pub fn trim_start_matches_char(s: &str, c: char) -> (r: &str)
    ensures
        r@ == trim_start_char(s@, c),
{
    let n = s.unicode_len();
    let mut i: usize = 0;
    assert(s@.subrange(0, n as int) =~= s@);
    while i < n
        invariant
            n == s@.len(),
            i <= n,
            trim_start_char(s@, c) == trim_start_char(s@.subrange(i as int, n as int), c),
        decreases n - i,
    {
        let d = s.get_char(i);
        if d != c {
            assert(s@.subrange(i as int, n as int)[0] == d);
            return s.substring_char(i, n);
        }
        assert(s@.subrange(i as int, n as int).drop_first() =~= s@.subrange(
            i + 1,
            n as int,
        ));
        i = i + 1;
    }
    assert(s@.subrange(n as int, n as int).len() == 0);
    s.substring_char(n, n)
}

/// `str::trim_end_matches(c)` for a single character `c`.
pub fn trim_end_matches_char(s: &str, c: char) -> (r: &str)
    ensures
        r@ == trim_end_char(s@, c),
{
    let n = s.unicode_len();
    let mut j: usize = n;
    assert(s@.subrange(0, n as int) =~= s@);
    while j > 0
        invariant
            n == s@.len(),
            j <= n,
            trim_end_char(s@, c) == trim_end_char(s@.subrange(0, j as int), c),
        decreases j,
    {
        let d = s.get_char(j - 1);
        if d != c {
            assert(s@.subrange(0, j as int).last() == d);
            return s.substring_char(0, j);
        }
        assert(s@.subrange(0, j as int).drop_last() =~= s@.subrange(0, j - 1));
        j = j - 1;
    }
    assert(s@.subrange(0, 0).len() == 0);
    s.substring_char(0, 0)
}

/// The one-character text of a decimal digit.
fn digit_str(d: u8) -> (r: &'static str)
    requires
        d < 10,
    ensures
        r@ == seq![digit_char(d as int)],
{
    if d == 0 {
        proof {
            reveal_strlit("0");
        }
        "0"
    } else if d == 1 {
        proof {
            reveal_strlit("1");
        }
        "1"
    } else if d == 2 {
        proof {
            reveal_strlit("2");
        }
        "2"
    } else if d == 3 {
        proof {
            reveal_strlit("3");
        }
        "3"
    } else if d == 4 {
        proof {
            reveal_strlit("4");
        }
        "4"
    } else if d == 5 {
        proof {
            reveal_strlit("5");
        }
        "5"
    } else if d == 6 {
        proof {
            reveal_strlit("6");
        }
        "6"
    } else if d == 7 {
        proof {
            reveal_strlit("7");
        }
        "7"
    } else if d == 8 {
        proof {
            reveal_strlit("8");
        }
        "8"
    } else {
        proof {
            reveal_strlit("9");
        }
        "9"
    }
}

/// Appends the decimal digits of `n` to `out`.
pub fn push_decimal(out: &mut String, n: u128)
    ensures
        final(out)@ == old(out)@ + decimal(n as nat),
    decreases n,
{
    if n >= 10 {
        push_decimal(out, n / 10);
    }
    let d: u8 = (n % 10) as u8;
    out.append(digit_str(d));
    proof {
        if n < 10 {
            assert(decimal(n as nat) =~= seq![digit_char(n as int)]);
        } else {
            assert(decimal(n as nat) == decimal((n / 10) as nat).push(
                digit_char((n % 10) as int),
            ));
        }
    }
}

/// The decimal digits of `n` (`n.to_string()`).
pub fn decimal_string(n: u128) -> (r: String)
    ensures
        r@ == decimal(n as nat),
{
    let mut out = String::new();
    push_decimal(&mut out, n);
    assert(out@ =~= decimal(n as nat));
    out
}

/// Appends `count` zeros to `out`.
fn push_zeros(out: &mut String, count: usize)
    ensures
        final(out)@ == old(out)@ + Seq::new(count as nat, |i: int| '0'),
{
    let mut k: usize = 0;
    proof {
        reveal_strlit("0");
        assert(old(out)@ + Seq::new(0, |i: int| '0') =~= old(out)@);
    }
    while k < count
        invariant
            k <= count,
            out@ == old(out)@ + Seq::new(k as nat, |i: int| '0'),
        decreases count - k,
    {
        out.append("0");
        proof {
            reveal_strlit("0");
        }
        assert(old(out)@ + Seq::new(k as nat, |i: int| '0') + seq!['0'] =~= old(out)@
            + Seq::new((k + 1) as nat, |i: int| '0'));
        k = k + 1;
    }
}

/// Appends `n` in decimal, padded with leading zeros to `width` characters
/// (`write!(out, "{:0width$}", n)`).
pub fn push_zero_padded(out: &mut String, n: u128, width: usize)
    ensures
        final(out)@ == old(out)@ + zero_pad(decimal(n as nat), width as nat),
{
    let digits = decimal_string(n);
    let len = digits.as_str().unicode_len();
    if len < width {
        push_zeros(out, width - len);
    }
    out.append(digits.as_str());
    assert(out@ =~= old(out)@ + zero_pad(decimal(n as nat), width as nat));
}

/// Appends a signed integer padded with zeros to `width` characters, the sign
/// counting toward the width (`write!(out, "{:0width$}", n)` for `i64`).
pub fn push_signed_zero_padded(out: &mut String, n: i64, width: usize)
    ensures
        final(out)@ == old(out)@ + signed_zero_pad(n as int, width as nat),
{
    if n < 0 {
        proof {
            reveal_strlit("-");
        }
        out.append("-");
        let magnitude: u128 = ((-(n as i128)) as u128);
        let w: usize = if width >= 1 { width - 1 } else { 0 };
        push_zero_padded(out, magnitude, w);
        assert(out@ =~= old(out)@ + signed_zero_pad(n as int, width as nat));
    } else {
        push_zero_padded(out, n as u128, width);
    }
}

} // verus!
