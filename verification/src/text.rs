//! Character-level helpers shared by the library: whitespace trimming,
//! decimal rendering and parsing, and conversions between `&str`, `String`
//! and character vectors.
use vstd::prelude::*;

verus! {

broadcast use vstd::string::group_string_axioms;

/// The characters of `s`, in order.
pub fn chars_of(s: &str) -> (v: Vec<char>)
    ensures
        v@ == s@,
{
    let mut v: Vec<char> = Vec::new();
    for c in it: s.chars()
        invariant
            v@ == it.seq().take(it.index() as int),
            it.seq() == s@,
    {
        v.push(c);
    }
    v
}

/// Appends `c` to `s` (`String::push`).
#[verifier::external_body]
pub(crate) fn push_char(s: &mut String, c: char)
    ensures
        final(s)@ == old(s)@.push(c),
{
    s.push(c);
}

/// Whether two string slices hold the same characters.
pub(crate) fn same_text(a: &str, b: &str) -> (r: bool)
    ensures
        r == (a@ == b@),
{
    let x: String = a.to_owned();
    let y: String = b.to_owned();
    x == y
}

/// Appends the characters of `s` to `out`.
pub fn push_str(out: &mut String, s: &str)
    ensures
        final(out)@ == old(out)@ + s@,
{
    let v = chars_of(s);
    push_chars(out, &v, 0, v.len());
}

/// Appends `v[from..to]` to `out`.
pub fn push_chars(out: &mut String, v: &Vec<char>, from: usize, to: usize)
    requires
        from <= to <= v@.len(),
    ensures
        final(out)@ == old(out)@ + v@.subrange(from as int, to as int),
{
    let mut i = from;
    while i < to
        invariant
            from <= i <= to <= v@.len(),
            out@ == old(out)@ + v@.subrange(from as int, i as int),
        decreases to - i,
    {
        push_char(out, v[i]);
        assert(v@.subrange(from as int, i + 1) == v@.subrange(from as int, i as int).push(v@[i as int]));
        i = i + 1;
    }
}

/// A new `String` holding `v[from..to]`.
pub fn string_of(v: &Vec<char>, from: usize, to: usize) -> (s: String)
    requires
        from <= to <= v@.len(),
    ensures
        s@ == v@.subrange(from as int, to as int),
{
    let mut s = String::new();
    push_chars(&mut s, v, from, to);
    s
}

/// A new `String` holding the characters of `s`.
pub fn owned(s: &str) -> (r: String)
    ensures
        r@ == s@,
{
    let mut r = String::new();
    push_str(&mut r, s);
    r
}

// ---------------------------------------------------------------------------
// Whitespace

/// The Unicode `White_Space` property, the set `char::is_whitespace` and
/// `str::trim` test against.
pub open spec fn is_white_space(c: char) -> bool {
    ||| ('\u{9}' <= c && c <= '\u{d}')
    ||| c == ' '
    ||| c == '\u{85}'
    ||| c == '\u{a0}'
    ||| c == '\u{1680}'
    ||| ('\u{2000}' <= c && c <= '\u{200a}')
    ||| c == '\u{2028}'
    ||| c == '\u{2029}'
    ||| c == '\u{202f}'
    ||| c == '\u{205f}'
    ||| c == '\u{3000}'
}

pub fn white_space(c: char) -> (r: bool)
    ensures
        r == is_white_space(c),
{
    ('\u{9}' <= c && c <= '\u{d}') || c == ' ' || c == '\u{85}' || c == '\u{a0}'
        || c == '\u{1680}' || ('\u{2000}' <= c && c <= '\u{200a}') || c == '\u{2028}'
        || c == '\u{2029}' || c == '\u{202f}' || c == '\u{205f}' || c == '\u{3000}'
}

/// `s` without its leading white space.
pub open spec fn trim_start(s: Seq<char>) -> Seq<char>
    decreases s.len(),
{
    if s.len() > 0 && is_white_space(s[0]) {
        trim_start(s.drop_first())
    } else {
        s
    }
}

/// `s` without its trailing white space.
pub open spec fn trim_end(s: Seq<char>) -> Seq<char>
    decreases s.len(),
{
    if s.len() > 0 && is_white_space(s.last()) {
        trim_end(s.drop_last())
    } else {
        s
    }
}

/// `s` without leading and trailing white space, as `str::trim` gives it.
pub open spec fn trim(s: Seq<char>) -> Seq<char> {
    trim_end(trim_start(s))
}

/// A trimmed text starts and ends with a character that is not white space.
pub open spec fn is_trimmed(s: Seq<char>) -> bool {
    s.len() > 0 ==> !is_white_space(s[0]) && !is_white_space(s.last())
}

proof fn lemma_trim_start_skip(s: Seq<char>, i: int)
    requires
        0 <= i <= s.len(),
        forall|k: int| 0 <= k < i ==> is_white_space(#[trigger] s[k]),
    ensures
        trim_start(s) == trim_start(s.subrange(i, s.len() as int)),
    decreases i,
{
    if i > 0 {
        assert(s.drop_first() == s.subrange(1, s.len() as int));
        lemma_trim_start_skip(s.drop_first(), i - 1);
        assert(s.drop_first().subrange(i - 1, s.drop_first().len() as int) == s.subrange(i, s.len() as int));
    } else {
        assert(s.subrange(0, s.len() as int) == s);
    }
}

proof fn lemma_trim_end_skip(s: Seq<char>, j: int)
    requires
        0 <= j <= s.len(),
        forall|k: int| j <= k < s.len() ==> is_white_space(#[trigger] s[k]),
    ensures
        trim_end(s) == trim_end(s.subrange(0, j)),
    decreases s.len() - j,
{
    if j < s.len() {
        assert(s.drop_last() == s.subrange(0, s.len() - 1));
        lemma_trim_end_skip(s.drop_last(), j);
        assert(s.drop_last().subrange(0, j) == s.subrange(0, j));
    } else {
        assert(s.subrange(0, s.len() as int) == s);
    }
}

proof fn lemma_trim_is_trimmed(s: Seq<char>)
    ensures
        is_trimmed(trim(s)),
        trim(trim(s)) == trim(s),
    decreases s.len(),
{
    lemma_trim_start_trimmed(s);
    lemma_trim_end_keeps_start(trim_start(s));
    lemma_trim_end_trimmed(trim_start(s));
}

proof fn lemma_trim_start_trimmed(s: Seq<char>)
    ensures
        trim_start(s).len() > 0 ==> !is_white_space(trim_start(s)[0]),
    decreases s.len(),
{
    if s.len() > 0 && is_white_space(s[0]) {
        lemma_trim_start_trimmed(s.drop_first());
    }
}

proof fn lemma_trim_end_trimmed(s: Seq<char>)
    ensures
        trim_end(s).len() > 0 ==> !is_white_space(trim_end(s).last()),
        trim_start(trim_end(s)) == trim_end(s) || !(s.len() > 0 ==> !is_white_space(s[0])),
    decreases s.len(),
{
    if s.len() > 0 && is_white_space(s.last()) {
        lemma_trim_end_trimmed(s.drop_last());
        if s.len() > 0 && !is_white_space(s[0]) && s.drop_last().len() > 0 {
            assert(s.drop_last()[0] == s[0]);
        }
    }
}

proof fn lemma_trim_end_keeps_start(s: Seq<char>)
    requires
        s.len() > 0 ==> !is_white_space(s[0]),
    ensures
        trim_end(s).len() > 0 ==> trim_end(s)[0] == s[0],
        trim_end(s).len() <= s.len(),
        trim_end(trim_end(s)) == trim_end(s),
        trim_start(trim_end(s)) == trim_end(s),
    decreases s.len(),
{
    if s.len() > 0 && is_white_space(s.last()) {
        if s.drop_last().len() > 0 {
            assert(s.drop_last()[0] == s[0]);
        }
        lemma_trim_end_keeps_start(s.drop_last());
    }
}

/// `s` with leading and trailing white space removed (`str::trim`).
pub fn trimmed(s: &str) -> (r: String)
    ensures
        r@ == trim(s@),
        is_trimmed(r@),
{
    let v = chars_of(s);
    let n = v.len();
    let mut i: usize = 0;
    while i < n && white_space(v[i])
        invariant
            n == v@.len(),
            0 <= i <= n,
            forall|k: int| 0 <= k < i ==> is_white_space(#[trigger] v@[k]),
        decreases n - i,
    {
        i = i + 1;
    }
    let mut j: usize = n;
    while j > i && white_space(v[j - 1])
        invariant
            n == v@.len(),
            i <= j <= n,
            forall|k: int| j <= k < n ==> is_white_space(#[trigger] v@[k]),
        decreases j - i,
    {
        j = j - 1;
    }
    proof {
        let s0 = v@;
        lemma_trim_start_skip(s0, i as int);
        let t = s0.subrange(i as int, n as int);
        if i < n {
            assert(!is_white_space(t[0]));
        }
        assert(trim_start(t) == t);
        lemma_trim_end_skip(t, j - i);
        assert(t.subrange(0, j - i) == s0.subrange(i as int, j as int));
        let u = s0.subrange(i as int, j as int);
        if j > i {
            assert(!is_white_space(u.last()));
            assert(!is_white_space(u[0]));
        }
        assert(trim_end(u) == u);
        lemma_trim_is_trimmed(s0);
    }
    string_of(&v, i, j)
}

// ---------------------------------------------------------------------------
// Decimal numbers

/// The character of decimal digit `d`.
pub open spec fn digit_char(d: nat) -> char {
    (d + 48) as char
}

/// Whether `c` is an ASCII decimal digit.
pub open spec fn is_digit(c: char) -> bool {
    '0' <= c && c <= '9'
}

/// The value of digit character `c`.
pub open spec fn digit_value(c: char) -> nat {
    (c as int - 48) as nat
}

/// The decimal representation of `n`, without leading zeros (`{}`).
pub open spec fn decimal(n: nat) -> Seq<char>
    decreases n,
{
    if n < 10 {
        seq![digit_char(n)]
    } else {
        decimal(n / 10).push(digit_char(n % 10))
    }
}

/// The decimal representation of `n`, left-padded with zeros to two digits (`{:02}`).
pub open spec fn decimal2(n: nat) -> Seq<char> {
    if n < 10 {
        seq!['0'] + decimal(n)
    } else {
        decimal(n)
    }
}

/// `k` zeros.
pub open spec fn zeros(k: nat) -> Seq<char> {
    Seq::new(k, |i: int| '0')
}

/// The decimal representation of `n`, left-padded with zeros to `width` digits.
pub open spec fn decimal_padded(n: nat, width: nat) -> Seq<char> {
    if decimal(n).len() < width {
        zeros((width - decimal(n).len()) as nat) + decimal(n)
    } else {
        decimal(n)
    }
}

pub proof fn lemma_decimal_digits(n: nat)
    ensures
        decimal(n).len() > 0,
        forall|i: int| 0 <= i < decimal(n).len() ==> is_digit(#[trigger] decimal(n)[i]),
    decreases n,
{
    if n >= 10 {
        lemma_decimal_digits(n / 10);
    }
}

fn digit(d: u64) -> (c: char)
    requires
        d < 10,
    ensures
        c == digit_char(d as nat),
{
    let b: u8 = d as u8 + 48;
    b as char
}

/// Appends the decimal representation of `n` to `out`.
pub fn push_decimal(out: &mut String, n: u64)
    ensures
        final(out)@ == old(out)@ + decimal(n as nat),
    decreases n,
{
    if n >= 10 {
        push_decimal(out, n / 10);
    }
    push_char(out, digit(n % 10));
    proof {
        if n >= 10 {
            assert(old(out)@ + decimal(n as nat) == (old(out)@ + decimal((n / 10) as nat)).push(
                digit_char((n % 10) as nat),
            ));
        }
    }
}

/// Appends the decimal representation of `n`, zero-padded to two digits.
pub fn push_decimal2(out: &mut String, n: u64)
    ensures
        final(out)@ == old(out)@ + decimal2(n as nat),
{
    if n < 10 {
        push_char(out, '0');
    }
    push_decimal(out, n);
    proof {
        if n < 10 {
            assert(old(out)@.push('0') + decimal(n as nat) == old(out)@ + (seq!['0'] + decimal(
                n as nat,
            )));
        }
    }
}

/// The decimal representation of `i` with a leading `-` when negative
/// (`{}` of a signed integer).
pub open spec fn signed_decimal(i: int) -> Seq<char> {
    if i < 0 {
        seq!['-'] + decimal((-i) as nat)
    } else {
        decimal(i as nat)
    }
}

/// Appends the decimal representation of the signed `n` to `out`.
pub fn push_signed(out: &mut String, n: i64)
    ensures
        final(out)@ == old(out)@ + signed_decimal(n as int),
{
    if n < 0 {
        push_char(out, '-');
        let magnitude: u64 = (-(n + 1)) as u64 + 1;
        push_decimal(out, magnitude);
        assert(old(out)@.push('-') + decimal(magnitude as nat) == old(out)@ + signed_decimal(
            n as int,
        ));
    } else {
        push_decimal(out, n as u64);
    }
}

/// The signed decimal representation of `i` reads back as `i`.
pub proof fn lemma_signed_decimal_parses(i: int)
    ensures
        integer_text(signed_decimal(i), true) == Some(i),
{
    if i < 0 {
        let d = decimal((-i) as nat);
        lemma_decimal_parses((-i) as nat);
        lemma_decimal_digits((-i) as nat);
        assert((seq!['-'] + d).drop_first() == d);
        assert(is_digit(d[0]));
    } else {
        lemma_decimal_parses(i as nat);
        lemma_decimal_digits(i as nat);
        assert(is_digit(decimal(i as nat)[0]));
    }
}

/// The decimal representation of `n` as a new `String`.
pub fn decimal_string(n: u64) -> (s: String)
    ensures
        s@ == decimal(n as nat),
{
    let mut s = String::new();
    push_decimal(&mut s, n);
    s
}

/// The numeric value of a run of decimal digits.
pub open spec fn digits_value(s: Seq<char>) -> nat
    decreases s.len(),
{
    if s.len() == 0 {
        0
    } else {
        digits_value(s.drop_last()) * 10 + digit_value(s.last())
    }
}

/// The decimal representation of `n` reads back as `n`.
pub proof fn lemma_decimal_parses(n: nat)
    ensures
        integer_text(decimal(n), false) == Some(n as int),
    decreases n,
{
    lemma_decimal_digits(n);
    lemma_decimal_value(n);
    assert(is_digit(decimal(n)[0]));
}

/// The value of the digits of `n` is `n`.
proof fn lemma_decimal_value(n: nat)
    ensures
        digits_value(decimal(n)) == n,
    decreases n,
{
    if n >= 10 {
        lemma_decimal_value(n / 10);
        let d = decimal(n);
        assert(d.drop_last() == decimal(n / 10));
        assert(d.last() == digit_char(n % 10));
        assert(digit_value(digit_char(n % 10)) == n % 10);
        assert(digits_value(d) == digits_value(d.drop_last()) * 10 + digit_value(d.last()));
        assert((n / 10) * 10 + n % 10 == n);
    } else {
        let d = decimal(n);
        assert(digit_value(digit_char(n)) == n);
        assert(d.drop_last() == Seq::<char>::empty());
        assert(digits_value(Seq::<char>::empty()) == 0);
        assert(digits_value(d) == digits_value(d.drop_last()) * 10 + digit_value(d.last()));
    }
}

/// Whether `s` is a non-empty run of ASCII decimal digits.
pub open spec fn all_digits(s: Seq<char>) -> bool {
    s.len() > 0 && forall|i: int| 0 <= i < s.len() ==> is_digit(#[trigger] s[i])
}

/// The integer an integer literal denotes, as Rust's `FromStr` for integers
/// reads it: an optional `+` (or, when `signed`, `-`) followed by at least one
/// ASCII digit, and nothing else. `None` for any other text.
pub open spec fn integer_text(s: Seq<char>, signed: bool) -> Option<int> {
    if s.len() > 0 && s[0] == '+' {
        if all_digits(s.drop_first()) {
            Some(digits_value(s.drop_first()) as int)
        } else {
            None
        }
    } else if signed && s.len() > 0 && s[0] == '-' {
        if all_digits(s.drop_first()) {
            Some(-(digits_value(s.drop_first()) as int))
        } else {
            None
        }
    } else if all_digits(s) {
        Some(digits_value(s) as int)
    } else {
        None
    }
}

/// `s.parse::<T>()` for an integer type `T` whose range is `[lo, hi]`.
pub open spec fn parse_int(s: Seq<char>, signed: bool, lo: int, hi: int) -> Option<int> {
    match integer_text(s, signed) {
        Some(v) => if lo <= v <= hi {
            Some(v)
        } else {
            None
        },
        None => None,
    }
}

pub open spec fn min_nat(a: nat, b: nat) -> nat {
    if a <= b {
        a
    } else {
        b
    }
}

/// The value of the digit run `v[from..]`, capped at `cap`, or `None` when
/// the run is empty or holds a non-digit.
fn digits_capped(v: &Vec<char>, from: usize, cap: u128) -> (r: Option<u128>)
    requires
        from <= v@.len(),
        cap <= 0x2_0000_0000_0000_0000,
    ensures
        r is Some <==> all_digits(v@.subrange(from as int, v@.len() as int)),
        r matches Some(x) ==> x == min_nat(
            digits_value(v@.subrange(from as int, v@.len() as int)),
            cap as nat,
        ),
{
    if from == v.len() {
        return None;
    }
    let mut acc: u128 = 0;
    let mut i = from;
    while i < v.len()
        invariant
            from <= i <= v@.len(),
            acc <= cap,
            cap <= 0x2_0000_0000_0000_0000,
            forall|k: int| from <= k < i ==> is_digit(#[trigger] v@[k]),
            acc == min_nat(digits_value(v@.subrange(from as int, i as int)), cap as nat),
        decreases v@.len() - i,
    {
        let c = v[i];
        if !('0' <= c && c <= '9') {
            assert(!is_digit(v@.subrange(from as int, v@.len() as int)[i - from]));
            return None;
        }
        let d: u128 = (c as u32 - 48) as u128;
        let ghost prefix = v@.subrange(from as int, i as int);
        let ghost next = v@.subrange(from as int, i + 1);
        assert(next.drop_last() == prefix);
        assert(next.last() == c);
        let ghost full = digits_value(prefix);
        assert(digits_value(next) == full * 10 + d);
        assert(acc * 10 + d <= cap * 10 + 9) by (nonlinear_arith)
            requires
                acc <= cap,
                d < 10,
        ;
        let t = acc * 10 + d;
        proof {
            if full <= cap {
                assert(acc == full);
            } else {
                assert(acc == cap);
                assert(full * 10 + d >= cap) by (nonlinear_arith)
                    requires
                        full > cap,
                ;
                assert(t >= cap) by (nonlinear_arith)
                    requires
                        acc == cap,
                        t == acc * 10 + d,
                ;
            }
        }
        acc = if t > cap {
            cap
        } else {
            t
        };
        i = i + 1;
    }
    assert(v@.subrange(from as int, i as int) == v@.subrange(from as int, v@.len() as int));
    Some(acc)
}

/// Parses an integer literal with Rust's `FromStr` rules for a type whose
/// range is `[-(neg_max), pos_max]` (`neg_max == 0` for unsigned types).
fn parse_integer(s: &str, signed: bool, neg_max: u128, pos_max: u128) -> (r: Option<i128>)
    requires
        neg_max <= 0x1_0000_0000_0000_0000,
        pos_max <= 0x1_0000_0000_0000_0000,
    ensures
        r matches Some(x) ==> parse_int(s@, signed, -(neg_max as int), pos_max as int) == Some(
            x as int,
        ),
        r is None ==> parse_int(s@, signed, -(neg_max as int), pos_max as int) is None,
{
    let v = chars_of(s);
    let cap: u128 = if neg_max > pos_max {
        neg_max + 1
    } else {
        pos_max + 1
    };
    let ghost sq = v@;
    if v.len() > 0 && v[0] == '+' {
        assert(sq.drop_first() == sq.subrange(1, sq.len() as int));
        match digits_capped(&v, 1, cap) {
            Some(x) => if x <= pos_max {
                Some(x as i128)
            } else {
                None
            },
            None => None,
        }
    } else if signed && v.len() > 0 && v[0] == '-' {
        assert(sq.drop_first() == sq.subrange(1, sq.len() as int));
        match digits_capped(&v, 1, cap) {
            Some(x) => if x <= neg_max {
                Some(-(x as i128))
            } else {
                None
            },
            None => None,
        }
    } else {
        assert(sq == sq.subrange(0, sq.len() as int));
        match digits_capped(&v, 0, cap) {
            Some(x) => if x <= pos_max {
                Some(x as i128)
            } else {
                None
            },
            None => None,
        }
    }
}

/// `s.parse::<u16>().ok()`.
pub fn parse_u16(s: &str) -> (r: Option<u16>)
    ensures
        r matches Some(x) ==> parse_int(s@, false, 0, u16::MAX as int) == Some(x as int),
        r is None ==> parse_int(s@, false, 0, u16::MAX as int) is None,
{
    match parse_integer(s, false, 0, 0xffff) {
        Some(x) => Some(x as u16),
        None => None,
    }
}

/// `s.parse::<u32>().ok()`.
pub fn parse_u32(s: &str) -> (r: Option<u32>)
    ensures
        r matches Some(x) ==> parse_int(s@, false, 0, u32::MAX as int) == Some(x as int),
        r is None ==> parse_int(s@, false, 0, u32::MAX as int) is None,
{
    match parse_integer(s, false, 0, 0xffff_ffff) {
        Some(x) => Some(x as u32),
        None => None,
    }
}

/// `s.parse::<i32>().ok()`.
pub fn parse_i32(s: &str) -> (r: Option<i32>)
    ensures
        r matches Some(x) ==> parse_int(s@, true, i32::MIN as int, i32::MAX as int) == Some(
            x as int,
        ),
        r is None ==> parse_int(s@, true, i32::MIN as int, i32::MAX as int) is None,
{
    match parse_integer(s, true, 0x8000_0000, 0x7fff_ffff) {
        Some(x) => Some(x as i32),
        None => None,
    }
}

/// `s.parse::<i64>().ok()`.
pub fn parse_i64(s: &str) -> (r: Option<i64>)
    ensures
        r matches Some(x) ==> parse_int(s@, true, i64::MIN as int, i64::MAX as int) == Some(
            x as int,
        ),
        r is None ==> parse_int(s@, true, i64::MIN as int, i64::MAX as int) is None,
{
    match parse_integer(s, true, 0x8000_0000_0000_0000, 0x7fff_ffff_ffff_ffff) {
        Some(x) => Some(x as i64),
        None => None,
    }
}

/// `s.parse::<u64>().ok()`.
pub fn parse_u64(s: &str) -> (r: Option<u64>)
    ensures
        r matches Some(x) ==> parse_int(s@, false, 0, u64::MAX as int) == Some(x as int),
        r is None ==> parse_int(s@, false, 0, u64::MAX as int) is None,
{
    match parse_integer(s, false, 0, 0xffff_ffff_ffff_ffff) {
        Some(x) => Some(x as u64),
        None => None,
    }
}

} // verus!
