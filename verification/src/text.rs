//! Character classes and small string routines that the validators share:
//! Unicode white space and control characters, blank and ASCII checks,
//! the optional `0x` hex prefix, and decimal rendering of integers.
use vstd::prelude::*;

verus! {

broadcast use vstd::string::group_string_axioms;

/// The Unicode `White_Space` property, which `char::is_whitespace` follows.
pub open spec fn spec_is_whitespace(c: char) -> bool {
    let u = c as u32;
    (0x9 <= u && u <= 0xD) || u == 0x20 || u == 0x85 || u == 0xA0 || u == 0x1680 || (0x2000 <= u
        && u <= 0x200A) || u == 0x2028 || u == 0x2029 || u == 0x202F || u == 0x205F || u == 0x3000
}

/// The Unicode general category `Cc`, which `char::is_control` follows.
pub open spec fn spec_is_control(c: char) -> bool {
    let u = c as u32;
    u <= 0x1F || (0x7F <= u && u <= 0x9F)
}

/// Every character is white space (what `str::trim` reduces to nothing).
pub open spec fn spec_is_blank(s: Seq<char>) -> bool {
    forall|i: int| 0 <= i < s.len() ==> spec_is_whitespace(#[trigger] s[i])
}

/// Some character is white space or a control character.
pub open spec fn spec_has_space_or_control(s: Seq<char>) -> bool {
    exists|i: int| 0 <= i < s.len() && (spec_is_whitespace(#[trigger] s[i]) || spec_is_control(s[i]))
}

/// Some character equals `c`.
pub open spec fn spec_contains_char(s: Seq<char>, c: char) -> bool {
    exists|i: int| 0 <= i < s.len() && #[trigger] s[i] == c
}

/// Every character is ASCII.
pub open spec fn spec_is_ascii(s: Seq<char>) -> bool {
    forall|i: int| 0 <= i < s.len() ==> (#[trigger] s[i] as u32) < 128
}

/// `char::is_whitespace`.
pub fn is_whitespace_char(c: char) -> (r: bool)
    ensures
        r == spec_is_whitespace(c),
{
    let u = c as u32;
    (0x9 <= u && u <= 0xD) || u == 0x20 || u == 0x85 || u == 0xA0 || u == 0x1680 || (0x2000 <= u
        && u <= 0x200A) || u == 0x2028 || u == 0x2029 || u == 0x202F || u == 0x205F || u == 0x3000
}

/// `char::is_control`.
pub fn is_control_char(c: char) -> (r: bool)
    ensures
        r == spec_is_control(c),
{
    let u = c as u32;
    u <= 0x1F || (0x7F <= u && u <= 0x9F)
}

/// True when the text is empty once surrounding white space is trimmed.
pub fn is_blank(s: &str) -> (r: bool)
    ensures
        r == spec_is_blank(s@),
{
    let mut it = s.chars();
    let ghost mut k: int = 0;
    loop
        invariant
            0 <= k <= s@.len(),
            vstd::std_specs::iter::IteratorSpec::remaining(&it) == s@.skip(k),
            vstd::std_specs::iter::IteratorSpec::obeys_prophetic_iter_laws(&it),
            forall|i: int| 0 <= i < k ==> spec_is_whitespace(#[trigger] s@[i]),
        decreases s@.len() - k,
    {
        match it.next() {
            None => {
                return true;
            },
            Some(c) => {
                if !is_whitespace_char(c) {
                    return false;
                }
                proof {
                    k = k + 1;
                }
            },
        }
    }
}

/// True when some character is white space or a control character.
pub fn has_space_or_control(s: &str) -> (r: bool)
    ensures
        r == spec_has_space_or_control(s@),
{
    let mut it = s.chars();
    let ghost mut k: int = 0;
    loop
        invariant
            0 <= k <= s@.len(),
            vstd::std_specs::iter::IteratorSpec::remaining(&it) == s@.skip(k),
            vstd::std_specs::iter::IteratorSpec::obeys_prophetic_iter_laws(&it),
            forall|i: int|
                0 <= i < k ==> !spec_is_whitespace(#[trigger] s@[i]) && !spec_is_control(s@[i]),
        decreases s@.len() - k,
    {
        match it.next() {
            None => {
                return false;
            },
            Some(c) => {
                if is_whitespace_char(c) || is_control_char(c) {
                    assert(s@[k] == c);
                    return true;
                }
                proof {
                    k = k + 1;
                }
            },
        }
    }
}

/// True when some character equals `needle`.
pub fn contains_char(s: &str, needle: char) -> (r: bool)
    ensures
        r == spec_contains_char(s@, needle),
{
    let mut it = s.chars();
    let ghost mut k: int = 0;
    loop
        invariant
            0 <= k <= s@.len(),
            vstd::std_specs::iter::IteratorSpec::remaining(&it) == s@.skip(k),
            vstd::std_specs::iter::IteratorSpec::obeys_prophetic_iter_laws(&it),
            forall|i: int| 0 <= i < k ==> #[trigger] s@[i] != needle,
        decreases s@.len() - k,
    {
        match it.next() {
            None => {
                return false;
            },
            Some(c) => {
                if c == needle {
                    assert(s@[k] == c);
                    return true;
                }
                proof {
                    k = k + 1;
                }
            },
        }
    }
}

/// True when every character is ASCII.
pub fn is_ascii_text(s: &str) -> (r: bool)
    ensures
        r == spec_is_ascii(s@),
{
    let mut it = s.chars();
    let ghost mut k: int = 0;
    loop
        invariant
            0 <= k <= s@.len(),
            vstd::std_specs::iter::IteratorSpec::remaining(&it) == s@.skip(k),
            vstd::std_specs::iter::IteratorSpec::obeys_prophetic_iter_laws(&it),
            forall|i: int| 0 <= i < k ==> (#[trigger] s@[i] as u32) < 128,
        decreases s@.len() - k,
    {
        match it.next() {
            None => {
                return true;
            },
            Some(c) => {
                if (c as u32) >= 128 {
                    assert(s@[k] == c);
                    return false;
                }
                proof {
                    k = k + 1;
                }
            },
        }
    }
}

/// The UTF-8 length of a text, what `str::len` gives.
pub open spec fn spec_byte_len(s: Seq<char>) -> nat {
    vstd::utf8::encode_utf8(s).len()
}

/// The text without one leading `0x` or `0X`.
pub open spec fn spec_strip_hex_prefix(s: Seq<char>) -> Seq<char> {
    if s.len() >= 2 && s[0] == '0' && (s[1] == 'x' || s[1] == 'X') {
        s.skip(2)
    } else {
        s
    }
}

/// Drops one leading `0x` or `0X`.
pub fn strip_hex_prefix(value: &str) -> (r: &str)
    ensures
        r@ == spec_strip_hex_prefix(value@),
{
    let n = value.unicode_len();
    if n >= 2 {
        let c0 = value.get_char(0);
        let c1 = value.get_char(1);
        if c0 == '0' && (c1 == 'x' || c1 == 'X') {
            return value.substring_char(2, n);
        }
    }
    value
}

/// The decimal digit character of `d`.
pub open spec fn spec_digit_char(d: nat) -> char {
    if d == 0 {
        '0'
    } else if d == 1 {
        '1'
    } else if d == 2 {
        '2'
    } else if d == 3 {
        '3'
    } else if d == 4 {
        '4'
    } else if d == 5 {
        '5'
    } else if d == 6 {
        '6'
    } else if d == 7 {
        '7'
    } else if d == 8 {
        '8'
    } else {
        '9'
    }
}

/// The decimal rendering of a natural number, without leading zeros.
pub open spec fn spec_decimal(n: nat) -> Seq<char>
    decreases n,
{
    if n < 10 {
        seq![spec_digit_char(n)]
    } else {
        spec_decimal(n / 10) + seq![spec_digit_char(n % 10)]
    }
}

/// The decimal rendering of a signed number, with a leading `-` when negative.
pub open spec fn spec_signed_decimal(n: int) -> Seq<char> {
    if n < 0 {
        seq!['-'] + spec_decimal((-n) as nat)
    } else {
        spec_decimal(n as nat)
    }
}

fn digit_text(d: u64) -> (s: &'static str)
    requires
        d < 10,
    ensures
        s@ == seq![spec_digit_char(d as nat)],
{
    if d == 0 {
        proof {
            reveal_strlit("0");
        }
        "0"
    } else if d == 1 {
        proof {
            reveal_strlit("1");
        }
        "1"
    } else if d == 2 {
        proof {
            reveal_strlit("2");
        }
        "2"
    } else if d == 3 {
        proof {
            reveal_strlit("3");
        }
        "3"
    } else if d == 4 {
        proof {
            reveal_strlit("4");
        }
        "4"
    } else if d == 5 {
        proof {
            reveal_strlit("5");
        }
        "5"
    } else if d == 6 {
        proof {
            reveal_strlit("6");
        }
        "6"
    } else if d == 7 {
        proof {
            reveal_strlit("7");
        }
        "7"
    } else if d == 8 {
        proof {
            reveal_strlit("8");
        }
        "8"
    } else {
        proof {
            reveal_strlit("9");
        }
        "9"
    }
}

/// Appends the decimal rendering of `n`.
pub fn push_decimal(out: &mut String, n: u64)
    ensures
        final(out)@ == old(out)@ + spec_decimal(n as nat),
    decreases n,
{
    if n >= 10 {
        push_decimal(out, n / 10);
    }
    out.append(digit_text(n % 10));
    assert(old(out)@ + spec_decimal(n as nat) =~= if n >= 10 {
        old(out)@ + spec_decimal((n / 10) as nat) + seq![spec_digit_char((n % 10) as nat)]
    } else {
        old(out)@ + seq![spec_digit_char((n % 10) as nat)]
    });
}

/// Appends the decimal rendering of a signed number.
pub fn push_signed_decimal(out: &mut String, n: i64)
    ensures
        final(out)@ == old(out)@ + spec_signed_decimal(n as int),
{
    if n < 0 {
        proof {
            reveal_strlit("-");
        }
        out.append("-");
        let magnitude: u64 = if n == i64::MIN {
            9223372036854775808u64
        } else {
            (-n) as u64
        };
        push_decimal(out, magnitude);
        assert(old(out)@ + spec_signed_decimal(n as int) =~= old(out)@ + seq!['-'] + spec_decimal(
            magnitude as nat,
        ));
    } else {
        push_decimal(out, n as u64);
    }
}

/// The decimal rendering of `n`, what `u64::to_string` gives.
pub fn decimal_string(n: u64) -> (s: String)
    ensures
        s@ == spec_decimal(n as nat),
{
    let mut s = String::new();
    push_decimal(&mut s, n);
    assert(s@ =~= spec_decimal(n as nat));
    s
}

/// The decimal rendering of a signed number, what `i64::to_string` gives.
pub fn signed_decimal_string(n: i64) -> (s: String)
    ensures
        s@ == spec_signed_decimal(n as int),
{
    let mut s = String::new();
    push_signed_decimal(&mut s, n);
    assert(s@ =~= spec_signed_decimal(n as int));
    s
}

/// Copies a text into an owned `String`.
pub fn owned(s: &str) -> (r: String)
    ensures
        r@ == s@,
{
    s.to_owned()
}

/// `a` followed by `b`.
pub fn concat2(a: &str, b: &str) -> (r: String)
    ensures
        r@ == a@ + b@,
{
    let mut r = a.to_owned();
    r.append(b);
    r
}

/// `a`, then `b`, then `c`.
pub fn concat3(a: &str, b: &str, c: &str) -> (r: String)
    ensures
        r@ == a@ + b@ + c@,
{
    let mut r = a.to_owned();
    r.append(b);
    r.append(c);
    r
}

/// True when the two texts are equal, character for character.
pub fn same_text(a: &str, b: &str) -> (r: bool)
    ensures
        r == (a@ == b@),
{
    let n = a.unicode_len();
    let m = b.unicode_len();
    if n != m {
        return false;
    }
    let mut x = a.chars();
    let mut y = b.chars();
    let ghost mut k: int = 0;
    loop
        invariant
            0 <= k <= n,
            n == a@.len(),
            n == b@.len(),
            vstd::std_specs::iter::IteratorSpec::remaining(&x) == a@.skip(k),
            vstd::std_specs::iter::IteratorSpec::obeys_prophetic_iter_laws(&x),
            vstd::std_specs::iter::IteratorSpec::remaining(&y) == b@.skip(k),
            vstd::std_specs::iter::IteratorSpec::obeys_prophetic_iter_laws(&y),
            forall|i: int| 0 <= i < k ==> #[trigger] a@[i] == b@[i],
        decreases n - k,
    {
        match (x.next(), y.next()) {
            (Some(cx), Some(cy)) => {
                assert(a@[k] == cx && b@[k] == cy);
                if cx != cy {
                    return false;
                }
                proof {
                    k = k + 1;
                }
            },
            _ => {
                assert(a@ =~= b@);
                return true;
            },
        }
    }
}

/// The texts inside an optional `String`.
pub open spec fn opt_text(o: Option<String>) -> Option<Seq<char>> {
    match o {
        Some(s) => Some(s@),
        None => None,
    }
}

/// True when `s` starts with `prefix`.
pub fn has_prefix(s: &str, prefix: &str) -> (r: bool)
    ensures
        r == (prefix@.len() <= s@.len() && s@.subrange(0, prefix@.len() as int) == prefix@),
{
    let n = s.unicode_len();
    let m = prefix.unicode_len();
    if m > n {
        return false;
    }
    let head = s.substring_char(0, m);
    same_text(head, prefix)
}

/// The index of the first character that is not white space, or the length.
pub open spec fn spec_trim_start(s: Seq<char>) -> int
    decreases s.len(),
{
    if s.len() == 0 || !spec_is_whitespace(s[0]) {
        0
    } else {
        1 + spec_trim_start(s.drop_first())
    }
}

/// The length once trailing white space is dropped.
pub open spec fn spec_trim_end(s: Seq<char>) -> int
    decreases s.len(),
{
    if s.len() == 0 || !spec_is_whitespace(s.last()) {
        s.len() as int
    } else {
        spec_trim_end(s.drop_last())
    }
}

/// The text without leading and trailing white space, what `str::trim`
/// gives.
pub open spec fn spec_trim(s: Seq<char>) -> Seq<char> {
    let e = spec_trim_end(s);
    s.subrange(0, e).subrange(spec_trim_start(s.subrange(0, e)), e)
}

proof fn lemma_trim_start_bounds(s: Seq<char>)
    ensures
        0 <= spec_trim_start(s) <= s.len(),
        forall|i: int| 0 <= i < spec_trim_start(s) ==> spec_is_whitespace(#[trigger] s[i]),
        spec_trim_start(s) < s.len() ==> !spec_is_whitespace(s[spec_trim_start(s)]),
    decreases s.len(),
{
    if s.len() > 0 && spec_is_whitespace(s[0]) {
        lemma_trim_start_bounds(s.drop_first());
        assert forall|i: int| 0 <= i < spec_trim_start(s) implies spec_is_whitespace(
            #[trigger] s[i],
        ) by {
            if i > 0 {
                assert(s[i] == s.drop_first()[i - 1]);
            }
        }
    }
}

proof fn lemma_trim_end_bounds(s: Seq<char>)
    ensures
        0 <= spec_trim_end(s) <= s.len(),
        forall|i: int| spec_trim_end(s) <= i < s.len() ==> spec_is_whitespace(#[trigger] s[i]),
        spec_trim_end(s) > 0 ==> !spec_is_whitespace(s[spec_trim_end(s) - 1]),
    decreases s.len(),
{
    if s.len() > 0 && spec_is_whitespace(s.last()) {
        lemma_trim_end_bounds(s.drop_last());
        assert forall|i: int| spec_trim_end(s) <= i < s.len() implies spec_is_whitespace(
            #[trigger] s[i],
        ) by {
            if i < s.len() - 1 {
                assert(s[i] == s.drop_last()[i]);
            }
        }
    }
}

/// Drops leading and trailing white space.
pub fn trim(s: &str) -> (r: &str)
    ensures
        r@ == spec_trim(s@),
{
    let n = s.unicode_len();
    let mut e: usize = n;
    proof {
        lemma_trim_end_bounds(s@);
    }
    while e > 0 && is_whitespace_char(s.get_char(e - 1))
        invariant
            e <= n,
            n == s@.len(),
            spec_trim_end(s@) <= e,
            forall|i: int| e <= i < n ==> spec_is_whitespace(#[trigger] s@[i]),
            0 <= spec_trim_end(s@) <= s@.len(),
            spec_trim_end(s@) > 0 ==> !spec_is_whitespace(s@[spec_trim_end(s@) - 1]),
        decreases e,
    {
        e = e - 1;
    }
    proof {
        if e > spec_trim_end(s@) {
            assert(spec_is_whitespace(s@[spec_trim_end(s@) - 1]) || spec_trim_end(s@) == 0);
        }
        assert(e == spec_trim_end(s@));
    }
    let head = s.substring_char(0, e);
    let mut b: usize = 0;
    proof {
        lemma_trim_start_bounds(head@);
    }
    while b < e && is_whitespace_char(head.get_char(b))
        invariant
            b <= e,
            e == head@.len(),
            b <= spec_trim_start(head@),
            forall|i: int| 0 <= i < b ==> spec_is_whitespace(#[trigger] head@[i]),
            0 <= spec_trim_start(head@) <= head@.len(),
            forall|i: int| 0 <= i < spec_trim_start(head@) ==> spec_is_whitespace(#[trigger] head@[i]),
            spec_trim_start(head@) < head@.len() ==> !spec_is_whitespace(head@[spec_trim_start(head@)]),
        decreases e - b,
    {
        b = b + 1;
    }
    head.substring_char(b, e)
}

/// `String::push`: appends one character.
#[verifier::external_body]
pub(crate) fn push_char(out: &mut String, c: char)
    ensures
        final(out)@ == old(out)@.push(c),
{
    out.push(c)
}

/// An ASCII decimal digit.
pub open spec fn spec_is_digit(c: char) -> bool {
    '0' <= c && c <= '9'
}

/// The decimal value of a run of digits, most significant first.
pub open spec fn spec_digits_value(s: Seq<char>) -> int
    decreases s.len(),
{
    if s.len() == 0 {
        0
    } else {
        spec_digits_value(s.drop_last()) * 10 + ((s.last() as int) - ('0' as int))
    }
}

/// The digits of a signed decimal number: the text without its one
/// leading sign, if it has one.
pub open spec fn spec_unsigned_part(s: Seq<char>) -> Seq<char> {
    if s.len() > 0 && (s[0] == '-' || s[0] == '+') {
        s.drop_first()
    } else {
        s
    }
}

/// What `i64::from_str` gives: an optional `+` or `-` followed by at least
/// one ASCII digit and nothing else, whose value fits in an `i64`.
pub open spec fn spec_parse_i64(s: Seq<char>) -> Option<i64> {
    let digits = spec_unsigned_part(s);
    let v = if s.len() > 0 && s[0] == '-' {
        -spec_digits_value(digits)
    } else {
        spec_digits_value(digits)
    };
    if digits.len() > 0 && (forall|i: int| 0 <= i < digits.len() ==> spec_is_digit(#[trigger] digits[i]))
        && i64::MIN <= v <= i64::MAX {
        Some(v as i64)
    } else {
        None
    }
}

proof fn lemma_digits_value_nonneg(s: Seq<char>)
    requires
        forall|i: int| 0 <= i < s.len() ==> spec_is_digit(#[trigger] s[i]),
    ensures
        spec_digits_value(s) >= 0,
    decreases s.len(),
{
    if s.len() > 0 {
        lemma_digits_value_nonneg(s.drop_last());
        assert(spec_is_digit(s[s.len() - 1]));
    }
}

proof fn lemma_digits_value_grows(s: Seq<char>, j: int)
    requires
        0 <= j <= s.len(),
        forall|i: int| 0 <= i < s.len() ==> spec_is_digit(#[trigger] s[i]),
    ensures
        0 <= spec_digits_value(s.take(j)) <= spec_digits_value(s),
    decreases s.len(),
{
    if s.len() > 0 {
        if j == s.len() {
            assert(s.take(j) =~= s);
            lemma_digits_value_grows(s.drop_last(), s.len() - 1);
            assert(s.drop_last().take(s.len() - 1) =~= s.drop_last());
        } else {
            lemma_digits_value_grows(s.drop_last(), j);
            assert(s.drop_last().take(j) =~= s.take(j));
            lemma_digits_value_grows(s.drop_last(), s.len() - 1);
            assert(s.drop_last().take(s.len() - 1) =~= s.drop_last());
        }
    } else {
        assert(s.take(j) =~= s);
    }
}

/// Parses a signed decimal number as `str::parse::<i64>` does.
pub fn parse_i64_text(s: &str) -> (r: Option<i64>)
    ensures
        r == spec_parse_i64(s@),
{
    let n = s.unicode_len();
    let negative = n > 0 && s.get_char(0) == '-';
    let start: usize = if n > 0 && (s.get_char(0) == '-' || s.get_char(0) == '+') {
        1
    } else {
        0
    };
    let ghost digits = spec_unsigned_part(s@);
    assert(digits =~= s@.skip(start as int));
    if start == n {
        return None;
    }
    let mut acc: i64 = 0;
    let mut i: usize = start;
    while i < n
        invariant
            n == s@.len(),
            start <= i <= n,
            start < n,
            digits == s@.skip(start as int),
            digits == spec_unsigned_part(s@),
            negative == (s@.len() > 0 && s@[0] == '-'),
            forall|k: int| 0 <= k < i - start ==> spec_is_digit(#[trigger] digits[k]),
            acc == if negative {
                -spec_digits_value(digits.take(i - start))
            } else {
                spec_digits_value(digits.take(i - start))
            },
        decreases n - i,
    {
        let c = s.get_char(i);
        assert(digits[i - start] == c);
        if !('0' <= c && c <= '9') {
            assert(!spec_is_digit(digits[i - start]));
            assert(spec_parse_i64(s@) is None);
            return None;
        }
        let d: i64 = (c as u32 - '0' as u32) as i64;
        let ghost k = (i - start) as int;
        assert(d == (c as int) - ('0' as int));
        proof {
            assert forall|q: int| 0 <= q < digits.take(k).len() implies spec_is_digit(
                #[trigger] digits.take(k)[q],
            ) by {
                assert(digits.take(k)[q] == digits[q]);
            }
            lemma_digits_value_nonneg(digits.take(k));
        }
        assert(digits.take(k + 1).drop_last() =~= digits.take(k));
        assert(digits.take(k + 1).last() == c);
        let scaled = acc.checked_mul(10);
        let next = match scaled {
            Some(m) => if negative {
                m.checked_sub(d)
            } else {
                m.checked_add(d)
            },
            None => None,
        };
        match next {
            Some(v) => {
                acc = v;
            },
            None => {
                proof {
                    let rest = digits;
                    let pv = spec_digits_value(digits.take(k + 1));
                    assert(pv == spec_digits_value(digits.take(k)) * 10 + d);
                    if negative {
                        assert(acc == -spec_digits_value(digits.take(k)));
                        assert(-pv < i64::MIN);
                    } else {
                        assert(acc == spec_digits_value(digits.take(k)));
                        assert(pv > i64::MAX);
                    }
                    if forall|q: int| 0 <= q < rest.len() ==> spec_is_digit(#[trigger] rest[q]) {
                        lemma_digits_value_grows(rest, k + 1);
                    }
                    assert(spec_parse_i64(s@) is None);
                }
                return None;
            },
        }
        i = i + 1;
    }
    assert(digits.take(n - start) =~= digits);
    Some(acc)
}

/// `a` sorts strictly before `b`: the first character where they differ is
/// smaller in `a`, or `a` is a proper prefix of `b`. This is the order of
/// `str::cmp`: comparing UTF-8 bytes orders texts as their characters.
pub open spec fn spec_text_lt(a: Seq<char>, b: Seq<char>) -> bool
    decreases a.len(),
{
    if a.len() == 0 {
        b.len() > 0
    } else if b.len() == 0 {
        false
    } else if a[0] != b[0] {
        a[0] < b[0]
    } else {
        spec_text_lt(a.drop_first(), b.drop_first())
    }
}

/// No text sorts before itself, and two texts never sort before each
/// other.
pub proof fn lemma_text_lt_asymmetric(a: Seq<char>, b: Seq<char>)
    ensures
        spec_text_lt(a, b) ==> !spec_text_lt(b, a),
    decreases a.len(),
{
    if a.len() > 0 && b.len() > 0 && a[0] == b[0] {
        lemma_text_lt_asymmetric(a.drop_first(), b.drop_first());
    }
}

/// Sorting before is transitive.
pub proof fn lemma_text_lt_transitive(a: Seq<char>, b: Seq<char>, c: Seq<char>)
    requires
        spec_text_lt(a, b),
        spec_text_lt(b, c),
    ensures
        spec_text_lt(a, c),
    decreases a.len(),
{
    if a.len() > 0 && b.len() > 0 && c.len() > 0 && a[0] == b[0] && b[0] == c[0] {
        lemma_text_lt_transitive(a.drop_first(), b.drop_first(), c.drop_first());
    }
}

/// Two different texts: one sorts before the other.
pub proof fn lemma_text_lt_total(a: Seq<char>, b: Seq<char>)
    requires
        a != b,
    ensures
        spec_text_lt(a, b) || spec_text_lt(b, a),
    decreases a.len(),
{
    if a.len() > 0 && b.len() > 0 && a[0] == b[0] {
        if a.drop_first() == b.drop_first() {
            assert(a =~= seq![a[0]] + a.drop_first());
            assert(b =~= seq![b[0]] + b.drop_first());
        }
        lemma_text_lt_total(a.drop_first(), b.drop_first());
    } else if a.len() == 0 && b.len() == 0 {
        assert(a =~= b);
    }
}

/// True when `a` sorts strictly before `b`.
pub fn text_lt(a: &str, b: &str) -> (r: bool)
    ensures
        r == spec_text_lt(a@, b@),
{
    let n = a.unicode_len();
    let m = b.unicode_len();
    let mut i: usize = 0;
    assert(a@.skip(0) =~= a@);
    assert(b@.skip(0) =~= b@);
    while i < n && i < m
        invariant
            n == a@.len(),
            m == b@.len(),
            i <= n,
            i <= m,
            spec_text_lt(a@, b@) == spec_text_lt(a@.skip(i as int), b@.skip(i as int)),
        decreases n - i,
    {
        let x = a.get_char(i);
        let y = b.get_char(i);
        if x != y {
            return x < y;
        }
        assert(a@.skip(i as int).drop_first() =~= a@.skip(i + 1));
        assert(b@.skip(i as int).drop_first() =~= b@.skip(i + 1));
        i = i + 1;
    }
    i < m
}

} // verus!
