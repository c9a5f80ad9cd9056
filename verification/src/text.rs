//! Numbers written as text: lowercase hexadecimal with a "0x" prefix, and
//! the parsing of unsigned 16-bit numbers in a given radix.
use vstd::prelude::*;
use crate::error::IntErrorKind;
use vstd::utf8::{decode_utf8, encode_scalar, is_ascii_chars, is_scalar, valid_utf8};

verus! {

/// The ASCII character of a hexadecimal digit, lowercase.
pub open spec fn hex_digit(d: nat) -> u8 {
    if d < 10 {
        (48 + d) as u8
    } else {
        (87 + d) as u8
    }
}

/// The hexadecimal digits of `n`, most significant first, without leading zeros.
pub open spec fn hex_digits(n: nat) -> Seq<u8>
    decreases n,
{
    if n < 16 {
        seq![hex_digit(n)]
    } else {
        hex_digits(n / 16).push(hex_digit(n % 16))
    }
}

/// `n` as "0x" followed by its lowercase hexadecimal digits.
pub open spec fn hex_literal(n: nat) -> Seq<u8> {
    seq![48u8, 120u8] + hex_digits(n)
}

fn push_hex_digits(out: &mut Vec<u8>, n: u32)
    ensures
        final(out)@ == old(out)@ + hex_digits(n as nat),
    decreases n,
{
    if n >= 16 {
        push_hex_digits(out, n / 16);
    }
    let d: u32 = n % 16;
    let c: u8 = if d < 10 { (48 + d) as u8 } else { (87 + d) as u8 };
    out.push(c);
    assert(final(out)@ =~= old(out)@ + hex_digits(n as nat));
}

/// Writes `n` as "0x" followed by its lowercase hexadecimal digits.
pub fn hex_literal_bytes(n: u32) -> (r: Vec<u8>)
    ensures
        r@ == hex_literal(n as nat),
{
    let mut out: Vec<u8> = Vec::new();
    out.push(48u8);
    out.push(120u8);
    push_hex_digits(&mut out, n);
    assert(out@ =~= hex_literal(n as nat));
    out
}

/// The value of a digit character in `radix`, if it is one: '0'..='9',
/// then 'a'..='z' or 'A'..='Z' for 10 and up.
pub open spec fn digit_value(c: char, radix: nat) -> Option<nat> {
    let v: int = if '0' <= c <= '9' {
        c as int - '0' as int
    } else if 'a' <= c <= 'z' {
        c as int - 'a' as int + 10
    } else if 'A' <= c <= 'Z' {
        c as int - 'A' as int + 10
    } else {
        radix as int
    };
    if 0 <= v < radix {
        Some(v as nat)
    } else {
        None
    }
}

/// Reads the digits from left to right; the first character that is not a
/// digit, or the first digit after which the value passes 65535, gives the
/// error.
pub open spec fn parse_digits(s: Seq<char>, radix: nat) -> Result<nat, IntErrorKind>
    decreases s.len(),
{
    if s.len() == 0 {
        Ok(0)
    } else {
        match parse_digits(s.drop_last(), radix) {
            Err(e) => Err(e),
            Ok(acc) => match digit_value(s.last(), radix) {
                None => Err(IntErrorKind::InvalidDigit),
                Some(x) => if acc * radix + x > 65535 {
                    Err(IntErrorKind::PosOverflow)
                } else {
                    Ok(acc * radix + x)
                },
            },
        }
    }
}

/// What std's `u16::from_str_radix` gives: an empty text is `Empty`; a lone
/// sign is `InvalidDigit`; one leading '+' is allowed; the rest must be digits.
pub open spec fn parse_u16_spec(s: Seq<char>, radix: nat) -> Result<u16, IntErrorKind> {
    if s.len() == 0 {
        Err(IntErrorKind::Empty)
    } else if s.len() == 1 && (s[0] == '+' || s[0] == '-') {
        Err(IntErrorKind::InvalidDigit)
    } else {
        let digits = if s[0] == '+' {
            s.drop_first()
        } else {
            s
        };
        match parse_digits(digits, radix) {
            Ok(v) => Ok(v as u16),
            Err(e) => Err(e),
        }
    }
}

fn char_digit(c: char, radix: u32) -> (r: Option<u32>)
    requires
        2 <= radix <= 36,
    ensures
        match digit_value(c, radix as nat) {
            Some(v) => r == Some(v as u32),
            None => r is None,
        },
{
    let v: u32 = if '0' <= c && c <= '9' {
        (c as u32) - ('0' as u32)
    } else if 'a' <= c && c <= 'z' {
        (c as u32) - ('a' as u32) + 10
    } else if 'A' <= c && c <= 'Z' {
        (c as u32) - ('A' as u32) + 10
    } else {
        radix
    };
    if v < radix {
        Some(v)
    } else {
        None
    }
}

/// Parses the characters `s[from..]` as digits in `radix`.
fn parse_digits_exec(s: &str, from: usize, radix: u32) -> (r: Result<u16, IntErrorKind>)
    requires
        2 <= radix <= 36,
        from <= s@.len(),
    ensures
        r == (match parse_digits(s@.skip(from as int), radix as nat) {
            Ok(v) => Ok(v as u16),
            Err(e) => Err::<u16, IntErrorKind>(e),
        }),
{
    let n = s.unicode_len();
    let mut acc: u32 = 0;
    let mut i: usize = from;
    let ghost digits = s@.skip(from as int);
    while i < n
        invariant
            from <= i <= n,
            n == s@.len(),
            2 <= radix <= 36,
            digits == s@.skip(from as int),
            parse_digits(digits.take(i - from), radix as nat) == Ok::<nat, IntErrorKind>(
                acc as nat,
            ),
            acc <= 65535,
        decreases n - i,
    {
        let ghost prefix = digits.take(i - from + 1);
        assert(prefix.drop_last() =~= digits.take(i - from));
        assert(prefix.last() == s@[i as int]);
        let c = s.get_char(i);
        match char_digit(c, radix) {
            None => {
                proof {
                    lemma_parse_invalid_extends(digits, (i - from) as int, radix as nat);
                }
                return Err(IntErrorKind::InvalidDigit);
            },
            Some(x) => {
                assert(acc * radix <= 65535 * 36) by (nonlinear_arith)
                    requires
                        acc <= 65535,
                        radix <= 36,
                ;
                let next: u32 = acc * radix + x;
                if next > 65535 {
                    proof {
                        lemma_parse_error_extends(digits, (i - from + 1) as int, radix as nat);
                    }
                    return Err(IntErrorKind::PosOverflow);
                }
                acc = next;
            },
        }
        i = i + 1;
    }
    assert(digits.take(i - from) =~= digits);
    Ok(acc as u16)
}

proof fn lemma_parse_invalid_extends(digits: Seq<char>, k: int, radix: nat)
    requires
        0 <= k < digits.len(),
        parse_digits(digits.take(k), radix) is Ok,
        digit_value(digits[k], radix) is None,
    ensures
        parse_digits(digits, radix) == Err::<nat, IntErrorKind>(IntErrorKind::InvalidDigit),
{
    let prefix = digits.take(k + 1);
    assert(prefix.drop_last() =~= digits.take(k));
    lemma_parse_error_extends(digits, k + 1, radix);
}

/// Once a prefix fails, the whole text fails with the same error.
proof fn lemma_parse_error_extends(digits: Seq<char>, k: int, radix: nat)
    requires
        0 <= k <= digits.len(),
        parse_digits(digits.take(k), radix) is Err,
    ensures
        parse_digits(digits, radix) == parse_digits(digits.take(k), radix),
    decreases digits.len() - k,
{
    if k == digits.len() {
        assert(digits.take(k) =~= digits);
    } else {
        let p = digits.take(k + 1);
        assert(p.drop_last() =~= digits.take(k));
        lemma_parse_error_extends(digits, k + 1, radix);
    }
}

/// Parses an unsigned 16-bit number written in `radix`, as std's
/// `u16::from_str_radix` does.
pub fn parse_u16_radix(s: &str, radix: u32) -> (r: Result<u16, IntErrorKind>)
    requires
        2 <= radix <= 36,
    ensures
        r == parse_u16_spec(s@, radix as nat),
{
    let n = s.unicode_len();
    if n == 0 {
        return Err(IntErrorKind::Empty);
    }
    let first = s.get_char(0);
    if n == 1 && (first == '+' || first == '-') {
        return Err(IntErrorKind::InvalidDigit);
    }
    if first == '+' {
        assert(s@.skip(1) =~= s@.drop_first());
        parse_digits_exec(s, 1, radix)
    } else {
        assert(s@.skip(0) =~= s@);
        parse_digits_exec(s, 0, radix)
    }
}

/// The digits that `hex_digits` writes, read as characters.
pub open spec fn hex_chars(n: nat) -> Seq<char> {
    hex_digits(n).map_values(|b: u8| b as char)
}

/// Reading back the hexadecimal digits of a 16-bit number gives the number.
pub proof fn law_hex_digits_parse_back(n: u16)
    ensures
        parse_digits(hex_chars(n as nat), 16) == Ok::<nat, IntErrorKind>(n as nat),
        parse_u16_spec(hex_chars(n as nat), 16) == Ok::<u16, IntErrorKind>(n),
{
    lemma_hex_parse(n as nat);
    lemma_hex_digits_nonempty(n as nat);
    let c = hex_chars(n as nat);
    assert(c[0] != '+' && c[0] != '-') by {
        lemma_hex_digits_are_digits(n as nat);
    }
}

proof fn lemma_hex_digits_nonempty(n: nat)
    ensures
        hex_digits(n).len() >= 1,
    decreases n,
{
    if n >= 16 {
        lemma_hex_digits_nonempty(n / 16);
    }
}

proof fn lemma_hex_digits_are_digits(n: nat)
    ensures
        forall|i: int|
            0 <= i < hex_digits(n).len() ==> (48 <= #[trigger] hex_digits(n)[i] <= 57 || 97
                <= hex_digits(n)[i] <= 102),
    decreases n,
{
    if n >= 16 {
        lemma_hex_digits_are_digits(n / 16);
        let p = hex_digits(n / 16);
        assert forall|i: int| 0 <= i < hex_digits(n).len() implies (48 <= #[trigger] hex_digits(
            n,
        )[i] <= 57 || 97 <= hex_digits(n)[i] <= 102) by {
            if i < p.len() {
                assert(hex_digits(n)[i] == p[i]);
            } else {
                assert(hex_digits(n)[i] == hex_digit(n % 16));
            }
        }
    }
}

proof fn lemma_hex_digit_value(d: nat)
    requires
        d < 16,
    ensures
        digit_value(hex_digit(d) as char, 16) == Some(d),
{
    let c = hex_digit(d) as char;
    assert(c as int == hex_digit(d) as int);
    if d < 10 {
        assert('0' <= c <= '9');
    } else {
        assert('a' <= c <= 'z');
    }
}

proof fn lemma_hex_parse(n: nat)
    requires
        n <= 65535,
    ensures
        parse_digits(hex_chars(n), 16) == Ok::<nat, IntErrorKind>(n),
    decreases n,
{
    let c = hex_chars(n);
    if n < 16 {
        assert(c.len() == 1);
        assert(c.drop_last() =~= Seq::<char>::empty());
        assert(parse_digits(c.drop_last(), 16) == Ok::<nat, IntErrorKind>(0));
        assert(c.last() == hex_digit(n) as char);
        lemma_hex_digit_value(n);
    } else {
        lemma_hex_parse(n / 16);
        lemma_hex_digits_nonempty(n);
        assert(c.drop_last() =~= hex_chars(n / 16));
        assert(parse_digits(c.drop_last(), 16) == Ok::<nat, IntErrorKind>(n / 16));
        assert(c.last() == hex_digit(n % 16) as char);
        lemma_hex_digit_value(n % 16);
        assert((n / 16) * 16 + n % 16 == n);
    }
}


// ------------------------------------------------------------------------
// Text helpers
// ------------------------------------------------------------------------

/// Whether `s` begins with `p`.
pub open spec fn starts_with(s: Seq<char>, p: Seq<char>) -> bool {
    p.len() <= s.len() && s.subrange(0, p.len() as int) == p
}

/// Whether `s` begins with `p`.
pub fn has_prefix(s: &str, p: &str) -> (r: bool)
    ensures
        r == starts_with(s@, p@),
{
    let n = s.unicode_len();
    let m = p.unicode_len();
    if m > n {
        return false;
    }
    let mut i: usize = 0;
    while i < m
        invariant
            i <= m <= n,
            n == s@.len(),
            m == p@.len(),
            forall|j: int| 0 <= j < i ==> s@[j] == p@[j],
        decreases m - i,
    {
        if s.get_char(i) != p.get_char(i) {
            assert(s@.subrange(0, m as int)[i as int] != p@[i as int]);
            return false;
        }
        i = i + 1;
    }
    assert(s@.subrange(0, m as int) =~= p@);
    true
}

/// The index of the first `c` in `s`, if any.
pub fn find_char(s: &str, c: char) -> (r: Option<usize>)
    ensures
        match r {
            Some(i) => i < s@.len() && s@[i as int] == c && forall|j: int|
                0 <= j < i ==> s@[j] != c,
            None => forall|j: int| 0 <= j < s@.len() ==> s@[j] != c,
        },
{
    let n = s.unicode_len();
    let mut i: usize = 0;
    while i < n
        invariant
            i <= n,
            n == s@.len(),
            forall|j: int| 0 <= j < i ==> s@[j] != c,
        decreases n - i,
    {
        if s.get_char(i) == c {
            return Some(i);
        }
        i = i + 1;
    }
    None
}

/// `c` with 'A'..='Z' mapped to 'a'..='z'.
pub open spec fn ascii_lower(c: char) -> char {
    if 'A' <= c <= 'Z' {
        ((c as u32) + 32) as char
    } else {
        c
    }
}

/// `s` with 'A'..='Z' mapped to 'a'..='z', as `to_ascii_lowercase` does.
pub open spec fn lower_seq(s: Seq<char>) -> Seq<char> {
    s.map_values(|c: char| ascii_lower(c))
}

fn ascii_lower_code(c: char) -> (r: u32)
    ensures
        r == ascii_lower(c) as u32,
{
    let v: u32 = c as u32;
    if 65 <= v && v <= 90 {
        v + 32
    } else {
        v
    }
}

/// Whether `needle` occurs in `hay` at index `i`.
pub open spec fn occurs_at(hay: Seq<char>, needle: Seq<char>, i: int) -> bool {
    0 <= i && i + needle.len() <= hay.len() && hay.subrange(i, i + needle.len()) == needle
}

/// Whether `needle` occurs in `hay`.
pub open spec fn contains_seq(hay: Seq<char>, needle: Seq<char>) -> bool {
    exists|i: int| occurs_at(hay, needle, i)
}

/// Whether `s`, lowered, begins with `p`.
pub fn lower_has_prefix(s: &str, p: &str) -> (r: bool)
    ensures
        r == starts_with(lower_seq(s@), p@),
{
    let n = s.unicode_len();
    let m = p.unicode_len();
    if m > n {
        return false;
    }
    let mut i: usize = 0;
    while i < m
        invariant
            i <= m <= n,
            n == s@.len(),
            m == p@.len(),
            forall|j: int| 0 <= j < i ==> lower_seq(s@)[j] == p@[j],
        decreases m - i,
    {
        let a = ascii_lower_code(s.get_char(i));
        let b = p.get_char(i) as u32;
        if a != b {
            assert(lower_seq(s@).subrange(0, m as int)[i as int] != p@[i as int]);
            return false;
        }
        i = i + 1;
    }
    assert(lower_seq(s@).subrange(0, m as int) =~= p@);
    true
}

/// Whether `needle` occurs in `hay`, both lowered.
pub fn lower_contains(hay: &str, needle: &str) -> (r: bool)
    ensures
        r == contains_seq(lower_seq(hay@), lower_seq(needle@)),
{
    let n = hay.unicode_len();
    let m = needle.unicode_len();
    let ghost h = lower_seq(hay@);
    let ghost k = lower_seq(needle@);
    if m > n {
        assert forall|i: int| !occurs_at(h, k, i) by {}
        return false;
    }
    if m == 0 {
        assert(h.subrange(0, 0) =~= k);
        assert(occurs_at(h, k, 0));
        return true;
    }
    let mut i: usize = 0;
    while i <= n - m
        invariant
            1 <= m <= n,
            n == hay@.len(),
            m == needle@.len(),
            h == lower_seq(hay@),
            k == lower_seq(needle@),
            i <= n - m + 1,
            forall|j: int| 0 <= j < i ==> !occurs_at(h, k, j),
        decreases n - m + 1 - i,
    {
        let mut t: usize = 0;
        let mut same = true;
        while t < m
            invariant
                t <= m,
                i + m <= n,
                n == hay@.len(),
                m == needle@.len(),
                h == lower_seq(hay@),
                k == lower_seq(needle@),
                same ==> forall|u: int| 0 <= u < t ==> h[i + u] == k[u],
                !same ==> !occurs_at(h, k, i as int),
            decreases m - t,
        {
            if same {
                let a = ascii_lower_code(hay.get_char(i + t));
                let b = ascii_lower_code(needle.get_char(t));
                if a != b {
                    assert(h.subrange(i as int, i + m)[t as int] != k[t as int]);
                    same = false;
                }
            }
            t = t + 1;
        }
        if same {
            assert(h.subrange(i as int, i + m) =~= k);
            assert(occurs_at(h, k, i as int));
            return true;
        }
        i = i + 1;
    }
    assert forall|j: int| !occurs_at(h, k, j) by {
        if 0 <= j && j + k.len() <= h.len() {
            assert(j < i);
        }
    }
    false
}


// ------------------------------------------------------------------------
// Calls into std
// ------------------------------------------------------------------------

/// What std's `str::to_uppercase` gives: the Unicode uppercase mapping of
/// each character, which may change the number of characters.
pub uninterp spec fn unicode_uppercase(s: Seq<char>) -> Seq<char>;

/// What std's `char::is_numeric` gives: whether the character is in one of
/// Unicode's number categories.
pub uninterp spec fn unicode_numeric(c: char) -> bool;

/// `c` with 'a'..='z' mapped to 'A'..='Z'.
pub open spec fn ascii_upper(c: char) -> char {
    if 'a' <= c <= 'z' {
        ((c as u32) - 32) as char
    } else {
        c
    }
}

/// `p` is a proper prefix of the UTF-8 encoding of some Unicode scalar
/// value: bytes that can still begin a character.
pub open spec fn starts_scalar(p: Seq<u8>) -> bool {
    exists|c: u32|
        is_scalar(c) && p.len() < encode_scalar(c).len() && #[trigger] encode_scalar(c).subrange(
            0,
            p.len() as int,
        ) == p
}

/// What std's `Utf8Error::error_len` gives when the first `k` bytes of `v`
/// are its longest valid prefix: `None` where the bytes after them are an
/// unfinished character (the input ended inside it); otherwise the length
/// of the longest start of a character there, and at least 1.
pub open spec fn utf8_error_len_after(v: Seq<u8>, k: int) -> Option<usize> {
    let rest = v.skip(k);
    if starts_scalar(rest) {
        None
    } else if rest.len() >= 3 && starts_scalar(rest.take(3)) {
        Some(3)
    } else if rest.len() >= 2 && starts_scalar(rest.take(2)) {
        Some(2)
    } else {
        Some(1)
    }
}

/// `k` is the length of the longest prefix of `v` that is valid UTF-8.
pub open spec fn is_valid_up_to(v: Seq<u8>, k: int) -> bool {
    &&& 0 <= k <= v.len()
    &&& valid_utf8(v.subrange(0, k))
    &&& forall|j: int| k < j <= v.len() ==> !valid_utf8(#[trigger] v.subrange(0, j))
}

/// The length of the longest prefix of `v` that is valid UTF-8.
pub open spec fn utf8_valid_up_to(v: Seq<u8>) -> int {
    choose|k: int| is_valid_up_to(v, k)
}

/// There is one longest valid prefix.
pub proof fn lemma_valid_up_to_unique(v: Seq<u8>, k: int)
    requires
        is_valid_up_to(v, k),
    ensures
        utf8_valid_up_to(v) == k,
{
    let c = utf8_valid_up_to(v);
    assert(is_valid_up_to(v, c));
    if c < k {
        assert(!valid_utf8(v.subrange(0, k)));
    }
    if k < c {
        assert(!valid_utf8(v.subrange(0, c)));
    }
}

/// std's `str::from_utf8`: the text that the bytes encode, if they are
/// valid UTF-8, else the two details of its `Utf8Error` (`valid_up_to`,
/// `error_len`). The contract claims that it accepts exactly the sequences
/// that vstd's `valid_utf8` describes and decodes them as `decode_utf8`
/// does, that `valid_up_to` is the length of the longest valid prefix, as
/// std documents it, and that `error_len` is `None` exactly where the input
/// ends inside a character, else the length of the invalid sequence that
/// follows: the longest start of a character there, at least one byte.
#[verifier::external_body]
pub(crate) fn str_from_utf8(v: &[u8]) -> (r: Result<&str, (usize, Option<usize>)>)
    ensures
        r is Ok <==> valid_utf8(v@),
        r matches Ok(s) ==> s@ == decode_utf8(v@),
        r matches Err((up_to, len)) ==> is_valid_up_to(v@, up_to as int) && len
            == utf8_error_len_after(v@, up_to as int),
{
    match std::str::from_utf8(v) {
        Ok(s) => Ok(s),
        Err(e) => Err((e.valid_up_to(), e.error_len())),
    }
}

/// std's `str::to_uppercase`. The contract names the result and claims only
/// what the documentation shows for ASCII text: letters 'a'..='z' become
/// 'A'..='Z' and every other character stays.
#[verifier::external_body]
pub(crate) fn str_to_uppercase(s: &str) -> (r: String)
    ensures
        r@ == unicode_uppercase(s@),
        is_ascii_chars(s@) ==> r@ == s@.map_values(|c: char| ascii_upper(c)),
{
    s.to_uppercase()
}

/// std's `char::is_numeric`. The contract names the result and claims that
/// among the ASCII characters exactly the digits '0'..='9' are numeric.
#[verifier::external_body]
pub(crate) fn char_is_numeric(c: char) -> (r: bool)
    ensures
        r == unicode_numeric(c),
        (c as u32) < 128 ==> (r <==> ('0' <= c <= '9')),
{
    c.is_numeric()
}

} // verus!
