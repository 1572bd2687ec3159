//! Character and byte helpers used throughout the library.
use vstd::prelude::*;
use vstd::utf8::*;

verus! {

/// The decimal digit `d` (0 to 9) as a character.
pub open spec fn digit_char(d: int) -> char {
    (d + 48) as char
}

/// Decimal digits of a natural number, most significant first, no leading zeros.
pub open spec fn decimal_digits(n: nat) -> Seq<char>
    decreases n,
{
    if n < 10 {
        seq![digit_char(n as int)]
    } else {
        decimal_digits(n / 10).push(digit_char((n % 10) as int))
    }
}

/// Decimal text of an integer, with a leading `-` for negative values.
pub open spec fn decimal(n: int) -> Seq<char> {
    if n < 0 {
        seq!['-'] + decimal_digits((-n) as nat)
    } else {
        decimal_digits(n as nat)
    }
}

/// Appends one character to a string (`String::push`).
#[verifier::external_body]
pub(crate) fn push_char(s: &mut String, c: char)
    ensures
        final(s)@ == old(s)@.push(c),
{
    s.push(c)
}

fn push_decimal_digits(out: &mut String, n: u64)
    ensures
        final(out)@ == old(out)@ + decimal_digits(n as nat),
    decreases n,
{
    if n >= 10 {
        push_decimal_digits(out, n / 10);
    }
    let d: u8 = (n % 10) as u8;
    push_char(out, (d + 48) as char);
    proof {
        assert(old(out)@ + decimal_digits(n as nat) =~= final(out)@) by {
            if n >= 10 {
                assert(decimal_digits(n as nat) == decimal_digits((n / 10) as nat).push(digit_char((n % 10) as int)));
            }
        }
    }
}

/// Decimal text of an unsigned integer.
pub fn uint_text(n: u64) -> (r: String)
    ensures
        r@ == decimal(n as int),
{
    let mut out = String::new();
    push_decimal_digits(&mut out, n);
    assert(out@ =~= decimal_digits(n as nat));
    out
}

/// Decimal text of a signed integer.
pub fn int_text(n: i64) -> (r: String)
    ensures
        r@ == decimal(n as int),
{
    let mut out = String::new();
    if n < 0 {
        push_char(&mut out, '-');
        let magnitude: u64 = ((-(n + 1)) as u64) + 1;
        push_decimal_digits(&mut out, magnitude);
    } else {
        push_decimal_digits(&mut out, n as u64);
    }
    out
}


/// True when the UTF-8 encoding of `s` holds a zero byte.
pub open spec fn has_zero_byte(s: Seq<char>) -> bool {
    exists|i: int| 0 <= i < encode_utf8(s).len() && encode_utf8(s)[i] == 0
}

/// Byte position of the first zero byte in the UTF-8 encoding of `s`, if any.
pub open spec fn first_zero_byte(s: Seq<char>) -> Option<int> {
    if has_zero_byte(s) {
        Some(
            choose|i: int|
                0 <= i < encode_utf8(s).len() && encode_utf8(s)[i] == 0 && forall|j: int|
                    0 <= j < i ==> encode_utf8(s)[j] != 0,
        )
    } else {
        None
    }
}

/// Finds the first zero byte in the UTF-8 encoding of a string: the byte that
/// makes a string unusable as a C string.
pub fn find_zero_byte(s: &str) -> (r: Option<usize>)
    ensures
        r matches Some(p) ==> first_zero_byte(s@) == Some(p as int),
        r is None <==> !has_zero_byte(s@),
{
    let bytes = s.as_bytes();
    let mut i: usize = 0;
    while i < bytes.len()
        invariant
            bytes@ == encode_utf8(s@),
            i <= bytes@.len(),
            forall|j: int| 0 <= j < i ==> bytes@[j] != 0,
        decreases bytes@.len() - i,
    {
        if bytes[i] == 0 {
            proof {
                let w = choose|k: int|
                    0 <= k < encode_utf8(s@).len() && encode_utf8(s@)[k] == 0 && forall|j: int|
                        0 <= j < k ==> encode_utf8(s@)[j] != 0;
                assert(0 <= i < encode_utf8(s@).len() && encode_utf8(s@)[i as int] == 0
                    && forall|j: int| 0 <= j < i ==> encode_utf8(s@)[j] != 0);
                if w < i {
                    assert(bytes@[w] != 0);
                }
                if w > i {
                    assert(encode_utf8(s@)[i as int] != 0);
                }
            }
            return Some(i);
        }
        i += 1;
    }
    None
}

/// Compares two strings character by character.
pub fn same_text(a: &str, b: &str) -> (r: bool)
    ensures
        r == (a@ == b@),
{
    let n = a.unicode_len();
    if n != b.unicode_len() {
        return false;
    }
    let mut i: usize = 0;
    while i < n
        invariant
            n == a@.len() == b@.len(),
            i <= n,
            forall|j: int| 0 <= j < i ==> a@[j] == b@[j],
        decreases n - i,
    {
        if a.get_char(i) != b.get_char(i) {
            return false;
        }
        i += 1;
    }
    assert(a@ =~= b@);
    true
}

/// True when `p` is a prefix of `s`.
pub open spec fn is_prefix(p: Seq<char>, s: Seq<char>) -> bool {
    p.len() <= s.len() && s.subrange(0, p.len() as int) == p
}

/// True when `p` is a suffix of `s`.
pub open spec fn is_suffix(p: Seq<char>, s: Seq<char>) -> bool {
    p.len() <= s.len() && s.subrange(s.len() - p.len(), s.len() as int) == p
}

/// Whether a string starts with a prefix.
pub fn starts_with(s: &str, p: &str) -> (r: bool)
    ensures
        r == is_prefix(p@, s@),
{
    let n = s.unicode_len();
    let m = p.unicode_len();
    if m > n {
        return false;
    }
    same_text(s.substring_char(0, m), p)
}

/// Whether a string ends with a suffix.
pub fn ends_with(s: &str, p: &str) -> (r: bool)
    ensures
        r == is_suffix(p@, s@),
{
    let n = s.unicode_len();
    let m = p.unicode_len();
    if m > n {
        return false;
    }
    same_text(s.substring_char(n - m, n), p)
}

/// `s` with every leading `"` removed.
pub open spec fn strip_leading_quotes(s: Seq<char>) -> Seq<char>
    decreases s.len(),
{
    if s.len() > 0 && s[0] == '"' {
        strip_leading_quotes(s.drop_first())
    } else {
        s
    }
}

/// `s` with every trailing `"` removed.
pub open spec fn strip_trailing_quotes(s: Seq<char>) -> Seq<char>
    decreases s.len(),
{
    if s.len() > 0 && s.last() == '"' {
        strip_trailing_quotes(s.drop_last())
    } else {
        s
    }
}

/// `s` with the double quotes at both of its ends removed, as
/// `str::trim_matches('"')` gives it.
pub open spec fn trim_quotes(s: Seq<char>) -> Seq<char> {
    strip_trailing_quotes(strip_leading_quotes(s))
}

proof fn lemma_strip_leading_quotes(s: Seq<char>)
    ensures
        strip_leading_quotes(s).len() == 0 || strip_leading_quotes(s)[0] != '"',
    decreases s.len(),
{
    if s.len() > 0 && s[0] == '"' {
        lemma_strip_leading_quotes(s.drop_first());
    }
}

proof fn lemma_strip_trailing_quotes(t: Seq<char>)
    requires
        t.len() == 0 || t[0] != '"',
    ensures
        strip_trailing_quotes(t).len() == 0 || (strip_trailing_quotes(t)[0] != '"'
            && strip_trailing_quotes(t).last() != '"'),
    decreases t.len(),
{
    if t.len() > 0 && t.last() == '"' {
        assert(t.len() >= 2);
        assert(t.drop_last()[0] == t[0]);
        lemma_strip_trailing_quotes(t.drop_last());
    }
}

/// Trimming the quotes off a text a second time changes nothing.
pub proof fn law_trim_quotes_idempotent(s: Seq<char>)
    ensures
        trim_quotes(trim_quotes(s)) == trim_quotes(s),
{
    lemma_strip_leading_quotes(s);
    lemma_strip_trailing_quotes(strip_leading_quotes(s));
}

/// Removes all double quotes at the start and at the end of a string.
pub fn trim_quote_chars(s: &str) -> (r: String)
    ensures
        r@ == trim_quotes(s@),
{
    let n = s.unicode_len();
    let mut i: usize = 0;
    assert(s@.subrange(0, n as int) =~= s@);
    while i < n && s.get_char(i) == '"'
        invariant
            n == s@.len(),
            i <= n,
            strip_leading_quotes(s@) == strip_leading_quotes(s@.subrange(i as int, n as int)),
        decreases n - i,
    {
        proof {
            let t = s@.subrange(i as int, n as int);
            assert(t.drop_first() =~= s@.subrange(i + 1, n as int));
        }
        i += 1;
    }
    proof {
        assert(strip_leading_quotes(s@) == s@.subrange(i as int, n as int));
    }
    let mut j: usize = n;
    while j > i && s.get_char(j - 1) == '"'
        invariant
            n == s@.len(),
            i <= j <= n,
            trim_quotes(s@) == strip_trailing_quotes(s@.subrange(i as int, j as int)),
        decreases j,
    {
        proof {
            let t = s@.subrange(i as int, j as int);
            assert(t.drop_last() =~= s@.subrange(i as int, j - 1));
        }
        j -= 1;
    }
    let part = s.substring_char(i, j);
    part.to_string()
}


/// Checks that bytes are UTF-8 and views them as text (`std::str::from_utf8`).
/// Claimed: the result is present exactly when the bytes are well-formed
/// UTF-8, and then it holds the characters those bytes encode.
#[verifier::external_body]
pub(crate) fn utf8_text(bytes: &[u8]) -> (r: Option<&str>)
    ensures
        r is Some <==> valid_utf8(bytes@),
        r matches Some(t) ==> t@ == decode_utf8(bytes@),
{
    std::str::from_utf8(bytes).ok()
}

/// What `String::from_utf8_lossy` makes of a byte sequence.
pub uninterp spec fn lossy_utf8(bytes: Seq<u8>) -> Seq<char>;

/// Decodes bytes as UTF-8, replacing ill-formed sequences
/// (`String::from_utf8_lossy`). Claimed: the result is the named
/// `lossy_utf8` of the bytes, and for well-formed UTF-8 it is exactly the
/// characters the bytes encode.
#[verifier::external_body]
pub(crate) fn utf8_lossy(bytes: &[u8]) -> (r: String)
    ensures
        r@ == lossy_utf8(bytes@),
        valid_utf8(bytes@) ==> r@ == decode_utf8(bytes@),
{
    String::from_utf8_lossy(bytes).into_owned()
}

} // verus!
