//! Verified text utilities: comparisons, searching, line splitting, decimal
//! numbers and path-like string manipulation, specified over `Seq<char>`
//! views of `String` / `&str`.
use vstd::prelude::*;

verus! {

// ---------------------------------------------------------------------------
// Character helpers
// ---------------------------------------------------------------------------

/// ASCII lower-casing of one character: `'A'..='Z'` map to `'a'..='z'`,
/// every other character is unchanged.
pub open spec fn lower_char(c: char) -> char {
    if 'A' <= c && c <= 'Z' {
        (((c as u32) + 32) as u8) as char
    } else {
        c
    }
}

/// ASCII lower-casing of a whole character sequence.
pub open spec fn lower_seq(s: Seq<char>) -> Seq<char> {
    s.map_values(|c: char| lower_char(c))
}

/// ASCII whitespace, the characters stripped by [`trim_ascii`].
pub open spec fn is_ascii_space(c: char) -> bool {
    c == ' ' || c == '\t' || c == '\n' || c == '\r' || c == '\u{b}' || c == '\u{c}'
}

/// Decimal digit characters.
pub open spec fn is_digit(c: char) -> bool {
    '0' <= c && c <= '9'
}

/// The numeric value of a decimal digit character.
pub open spec fn digit_val(c: char) -> int {
    c as u32 - 48
}

/// The character of one decimal digit value.
pub open spec fn digit_char(d: int) -> char {
    ((48 + d) as u8) as char
}

/// Relies on char::to_ascii_lowercase: ASCII upper-case letters map to their
/// lower-case equivalents, all other characters are returned unchanged.
#[verifier::external_body]
pub(crate) fn char_to_lower(c: char) -> (r: char)
    ensures
        r == lower_char(c),
{
    c.to_ascii_lowercase()
}

/// Relies on String::push: appends exactly one character at the end.
#[verifier::external_body]
pub(crate) fn push_char(s: &mut String, c: char)
    ensures
        final(s)@ == old(s)@.push(c),
{
    s.push(c);
}

// ---------------------------------------------------------------------------
// Equality, prefixes, suffixes, search
// ---------------------------------------------------------------------------

/// `p` is a prefix of `s`.
pub open spec fn is_prefix(p: Seq<char>, s: Seq<char>) -> bool {
    p.len() <= s.len() && s.subrange(0, p.len() as int) == p
}

/// `p` is a suffix of `s`.
pub open spec fn is_suffix(p: Seq<char>, s: Seq<char>) -> bool {
    p.len() <= s.len() && s.subrange(s.len() - p.len(), s.len() as int) == p
}

/// `n` occurs in `h` starting at position `i`.
pub open spec fn occurs_at(h: Seq<char>, n: Seq<char>, i: int) -> bool {
    0 <= i && i + n.len() <= h.len() && h.subrange(i, i + n.len()) == n
}

/// `n` occurs somewhere in `h`.
pub open spec fn contains_seq(h: Seq<char>, n: Seq<char>) -> bool {
    exists|i: int| occurs_at(h, n, i)
}

/// Character-for-character equality of two string slices.
pub fn str_eq(a: &str, b: &str) -> (r: bool)
    ensures
        r == (a@ == b@),
{
    let alen = a.unicode_len();
    let blen = b.unicode_len();
    if alen != blen {
        assert(a@ != b@) by {
            assert(a@.len() != b@.len());
        }
        return false;
    }
    let mut i: usize = 0;
    while i < alen
        invariant
            alen == a@.len(),
            alen == b@.len(),
            0 <= i <= alen,
            forall|j: int| 0 <= j < i ==> a@[j] == b@[j],
        decreases alen - i,
    {
        if a.get_char(i) != b.get_char(i) {
            assert(a@ != b@);
            return false;
        }
        i = i + 1;
    }
    proof {
        assert(a@ =~= b@);
    }
    true
}

/// Whether `p` is a prefix of `s`.
pub fn starts_with(s: &str, p: &str) -> (r: bool)
    ensures
        r == is_prefix(p@, s@),
{
    let slen = s.unicode_len();
    let plen = p.unicode_len();
    if plen > slen {
        return false;
    }
    let mut i: usize = 0;
    while i < plen
        invariant
            slen == s@.len(),
            plen == p@.len(),
            plen <= slen,
            0 <= i <= plen,
            forall|j: int| 0 <= j < i ==> s@[j] == p@[j],
        decreases plen - i,
    {
        if s.get_char(i) != p.get_char(i) {
            assert(!is_prefix(p@, s@)) by {
                assert(s@.subrange(0, p@.len() as int)[i as int] == s@[i as int]);
            }
            return false;
        }
        i = i + 1;
    }
    proof {
        assert(s@.subrange(0, p@.len() as int) =~= p@);
    }
    true
}

/// Whether `p` is a suffix of `s`.
pub fn ends_with(s: &str, p: &str) -> (r: bool)
    ensures
        r == is_suffix(p@, s@),
{
    let slen = s.unicode_len();
    let plen = p.unicode_len();
    if plen > slen {
        return false;
    }
    let off: usize = slen - plen;
    let mut i: usize = 0;
    while i < plen
        invariant
            slen == s@.len(),
            plen == p@.len(),
            plen <= slen,
            off == slen - plen,
            0 <= i <= plen,
            forall|j: int| 0 <= j < i ==> s@[off + j] == p@[j],
        decreases plen - i,
    {
        if s.get_char(off + i) != p.get_char(i) {
            assert(!is_suffix(p@, s@)) by {
                assert(s@.subrange(s@.len() - p@.len(), s@.len() as int)[i as int] == s@[off
                    + i]);
            }
            return false;
        }
        i = i + 1;
    }
    proof {
        assert(s@.subrange(s@.len() - p@.len(), s@.len() as int) =~= p@);
    }
    true
}

/// Whether `n` occurs anywhere in `h`.
pub fn contains(h: &str, n: &str) -> (r: bool)
    ensures
        r == contains_seq(h@, n@),
{
    let hlen = h.unicode_len();
    let nlen = n.unicode_len();
    if nlen > hlen {
        assert(!contains_seq(h@, n@));
        return false;
    }
    if nlen == 0 {
        assert(occurs_at(h@, n@, 0)) by {
            assert(h@.subrange(0, 0) =~= n@);
        }
        return true;
    }
    let mut i: usize = 0;
    while i <= hlen - nlen
        invariant
            hlen == h@.len(),
            nlen == n@.len(),
            0 < nlen <= hlen,
            0 <= i <= hlen - nlen + 1,
            forall|k: int| 0 <= k < i ==> !occurs_at(h@, n@, k),
        decreases hlen + 1 - nlen - i,
    {
        let mut j: usize = 0;
        let mut found: bool = true;
        while j < nlen
            invariant
                hlen == h@.len(),
                nlen == n@.len(),
                i + nlen <= hlen,
                0 <= j <= nlen,
                found ==> forall|k: int| 0 <= k < j ==> h@[i + k] == n@[k],
                !found ==> !occurs_at(h@, n@, i as int),
            decreases nlen - j,
        {
            if h.get_char(i + j) != n.get_char(j) {
                assert(!occurs_at(h@, n@, i as int)) by {
                    assert(h@.subrange(i as int, i + n@.len())[j as int] == h@[i + j]);
                }
                found = false;
                j = nlen;
            } else {
                j = j + 1;
            }
        }
        if found {
            assert(occurs_at(h@, n@, i as int)) by {
                assert(h@.subrange(i as int, i + n@.len()) =~= n@);
            }
            return true;
        }
        i = i + 1;
    }
    assert(forall|k: int| occurs_at(h@, n@, k) ==> 0 <= k <= hlen - nlen);
    false
}

// ---------------------------------------------------------------------------
// Lexicographic order on character sequences
// ---------------------------------------------------------------------------

/// Lexicographic order by character code point; on valid strings this agrees
/// with the byte-wise order that `str` comparison uses.
pub open spec fn lex_le(a: Seq<char>, b: Seq<char>) -> bool
    decreases a.len(),
{
    if a.len() == 0 {
        true
    } else if b.len() == 0 {
        false
    } else if a[0] < b[0] {
        true
    } else if a[0] > b[0] {
        false
    } else {
        lex_le(a.skip(1), b.skip(1))
    }
}

/// `lex_le` relates every sequence to itself.
pub proof fn lemma_lex_le_refl(a: Seq<char>)
    ensures
        lex_le(a, a),
    decreases a.len(),
{
    if a.len() > 0 {
        lemma_lex_le_refl(a.skip(1));
    }
}

/// `lex_le` relates every pair of sequences one way or the other.
pub proof fn lemma_lex_le_total(a: Seq<char>, b: Seq<char>)
    ensures
        lex_le(a, b) || lex_le(b, a),
    decreases a.len(),
{
    if a.len() == 0 || b.len() == 0 {
    } else if a[0] == b[0] {
        lemma_lex_le_total(a.skip(1), b.skip(1));
    }
}

/// `lex_le` holds both ways only between equal sequences.
pub proof fn lemma_lex_le_antisymm(a: Seq<char>, b: Seq<char>)
    requires
        lex_le(a, b),
        lex_le(b, a),
    ensures
        a =~= b,
    decreases a.len(),
{
    if a.len() == 0 {
        assert(b.len() == 0);
    } else {
        assert(b.len() > 0);
        assert(a[0] == b[0]);
        lemma_lex_le_antisymm(a.skip(1), b.skip(1));
        assert(a =~= seq![a[0]] + a.skip(1));
        assert(b =~= seq![b[0]] + b.skip(1));
    }
}

/// `lex_le` is transitive.
pub proof fn lemma_lex_le_trans(a: Seq<char>, b: Seq<char>, c: Seq<char>)
    requires
        lex_le(a, b),
        lex_le(b, c),
    ensures
        lex_le(a, c),
    decreases a.len(),
{
    if a.len() == 0 || b.len() == 0 || c.len() == 0 {
    } else if a[0] == b[0] && b[0] == c[0] {
        lemma_lex_le_trans(a.skip(1), b.skip(1), c.skip(1));
    }
}

/// Whether `a` is lexicographically at most `b`.
pub fn str_le(a: &str, b: &str) -> (r: bool)
    ensures
        r == lex_le(a@, b@),
{
    let alen = a.unicode_len();
    let blen = b.unicode_len();
    let mut i: usize = 0;
    proof {
        assert(a@.skip(0) =~= a@);
        assert(b@.skip(0) =~= b@);
    }
    loop
        invariant
            alen == a@.len(),
            blen == b@.len(),
            0 <= i <= alen,
            i <= blen,
            lex_le(a@, b@) == lex_le(a@.skip(i as int), b@.skip(i as int)),
        decreases alen - i,
    {
        if i >= alen {
            assert(a@.skip(i as int).len() == 0);
            return true;
        }
        if i >= blen {
            assert(b@.skip(i as int).len() == 0);
            assert(a@.skip(i as int).len() > 0);
            return false;
        }
        let ca = a.get_char(i);
        let cb = b.get_char(i);
        assert(a@.skip(i as int)[0] == ca);
        assert(b@.skip(i as int)[0] == cb);
        if ca < cb {
            return true;
        }
        if ca > cb {
            return false;
        }
        proof {
            assert(a@.skip(i as int).skip(1) =~= a@.skip(i + 1));
            assert(b@.skip(i as int).skip(1) =~= b@.skip(i + 1));
        }
        i = i + 1;
    }
}

// ---------------------------------------------------------------------------
// Trimming
// ---------------------------------------------------------------------------

/// The number of leading ASCII whitespace characters.
pub open spec fn leading_spaces(s: Seq<char>) -> int
    decreases s.len(),
{
    if s.len() == 0 {
        0
    } else if is_ascii_space(s[0]) {
        1 + leading_spaces(s.skip(1))
    } else {
        0
    }
}

/// The number of trailing ASCII whitespace characters.
pub open spec fn trailing_spaces(s: Seq<char>) -> int
    decreases s.len(),
{
    if s.len() == 0 {
        0
    } else if is_ascii_space(s[s.len() - 1]) {
        1 + trailing_spaces(s.take(s.len() - 1))
    } else {
        0
    }
}

/// `s` with leading and trailing ASCII whitespace removed.
pub open spec fn trim_spec(s: Seq<char>) -> Seq<char> {
    if leading_spaces(s) == s.len() {
        Seq::empty()
    } else {
        s.subrange(leading_spaces(s), s.len() - trailing_spaces(s))
    }
}

proof fn lemma_leading_spaces_at(s: Seq<char>, i: int)
    requires
        0 <= i <= s.len(),
        forall|j: int| 0 <= j < i ==> is_ascii_space(s[j]),
        i == s.len() || !is_ascii_space(s[i]),
    ensures
        leading_spaces(s) == i,
    decreases i,
{
    if i == 0 {
    } else {
        lemma_leading_spaces_at(s.skip(1), i - 1);
    }
}

proof fn lemma_trailing_spaces_at(s: Seq<char>, i: int)
    requires
        0 <= i <= s.len(),
        forall|j: int| i <= j < s.len() ==> is_ascii_space(s[j]),
        i == 0 || !is_ascii_space(s[i - 1]),
    ensures
        trailing_spaces(s) == s.len() - i,
    decreases s.len() - i,
{
    if i == s.len() {
    } else {
        lemma_trailing_spaces_at(s.take(s.len() - 1), i);
    }
}

/// Whether one character is ASCII whitespace.
pub fn is_space_char(c: char) -> (r: bool)
    ensures
        r == is_ascii_space(c),
{
    c == ' ' || c == '\t' || c == '\n' || c == '\r' || c == '\u{b}' || c == '\u{c}'
}

/// `s` with leading and trailing ASCII whitespace removed.
pub fn trim_ascii<'a>(s: &'a str) -> (r: &'a str)
    ensures
        r@ == trim_spec(s@),
{
    let len = s.unicode_len();
    let mut a: usize = 0;
    while a < len && is_space_char(s.get_char(a))
        invariant
            len == s@.len(),
            0 <= a <= len,
            forall|j: int| 0 <= j < a ==> is_ascii_space(s@[j]),
        decreases len - a,
    {
        a = a + 1;
    }
    proof {
        lemma_leading_spaces_at(s@, a as int);
    }
    if a == len {
        let r = s.substring_char(len, len);
        assert(r@ =~= trim_spec(s@));
        return r;
    }
    let mut b: usize = len;
    while b > a && is_space_char(s.get_char(b - 1))
        invariant
            len == s@.len(),
            a <= b <= len,
            a < len,
            !is_ascii_space(s@[a as int]),
            forall|j: int| b <= j < len ==> is_ascii_space(s@[j]),
        decreases b,
    {
        b = b - 1;
    }
    proof {
        if b == a {
            assert(!is_ascii_space(s@[b as int]));
        }
        lemma_trailing_spaces_at(s@, b as int);
    }
    s.substring_char(a, b)
}

// ---------------------------------------------------------------------------
// Decimal numbers
// ---------------------------------------------------------------------------

/// Every character is a decimal digit.
pub open spec fn all_digits(s: Seq<char>) -> bool {
    forall|i: int| 0 <= i < s.len() ==> is_digit(s[i])
}

/// The value of a decimal digit string, most significant digit first.
pub open spec fn dec_val(s: Seq<char>) -> int
    decreases s.len(),
{
    if s.len() == 0 {
        0
    } else {
        dec_val(s.take(s.len() - 1)) * 10 + digit_val(s[s.len() - 1])
    }
}

proof fn lemma_dec_val_nonneg(s: Seq<char>)
    requires
        all_digits(s),
    ensures
        dec_val(s) >= 0,
    decreases s.len(),
{
    if s.len() > 0 {
        assert(all_digits(s.take(s.len() - 1)));
        lemma_dec_val_nonneg(s.take(s.len() - 1));
    }
}

proof fn lemma_dec_val_grows(s: Seq<char>, i: int)
    requires
        all_digits(s),
        0 <= i <= s.len(),
    ensures
        dec_val(s.take(i)) <= dec_val(s),
    decreases s.len() - i,
{
    if i < s.len() {
        lemma_dec_val_grows(s, i + 1);
        let t = s.take(i + 1);
        assert(t.take(t.len() - 1) =~= s.take(i));
        assert(all_digits(s.take(i)));
        lemma_dec_val_nonneg(s.take(i));
        assert(dec_val(s.take(i)) <= dec_val(s.take(i)) * 10 + digit_val(s[i]));
    } else {
        assert(s.take(i) =~= s);
    }
}

/// Parses a string of decimal digits into a `u64`.
///
/// Returns `Some` exactly when the string is non-empty, holds digits only,
/// and its value fits; no sign or surrounding whitespace is accepted.
pub fn parse_u64(s: &str) -> (r: Option<u64>)
    ensures
        r is Some <==> (s@.len() > 0 && all_digits(s@) && dec_val(s@) <= u64::MAX),
        r is Some ==> r.unwrap() == dec_val(s@),
{
    let len = s.unicode_len();
    if len == 0 {
        return None;
    }
    let mut acc: u64 = 0;
    let mut i: usize = 0;
    while i < len
        invariant
            len == s@.len(),
            0 <= i <= len,
            all_digits(s@.take(i as int)),
            acc == dec_val(s@.take(i as int)),
        decreases len - i,
    {
        let c = s.get_char(i);
        if !(c >= '0' && c <= '9') {
            assert(!all_digits(s@)) by {
                assert(s@[i as int] == c);
            }
            return None;
        }
        let d: u64 = (c as u32 as u64) - 48;
        let shifted: Option<u64> = acc.checked_mul(10);
        proof {
            assert(s@.take(i + 1).take(i as int) =~= s@.take(i as int));
            assert(all_digits(s@.take(i + 1)));
        }
        proof {
            assert(dec_val(s@.take(i + 1)) == dec_val(s@.take(i as int)) * 10 + digit_val(
                s@[i as int],
            ));
        }
        match shifted {
            Some(m) => {
                match m.checked_add(d) {
                    Some(next) => {
                        acc = next;
                    },
                    None => {
                        proof {
                            if all_digits(s@) {
                                lemma_dec_val_grows(s@, i + 1);
                            }
                        }
                        return None;
                    },
                }
            },
            None => {
                proof {
                    if all_digits(s@) {
                        lemma_dec_val_grows(s@, i + 1);
                    }
                }
                return None;
            },
        }
        i = i + 1;
    }
    proof {
        assert(s@.take(len as int) =~= s@);
    }
    Some(acc)
}

/// Parses a string of decimal digits into a `u16`.
pub fn parse_u16(s: &str) -> (r: Option<u16>)
    ensures
        r is Some <==> (s@.len() > 0 && all_digits(s@) && dec_val(s@) <= u16::MAX),
        r is Some ==> r.unwrap() == dec_val(s@),
{
    match parse_u64(s) {
        Some(v) => {
            if v <= 0xffff {
                Some(v as u16)
            } else {
                None
            }
        },
        None => {
            proof {
                if s@.len() > 0 && all_digits(s@) {
                    lemma_dec_val_nonneg(s@);
                }
            }
            None
        },
    }
}

/// Parses a string of decimal digits into a `u32`.
pub fn parse_u32(s: &str) -> (r: Option<u32>)
    ensures
        r is Some <==> (s@.len() > 0 && all_digits(s@) && dec_val(s@) <= u32::MAX),
        r is Some ==> r.unwrap() == dec_val(s@),
{
    match parse_u64(s) {
        Some(v) => {
            if v <= 0xffff_ffff {
                Some(v as u32)
            } else {
                None
            }
        },
        None => {
            proof {
                if s@.len() > 0 && all_digits(s@) {
                    lemma_dec_val_nonneg(s@);
                }
            }
            None
        },
    }
}

/// The decimal digit string of a non-negative number.
pub open spec fn dec_str(n: int) -> Seq<char>
    decreases n,
{
    if n < 10 {
        seq![digit_char(n)]
    } else {
        dec_str(n / 10).push(digit_char(n % 10))
    }
}

/// Formats a number as its decimal digit string.
pub fn u64_to_string(n: u64) -> (r: String)
    ensures
        r@ == dec_str(n as int),
    decreases n,
{
    if n < 10 {
        let c: char = (48 + n as u8) as char;
        let mut s = String::new();
        push_char(&mut s, c);
        assert(s@ =~= dec_str(n as int));
        s
    } else {
        let mut s = u64_to_string(n / 10);
        let c: char = (48 + (n % 10) as u8) as char;
        push_char(&mut s, c);
        s
    }
}

// ---------------------------------------------------------------------------
// Finding characters, splitting
// ---------------------------------------------------------------------------

/// The index of the first occurrence of `c` in `s`, or `s.len()` if absent.
pub open spec fn find_char(s: Seq<char>, c: char) -> int
    decreases s.len(),
{
    if s.len() == 0 {
        0
    } else if s[0] == c {
        0
    } else {
        1 + find_char(s.skip(1), c)
    }
}

pub proof fn lemma_find_char(s: Seq<char>, c: char)
    ensures
        0 <= find_char(s, c) <= s.len(),
        find_char(s, c) < s.len() ==> s[find_char(s, c)] == c,
        forall|j: int| 0 <= j < find_char(s, c) ==> s[j] != c,
    decreases s.len(),
{
    if s.len() > 0 && s[0] != c {
        lemma_find_char(s.skip(1), c);
        assert forall|j: int| 0 <= j < find_char(s, c) implies s[j] != c by {
            if j > 0 {
                assert(s.skip(1)[j - 1] == s[j]);
            }
        }
    }
}

proof fn lemma_find_char_at(s: Seq<char>, c: char, i: int)
    requires
        0 <= i <= s.len(),
        forall|j: int| 0 <= j < i ==> s[j] != c,
        i == s.len() || s[i] == c,
    ensures
        find_char(s, c) == i,
    decreases i,
{
    if i > 0 {
        lemma_find_char_at(s.skip(1), c, i - 1);
    }
}

/// The index of the last occurrence of `c` in `s`, or `-1` if absent.
pub open spec fn rfind_char(s: Seq<char>, c: char) -> int
    decreases s.len(),
{
    if s.len() == 0 {
        -1
    } else if s[s.len() - 1] == c {
        s.len() - 1
    } else {
        rfind_char(s.take(s.len() - 1), c)
    }
}

proof fn lemma_rfind_char_at(s: Seq<char>, c: char, i: int)
    requires
        -1 <= i < s.len(),
        forall|j: int| i < j < s.len() ==> s[j] != c,
        i == -1 || s[i] == c,
    ensures
        rfind_char(s, c) == i,
    decreases s.len(),
{
    if s.len() > 0 && s[s.len() - 1] != c {
        lemma_rfind_char_at(s.take(s.len() - 1), c, i);
    }
}

/// Splits at the first occurrence of `c`: the parts before and after it,
/// or `None` when `c` does not occur.
pub fn split_once_char<'a>(s: &'a str, c: char) -> (r: Option<(&'a str, &'a str)>)
    ensures
        r is Some <==> find_char(s@, c) < s@.len(),
        r is Some ==> r.unwrap().0@ == s@.take(find_char(s@, c)) && r.unwrap().1@ == s@.skip(
            find_char(s@, c) + 1,
        ),
{
    let len = s.unicode_len();
    let mut i: usize = 0;
    while i < len && s.get_char(i) != c
        invariant
            len == s@.len(),
            0 <= i <= len,
            forall|j: int| 0 <= j < i ==> s@[j] != c,
        decreases len - i,
    {
        i = i + 1;
    }
    proof {
        lemma_find_char_at(s@, c, i as int);
    }
    if i == len {
        None
    } else {
        let before = s.substring_char(0, i);
        let after = s.substring_char(i + 1, len);
        proof {
            assert(before@ =~= s@.take(i as int));
            assert(after@ =~= s@.skip(i + 1));
        }
        Some((before, after))
    }
}

/// The path's last component names something: it is non-empty and not the
/// parent directory.
pub open spec fn has_file_name(s: Seq<char>) -> bool {
    let tail = s.skip(rfind_char(s, '/') + 1);
    tail.len() > 0 && tail != seq!['.', '.']
}

/// The part of `s` after the last `/`, or `None` when that part is empty
/// or is `..`.
pub fn file_name_of<'a>(s: &'a str) -> (r: Option<&'a str>)
    ensures
        ({
            let tail = s@.skip(rfind_char(s@, '/') + 1);
            if tail.len() == 0 || tail =~= seq!['.', '.'] {
                r is None
            } else {
                r is Some && r.unwrap()@ == tail
            }
        }),
{
    let len = s.unicode_len();
    let mut i: usize = len;
    while i > 0 && s.get_char(i - 1) != '/'
        invariant
            len == s@.len(),
            0 <= i <= len,
            forall|j: int| i <= j < len ==> s@[j] != '/',
        decreases i,
    {
        i = i - 1;
    }
    proof {
        if i > 0 {
            lemma_rfind_char_at(s@, '/', i - 1);
        } else {
            lemma_rfind_char_at(s@, '/', -1);
        }
    }
    let tail = s.substring_char(i, len);
    proof {
        assert(tail@ =~= s@.skip(rfind_char(s@, '/') + 1));
    }
    if tail.unicode_len() == 0 {
        return None;
    }
    if str_eq(tail, "..") {
        proof {
            reveal_strlit("..");
            assert(tail@ =~= seq!['.', '.']);
        }
        return None;
    }
    proof {
        reveal_strlit("..");
        if tail@ =~= seq!['.', '.'] {
            assert(tail@ == ".."@);
        }
    }
    Some(tail)
}

// ---------------------------------------------------------------------------
// Line splitting
// ---------------------------------------------------------------------------

/// A line with a trailing carriage return removed.
pub open spec fn strip_cr(l: Seq<char>) -> Seq<char> {
    if l.len() > 0 && l[l.len() - 1] == '\r' {
        l.take(l.len() - 1)
    } else {
        l
    }
}

/// The pieces of `s` between newline characters; a trailing final newline
/// produces no empty last piece.
pub open spec fn split_nl(s: Seq<char>) -> Seq<Seq<char>>
    decreases s.len(),
{
    if s.len() == 0 {
        Seq::empty()
    } else {
        let i = find_char(s, '\n');
        if 0 <= i && i < s.len() {
            seq![s.take(i)] + split_nl(s.skip(i + 1))
        } else {
            seq![s]
        }
    }
}

/// The lines of `s`, split on `\n` with a trailing `\r` removed from each,
/// as `str::lines` does.
pub open spec fn lines_spec(s: Seq<char>) -> Seq<Seq<char>> {
    split_nl(s).map_values(|l: Seq<char>| strip_cr(l))
}

proof fn lemma_find_char_no_hit(s: Seq<char>, c: char)
    requires
        forall|j: int| 0 <= j < s.len() ==> s[j] != c,
    ensures
        find_char(s, c) == s.len(),
{
    lemma_find_char_at(s, c, s.len() as int);
}

proof fn lemma_split_nl_flush(cur: Seq<char>, rest: Seq<char>)
    requires
        forall|j: int| 0 <= j < cur.len() ==> cur[j] != '\n',
        rest.len() > 0,
        rest[0] == '\n',
    ensures
        split_nl(cur + rest) == seq![cur] + split_nl(rest.skip(1)),
{
    let s = cur + rest;
    assert forall|j: int| 0 <= j < cur.len() implies s[j] != '\n' by {
        assert(s[j] == cur[j]);
    }
    assert(s[cur.len() as int] == '\n');
    lemma_find_char_at(s, '\n', cur.len() as int);
    assert(s.take(cur.len() as int) =~= cur);
    assert(s.skip(cur.len() as int + 1) =~= rest.skip(1));
}

proof fn lemma_split_nl_last(cur: Seq<char>)
    requires
        forall|j: int| 0 <= j < cur.len() ==> cur[j] != '\n',
    ensures
        cur.len() == 0 ==> split_nl(cur) == Seq::<Seq<char>>::empty(),
        cur.len() > 0 ==> split_nl(cur) == seq![cur],
{
    if cur.len() > 0 {
        lemma_find_char_no_hit(cur, '\n');
    }
}

/// A copy of `line` with one trailing carriage return removed.
fn finish_line(line: &str) -> (r: String)
    ensures
        r@ == strip_cr(line@),
{
    let len = line.unicode_len();
    if len > 0 && line.get_char(len - 1) == '\r' {
        let cut = line.substring_char(0, len - 1);
        let r = cut.to_owned();
        proof {
            assert(r@ =~= strip_cr(line@));
        }
        r
    } else {
        line.to_owned()
    }
}

/// The lines of `s`, as `str::lines` yields them: split on `\n`, each with a
/// trailing `\r` removed, with no empty line after a final newline.
pub fn split_lines(s: &str) -> (r: Vec<String>)
    ensures
        r.deep_view() == lines_spec(s@),
{
    let len = s.unicode_len();
    let mut out: Vec<String> = Vec::new();
    let mut cur: String = String::new();
    let mut i: usize = 0;
    proof {
        assert(cur@ + s@.skip(0) =~= s@);
    }
    while i < len
        invariant
            len == s@.len(),
            0 <= i <= len,
            forall|j: int| 0 <= j < cur@.len() ==> cur@[j] != '\n',
            lines_spec(s@) =~= out.deep_view() + lines_spec(cur@ + s@.skip(i as int)),
        decreases len - i,
    {
        let ghost prev_rest = cur@ + s@.skip(i as int);
        let ghost cur_old: Seq<char> = cur@;
        let ghost out_old: Seq<Seq<char>> = out.deep_view();
        let c = s.get_char(i);
        if c == '\n' {
            let line = finish_line(cur.as_str());
            proof {
                let rest = s@.skip(i as int);
                assert(rest[0] == c);
                lemma_split_nl_flush(cur_old, rest);
                assert(rest.skip(1) =~= s@.skip(i + 1));
                assert(split_nl(cur_old + rest) == seq![cur_old] + split_nl(s@.skip(i + 1)));
                assert(lines_spec(cur_old + rest) =~= seq![strip_cr(cur_old)] + lines_spec(
                    s@.skip(i + 1),
                ));
            }
            out.push(line);
            cur = String::new();
            proof {
                assert(cur@ + s@.skip(i + 1) =~= s@.skip(i + 1));
                assert(out.deep_view() =~= out_old + seq![strip_cr(cur_old)]);
                assert(out.deep_view() + lines_spec(s@.skip(i + 1)) =~= out_old + lines_spec(
                    prev_rest,
                ));
            }
        } else {
            push_char(&mut cur, c);
            proof {
                assert(cur@ + s@.skip(i + 1) =~= prev_rest);
            }
        }
        i = i + 1;
    }
    proof {
        assert(cur@ + s@.skip(len as int) =~= cur@);
        lemma_split_nl_last(cur@);
    }
    if cur.as_str().unicode_len() > 0 {
        let line = finish_line(cur.as_str());
        proof {
            assert(lines_spec(cur@) =~= seq![strip_cr(cur@)]);
        }
        out.push(line);
        proof {
            assert(out.deep_view() =~= lines_spec(s@));
        }
    } else {
        proof {
            assert(lines_spec(cur@) =~= Seq::<Seq<char>>::empty());
            assert(out.deep_view() =~= lines_spec(s@));
        }
    }
    out
}

// ---------------------------------------------------------------------------
// Case mapping and substitution
// ---------------------------------------------------------------------------

/// An ASCII-lower-cased copy of `s`.
pub fn to_lower_string(s: &str) -> (r: String)
    ensures
        r@ == lower_seq(s@),
{
    let len = s.unicode_len();
    let mut out = String::new();
    let mut i: usize = 0;
    while i < len
        invariant
            len == s@.len(),
            0 <= i <= len,
            out@ =~= lower_seq(s@.take(i as int)),
        decreases len - i,
    {
        let c = char_to_lower(s.get_char(i));
        push_char(&mut out, c);
        proof {
            assert(out@ =~= lower_seq(s@.take(i + 1)));
        }
        i = i + 1;
    }
    proof {
        assert(s@.take(len as int) =~= s@);
    }
    out
}

/// `s` with every occurrence of `from` replaced by `to`.
pub open spec fn replace_spec(s: Seq<char>, from: char, to: char) -> Seq<char> {
    s.map_values(|c: char| if c == from { to } else { c })
}

/// A copy of `s` with every occurrence of `from` replaced by `to`.
pub fn replace_char(s: &str, from: char, to: char) -> (r: String)
    ensures
        r@ == replace_spec(s@, from, to),
{
    let len = s.unicode_len();
    let mut out = String::new();
    let mut i: usize = 0;
    while i < len
        invariant
            len == s@.len(),
            0 <= i <= len,
            out@ =~= s@.take(i as int).map_values(|c: char| if c == from { to } else { c }),
        decreases len - i,
    {
        let c = s.get_char(i);
        if c == from {
            push_char(&mut out, to);
        } else {
            push_char(&mut out, c);
        }
        proof {
            assert(out@ =~= s@.take(i + 1).map_values(
                |c: char| if c == from { to } else { c },
            ));
        }
        i = i + 1;
    }
    proof {
        assert(s@.take(len as int) =~= s@);
    }
    out
}

/// Whether two strings are equal after ASCII lower-casing.
pub fn eq_ignore_case(a: &str, b: &str) -> (r: bool)
    ensures
        r == (lower_seq(a@) == lower_seq(b@)),
{
    let alen = a.unicode_len();
    let blen = b.unicode_len();
    if alen != blen {
        assert(lower_seq(a@).len() != lower_seq(b@).len());
        return false;
    }
    let mut i: usize = 0;
    while i < alen
        invariant
            alen == a@.len(),
            alen == b@.len(),
            0 <= i <= alen,
            forall|j: int| 0 <= j < i ==> lower_char(a@[j]) == lower_char(b@[j]),
        decreases alen - i,
    {
        if char_to_lower(a.get_char(i)) != char_to_lower(b.get_char(i)) {
            assert(lower_seq(a@)[i as int] != lower_seq(b@)[i as int]);
            return false;
        }
        i = i + 1;
    }
    proof {
        assert(lower_seq(a@) =~= lower_seq(b@));
    }
    true
}

// ---------------------------------------------------------------------------
// Trimming repeated occurrences of one character
// ---------------------------------------------------------------------------

/// The number of leading occurrences of `m`.
pub open spec fn leading_matches(s: Seq<char>, m: char) -> int
    decreases s.len(),
{
    if s.len() == 0 {
        0
    } else if s[0] == m {
        1 + leading_matches(s.skip(1), m)
    } else {
        0
    }
}

/// The number of trailing occurrences of `m`.
pub open spec fn trailing_matches(s: Seq<char>, m: char) -> int
    decreases s.len(),
{
    if s.len() == 0 {
        0
    } else if s[s.len() - 1] == m {
        1 + trailing_matches(s.take(s.len() - 1), m)
    } else {
        0
    }
}

/// `s` with every leading and trailing occurrence of `m` removed.
pub open spec fn trim_matches_spec(s: Seq<char>, m: char) -> Seq<char> {
    if leading_matches(s, m) == s.len() {
        Seq::empty()
    } else {
        s.subrange(leading_matches(s, m), s.len() - trailing_matches(s, m))
    }
}

proof fn lemma_leading_matches_at(s: Seq<char>, m: char, i: int)
    requires
        0 <= i <= s.len(),
        forall|j: int| 0 <= j < i ==> s[j] == m,
        i == s.len() || s[i] != m,
    ensures
        leading_matches(s, m) == i,
    decreases i,
{
    if i > 0 {
        lemma_leading_matches_at(s.skip(1), m, i - 1);
    }
}

proof fn lemma_trailing_matches_at(s: Seq<char>, m: char, i: int)
    requires
        0 <= i <= s.len(),
        forall|j: int| i <= j < s.len() ==> s[j] == m,
        i == 0 || s[i - 1] != m,
    ensures
        trailing_matches(s, m) == s.len() - i,
    decreases s.len() - i,
{
    if i < s.len() {
        lemma_trailing_matches_at(s.take(s.len() - 1), m, i);
    }
}

/// `s` with every trailing occurrence of `m` removed.
pub fn trim_trailing_char<'a>(s: &'a str, m: char) -> (r: &'a str)
    ensures
        r@ == s@.take(s@.len() - trailing_matches(s@, m)),
{
    let len = s.unicode_len();
    let mut b: usize = len;
    while b > 0 && s.get_char(b - 1) == m
        invariant
            len == s@.len(),
            0 <= b <= len,
            forall|j: int| b <= j < len ==> s@[j] == m,
        decreases b,
    {
        b = b - 1;
    }
    proof {
        lemma_trailing_matches_at(s@, m, b as int);
    }
    let r = s.substring_char(0, b);
    proof {
        assert(r@ =~= s@.take(s@.len() - trailing_matches(s@, m)));
    }
    r
}

/// `s` with every leading and trailing occurrence of `m` removed.
pub fn trim_matches_char<'a>(s: &'a str, m: char) -> (r: &'a str)
    ensures
        r@ == trim_matches_spec(s@, m),
{
    let len = s.unicode_len();
    let mut a: usize = 0;
    while a < len && s.get_char(a) == m
        invariant
            len == s@.len(),
            0 <= a <= len,
            forall|j: int| 0 <= j < a ==> s@[j] == m,
        decreases len - a,
    {
        a = a + 1;
    }
    proof {
        lemma_leading_matches_at(s@, m, a as int);
    }
    if a == len {
        let r = s.substring_char(len, len);
        assert(r@ =~= trim_matches_spec(s@, m));
        return r;
    }
    let mut b: usize = len;
    while b > a && s.get_char(b - 1) == m
        invariant
            len == s@.len(),
            a <= b <= len,
            a < len,
            s@[a as int] != m,
            forall|j: int| b <= j < len ==> s@[j] == m,
        decreases b,
    {
        b = b - 1;
    }
    proof {
        lemma_trailing_matches_at(s@, m, b as int);
    }
    s.substring_char(a, b)
}

// ---------------------------------------------------------------------------
// Path-like strings
// ---------------------------------------------------------------------------

/// Joining of slash-separated paths: an absolute right side replaces the
/// left side, as `Path::join` does.
pub open spec fn path_join_spec(a: Seq<char>, b: Seq<char>) -> Seq<char> {
    if b.len() > 0 && b[0] == '/' {
        b
    } else if a.len() == 0 {
        b
    } else if a[a.len() - 1] == '/' {
        a + b
    } else {
        a + seq!['/'] + b
    }
}

/// Joins two slash-separated paths.
pub fn path_join(a: &str, b: &str) -> (r: String)
    ensures
        r@ == path_join_spec(a@, b@),
{
    let alen = a.unicode_len();
    let blen = b.unicode_len();
    if blen > 0 && b.get_char(0) == '/' {
        return b.to_owned();
    }
    if alen == 0 {
        return b.to_owned();
    }
    let mut r = a.to_owned();
    if a.get_char(alen - 1) != '/' {
        push_char(&mut r, '/');
        proof {
            assert(r@ =~= a@ + seq!['/']);
        }
    }
    r.append(b);
    proof {
        assert(r@ =~= path_join_spec(a@, b@));
    }
    r
}

} // verus!
