//! Character-level text utilities shared by the option helpers: conversion
//! between `str` and characters, whitespace trimming, ASCII case folding,
//! decimal formatting and parsing, and the lexicographic order of strings.

use vstd::prelude::*;
use vstd::string::*;

verus! {

// ---------------------------------------------------------------------------
// Conversions
// ---------------------------------------------------------------------------

/// The characters of `s`, in order.
pub fn chars_of(s: &str) -> (v: Vec<char>)
    ensures
        v@ == s@,
{
    let n = s.unicode_len();
    let mut v: Vec<char> = Vec::new();
    let mut i: usize = 0;
    while i < n
        invariant
            n == s@.len(),
            i <= n,
            v@ == s@.subrange(0, i as int),
        decreases n - i,
    {
        let c = s.get_char(i);
        v.push(c);
        i += 1;
    }
    v
}

/// Appends one character (`String::push`).
#[verifier::external_body]
fn push_char(s: &mut String, c: char)
    ensures
        final(s)@ == old(s)@.push(c),
{
    s.push(c);
}

/// A string holding exactly the characters of `v`.
pub fn string_from_chars(v: &[char]) -> (s: String)
    ensures
        s@ == v@,
{
    let mut s = String::new();
    let mut i: usize = 0;
    while i < v.len()
        invariant
            i <= v@.len(),
            s@ == v@.subrange(0, i as int),
        decreases v@.len() - i,
    {
        push_char(&mut s, v[i]);
        i += 1;
    }
    s
}

/// Appends the characters of `s` to `out`.
pub fn push_str_chars(out: &mut Vec<char>, s: &str)
    ensures
        final(out)@ == old(out)@ + s@,
{
    let v = chars_of(s);
    let mut i: usize = 0;
    while i < v.len()
        invariant
            i <= v@.len(),
            v@ == s@,
            out@ == old(out)@ + v@.subrange(0, i as int),
        decreases v@.len() - i,
    {
        out.push(v[i]);
        i += 1;
        proof {
            assert(v@.subrange(0, i as int) =~= v@.subrange(0, (i - 1) as int).push(v@[i - 1]));
        }
    }
    proof {
        assert(v@.subrange(0, v@.len() as int) =~= v@);
    }
}

/// `a` followed by `b`.
pub fn concat_str(a: &str, b: &str) -> (r: String)
    ensures
        r@ == a@ + b@,
{
    let mut v = chars_of(a);
    push_str_chars(&mut v, b);
    string_from_chars(v.as_slice())
}

/// Whether two character sequences are equal.
pub fn chars_equal(a: &[char], b: &[char]) -> (r: bool)
    ensures
        r == (a@ == b@),
{
    if a.len() != b.len() {
        return false;
    }
    let mut i: usize = 0;
    while i < a.len()
        invariant
            a@.len() == b@.len(),
            i <= a@.len(),
            forall|j: int| 0 <= j < i ==> a@[j] == b@[j],
        decreases a@.len() - i,
    {
        if a[i] != b[i] {
            return false;
        }
        i += 1;
    }
    proof {
        assert(a@ =~= b@);
    }
    true
}

/// Whether `s` equals `lit` (both compared as character sequences).
pub fn str_equals(s: &str, lit: &str) -> (r: bool)
    ensures
        r == (s@ == lit@),
{
    let a = chars_of(s);
    let b = chars_of(lit);
    chars_equal(a.as_slice(), b.as_slice())
}

// ---------------------------------------------------------------------------
// Searching
// ---------------------------------------------------------------------------

/// Whether `p` occurs in `s` at `k`.
pub open spec fn occurs_at(s: Seq<char>, p: Seq<char>, k: int) -> bool {
    0 <= k && k + p.len() <= s.len() && s.subrange(k, k + p.len()) == p
}

/// Whether `p` occurs in `s` (`str::contains`).
pub open spec fn contains_spec(s: Seq<char>, p: Seq<char>) -> bool {
    exists|k: int| occurs_at(s, p, k)
}

/// Whether `s` begins with `p` (`str::starts_with`).
pub open spec fn starts_with_spec(s: Seq<char>, p: Seq<char>) -> bool {
    occurs_at(s, p, 0)
}

/// Whether `p` occurs in `v` at `start`.
pub fn chars_occur_at(v: &[char], p: &[char], start: usize) -> (r: bool)
    ensures
        r == occurs_at(v@, p@, start as int),
{
    if start > v.len() || p.len() > v.len() - start {
        return false;
    }
    let n = v.len();
    let mut j: usize = 0;
    while j < p.len()
        invariant
            n == v@.len(),
            start + p@.len() <= v@.len(),
            j <= p@.len(),
            forall|k: int| 0 <= k < j ==> v@[start + k] == p@[k],
        decreases p@.len() - j,
    {
        if v[start + j] != p[j] {
            proof {
                assert(v@.subrange(start as int, start + p@.len())[j as int] != p@[j as int]);
            }
            return false;
        }
        j += 1;
    }
    proof {
        assert(v@.subrange(start as int, start + p@.len()) =~= p@);
    }
    true
}

/// Whether `p` occurs in `s`.
pub fn contains_str(s: &str, p: &str) -> (r: bool)
    ensures
        r == contains_spec(s@, p@),
{
    let v = chars_of(s);
    let w = chars_of(p);
    let n = v.len();
    let mut k: usize = 0;
    loop
        invariant
            v@ == s@,
            w@ == p@,
            n == v@.len(),
            k <= n,
            forall|j: int| 0 <= j < k ==> !occurs_at(s@, p@, j),
        ensures
            forall|j: int| 0 <= j <= n ==> !occurs_at(s@, p@, j),
        decreases n - k,
    {
        if chars_occur_at(v.as_slice(), w.as_slice(), k) {
            return true;
        }
        if k == n {
            break;
        }
        k += 1;
    }
    proof {
        assert forall|j: int| !occurs_at(s@, p@, j) by {
            if 0 <= j && j + p@.len() <= s@.len() {
                assert(j <= n);
            }
        }
    }
    false
}

/// Whether `s` begins with `p`.
pub fn starts_with_str(s: &str, p: &str) -> (r: bool)
    ensures
        r == starts_with_spec(s@, p@),
{
    let v = chars_of(s);
    let w = chars_of(p);
    chars_occur_at(v.as_slice(), w.as_slice(), 0)
}

/// Whether `s` ends with `p` (`str::ends_with`).
pub open spec fn ends_with_spec(s: Seq<char>, p: Seq<char>) -> bool {
    occurs_at(s, p, s.len() - p.len())
}

/// Whether `s` ends with `p`.
pub fn ends_with_str(s: &str, p: &str) -> (r: bool)
    ensures
        r == ends_with_spec(s@, p@),
{
    let v = chars_of(s);
    let w = chars_of(p);
    if w.len() > v.len() {
        return false;
    }
    chars_occur_at(v.as_slice(), w.as_slice(), v.len() - w.len())
}

/// `s` with every occurrence of the non-empty `p`, from left to right and
/// without overlaps, replaced by `r` (`str::replace`).
pub open spec fn replace_spec(s: Seq<char>, p: Seq<char>, r: Seq<char>) -> Seq<char>
    decreases s.len(),
{
    if s.len() == 0 || p.len() == 0 {
        s
    } else if occurs_at(s, p, 0) {
        r + replace_spec(s.subrange(p.len() as int, s.len() as int), p, r)
    } else {
        seq![s[0]] + replace_spec(s.drop_first(), p, r)
    }
}

/// `s` with every occurrence of the non-empty `p` replaced by `r`.
pub fn replace_str(s: &str, p: &str, r: &str) -> (out: String)
    requires
        p@.len() > 0,
    ensures
        out@ == replace_spec(s@, p@, r@),
{
    let v = chars_of(s);
    let w = chars_of(p);
    let n = v.len();
    let mut acc: Vec<char> = Vec::new();
    let mut i: usize = 0;
    assert(v@.subrange(0, n as int) =~= v@);
    while i < n
        invariant
            v@ == s@,
            w@ == p@,
            n == v@.len(),
            p@.len() > 0,
            i <= n,
            replace_spec(s@, p@, r@) == acc@ + replace_spec(v@.subrange(i as int, n as int), p@, r@),
        decreases n - i,
    {
        let ghost rest = v@.subrange(i as int, n as int);
        let hit = chars_occur_at(v.as_slice(), w.as_slice(), i);
        proof {
            if i + p@.len() <= n {
                assert(rest.subrange(0, p@.len() as int) =~= v@.subrange(i as int, i + p@.len()));
            }
            assert(hit == occurs_at(rest, p@, 0));
        }
        if hit {
            let ghost before = acc@;
            push_str_chars(&mut acc, r);
            proof {
                assert(rest.subrange(p@.len() as int, rest.len() as int) =~= v@.subrange(
                    i + p@.len(),
                    n as int,
                ));
                assert(before + (r@ + replace_spec(v@.subrange(i + p@.len(), n as int), p@, r@)) =~= acc@
                    + replace_spec(v@.subrange(i + p@.len(), n as int), p@, r@));
            }
            i += w.len();
        } else {
            proof {
                assert(rest[0] == v@[i as int]);
                assert(rest.drop_first() =~= v@.subrange(i + 1, n as int));
                assert(acc@ + (seq![v@[i as int]] + replace_spec(rest.drop_first(), p@, r@)) =~= acc@.push(
                    v@[i as int],
                ) + replace_spec(rest.drop_first(), p@, r@));
            }
            acc.push(v[i]);
            i += 1;
        }
    }
    proof {
        assert(replace_spec(v@.subrange(n as int, n as int), p@, r@) =~= Seq::<char>::empty());
        assert(acc@ + Seq::<char>::empty() =~= acc@);
    }
    string_from_chars(acc.as_slice())
}

// ---------------------------------------------------------------------------
// Whitespace
// ---------------------------------------------------------------------------

/// The Unicode `White_Space` property, which `char::is_whitespace` tests.
pub open spec fn is_whitespace_spec(c: char) -> bool {
    let u = c as u32;
    ||| 9 <= u <= 13
    ||| u == 32
    ||| u == 0x85
    ||| u == 0xA0
    ||| u == 0x1680
    ||| 0x2000 <= u <= 0x200A
    ||| u == 0x2028
    ||| u == 0x2029
    ||| u == 0x202F
    ||| u == 0x205F
    ||| u == 0x3000
}

/// Whether `c` is Unicode white space.
pub fn is_whitespace(c: char) -> (r: bool)
    ensures
        r == is_whitespace_spec(c),
{
    let u = c as u32;
    (9 <= u && u <= 13) || u == 32 || u == 0x85 || u == 0xA0 || u == 0x1680 || (0x2000 <= u && u
        <= 0x200A) || u == 0x2028 || u == 0x2029 || u == 0x202F || u == 0x205F || u == 0x3000
}

/// `s` without its leading white space.
pub open spec fn trim_start_spec(s: Seq<char>) -> Seq<char>
    decreases s.len(),
{
    if s.len() > 0 && is_whitespace_spec(s[0]) {
        trim_start_spec(s.drop_first())
    } else {
        s
    }
}

/// `s` without its trailing white space.
pub open spec fn trim_end_spec(s: Seq<char>) -> Seq<char>
    decreases s.len(),
{
    if s.len() > 0 && is_whitespace_spec(s.last()) {
        trim_end_spec(s.drop_last())
    } else {
        s
    }
}

/// `s` without leading and trailing white space, as `str::trim` gives it.
pub open spec fn trim_spec(s: Seq<char>) -> Seq<char> {
    trim_end_spec(trim_start_spec(s))
}

/// The characters of `v` without leading and trailing white space.
pub fn trim_chars(v: &[char]) -> (r: Vec<char>)
    ensures
        r@ == trim_spec(v@),
{
    let n = v.len();
    let mut a: usize = 0;
    assert(v@.subrange(0, n as int) =~= v@);
    while a < n && is_whitespace(v[a])
        invariant
            n == v@.len(),
            a <= n,
            trim_start_spec(v@) == trim_start_spec(v@.subrange(a as int, n as int)),
        decreases n - a,
    {
        proof {
            assert(v@.subrange(a as int, n as int).drop_first() =~= v@.subrange(
                a + 1,
                n as int,
            ));
        }
        a += 1;
    }
    let ghost t = v@.subrange(a as int, n as int);
    assert(trim_start_spec(t) == t);
    let mut b: usize = n;
    while b > a && is_whitespace(v[b - 1])
        invariant
            n == v@.len(),
            a <= b <= n,
            t == v@.subrange(a as int, n as int),
            trim_end_spec(t) == trim_end_spec(v@.subrange(a as int, b as int)),
        decreases b - a,
    {
        proof {
            assert(v@.subrange(a as int, b as int).drop_last() =~= v@.subrange(
                a as int,
                b - 1,
            ));
        }
        b -= 1;
    }
    let mut r: Vec<char> = Vec::new();
    let mut i: usize = a;
    while i < b
        invariant
            n == v@.len(),
            a <= i <= b <= n,
            r@ == v@.subrange(a as int, i as int),
        decreases b - i,
    {
        r.push(v[i]);
        i += 1;
        proof {
            assert(v@.subrange(a as int, i as int) =~= v@.subrange(a as int, i - 1).push(
                v@[i - 1],
            ));
        }
    }
    r
}

/// `s` without leading and trailing white space (`str::trim`).
pub fn trim(s: &str) -> (r: String)
    ensures
        r@ == trim_spec(s@),
{
    let v = chars_of(s);
    let t = trim_chars(v.as_slice());
    string_from_chars(t.as_slice())
}

/// Whether `s` is empty once trimmed (`s.trim().is_empty()`).
pub fn is_blank(s: &str) -> (r: bool)
    ensures
        r == (trim_spec(s@).len() == 0),
{
    let v = chars_of(s);
    let t = trim_chars(v.as_slice());
    t.len() == 0
}

// ---------------------------------------------------------------------------
// ASCII case
// ---------------------------------------------------------------------------

/// `char::to_ascii_lowercase`.
pub open spec fn ascii_lower_spec(c: char) -> char {
    if 'A' <= c <= 'Z' {
        ((c as u32) + 32) as char
    } else {
        c
    }
}

/// `char::to_ascii_uppercase`.
pub open spec fn ascii_upper_spec(c: char) -> char {
    if 'a' <= c <= 'z' {
        ((c as u32) - 32) as char
    } else {
        c
    }
}

/// Every character folded to ASCII lower case.
pub open spec fn lower_seq(s: Seq<char>) -> Seq<char> {
    s.map_values(|c: char| ascii_lower_spec(c))
}

/// Every character folded to ASCII upper case.
pub open spec fn upper_seq(s: Seq<char>) -> Seq<char> {
    s.map_values(|c: char| ascii_upper_spec(c))
}

/// `str::eq_ignore_ascii_case`: equal once ASCII letters are folded.
pub open spec fn eq_ignore_ascii_case_spec(a: Seq<char>, b: Seq<char>) -> bool {
    lower_seq(a) == lower_seq(b)
}

/// ASCII lower case of one character.
pub fn ascii_lower(c: char) -> (r: char)
    ensures
        r == ascii_lower_spec(c),
{
    if 'A' <= c && c <= 'Z' {
        ((c as u8) + 32) as char
    } else {
        c
    }
}

/// ASCII upper case of one character.
pub fn ascii_upper(c: char) -> (r: char)
    ensures
        r == ascii_upper_spec(c),
{
    if 'a' <= c && c <= 'z' {
        ((c as u8) - 32) as char
    } else {
        c
    }
}

/// `str::to_ascii_lowercase`.
pub fn to_ascii_lowercase(s: &str) -> (r: String)
    ensures
        r@ == lower_seq(s@),
{
    let v = chars_of(s);
    let mut out: Vec<char> = Vec::new();
    let mut i: usize = 0;
    while i < v.len()
        invariant
            v@ == s@,
            i <= v@.len(),
            out@ == lower_seq(v@.subrange(0, i as int)),
        decreases v@.len() - i,
    {
        let c = ascii_lower(v[i]);
        out.push(c);
        i += 1;
        proof {
            assert(lower_seq(v@.subrange(0, i as int)) =~= lower_seq(
                v@.subrange(0, i - 1),
            ).push(c));
        }
    }
    proof {
        assert(v@.subrange(0, v@.len() as int) =~= v@);
    }
    string_from_chars(out.as_slice())
}

/// `str::to_ascii_uppercase`.
pub fn to_ascii_uppercase(s: &str) -> (r: String)
    ensures
        r@ == upper_seq(s@),
{
    let v = chars_of(s);
    let mut out: Vec<char> = Vec::new();
    let mut i: usize = 0;
    while i < v.len()
        invariant
            v@ == s@,
            i <= v@.len(),
            out@ == upper_seq(v@.subrange(0, i as int)),
        decreases v@.len() - i,
    {
        let c = ascii_upper(v[i]);
        out.push(c);
        i += 1;
        proof {
            assert(upper_seq(v@.subrange(0, i as int)) =~= upper_seq(
                v@.subrange(0, i - 1),
            ).push(c));
        }
    }
    proof {
        assert(v@.subrange(0, v@.len() as int) =~= v@);
    }
    string_from_chars(out.as_slice())
}

/// Case-insensitive (ASCII) equality of two character sequences.
pub fn chars_eq_ignore_ascii_case(a: &[char], b: &[char]) -> (r: bool)
    ensures
        r == eq_ignore_ascii_case_spec(a@, b@),
{
    if a.len() != b.len() {
        proof {
            assert(lower_seq(a@).len() != lower_seq(b@).len());
        }
        return false;
    }
    let mut i: usize = 0;
    while i < a.len()
        invariant
            a@.len() == b@.len(),
            i <= a@.len(),
            forall|j: int| 0 <= j < i ==> ascii_lower_spec(a@[j]) == ascii_lower_spec(b@[j]),
        decreases a@.len() - i,
    {
        if ascii_lower(a[i]) != ascii_lower(b[i]) {
            proof {
                assert(lower_seq(a@)[i as int] != lower_seq(b@)[i as int]);
            }
            return false;
        }
        i += 1;
    }
    proof {
        assert(lower_seq(a@) =~= lower_seq(b@));
    }
    true
}

/// `str::eq_ignore_ascii_case`.
pub fn eq_ignore_ascii_case(a: &str, b: &str) -> (r: bool)
    ensures
        r == eq_ignore_ascii_case_spec(a@, b@),
{
    let x = chars_of(a);
    let y = chars_of(b);
    chars_eq_ignore_ascii_case(x.as_slice(), y.as_slice())
}

/// Folding is an equivalence: symmetric.
pub proof fn lemma_eq_ignore_case_symmetric(a: Seq<char>, b: Seq<char>)
    ensures
        eq_ignore_ascii_case_spec(a, b) == eq_ignore_ascii_case_spec(b, a),
{
}

/// Folding is an equivalence: transitive.
pub proof fn lemma_eq_ignore_case_transitive(a: Seq<char>, b: Seq<char>, c: Seq<char>)
    requires
        eq_ignore_ascii_case_spec(a, b),
        eq_ignore_ascii_case_spec(b, c),
    ensures
        eq_ignore_ascii_case_spec(a, c),
{
}

// ---------------------------------------------------------------------------
// Decimal numbers
// ---------------------------------------------------------------------------

/// The decimal digit character for `d < 10`.
pub open spec fn digit_char_spec(d: nat) -> char {
    ((('0' as u32) as nat) + d) as char
}

/// Whether `c` is an ASCII decimal digit.
pub open spec fn is_digit_spec(c: char) -> bool {
    '0' <= c <= '9'
}

/// The value of an ASCII decimal digit.
pub open spec fn digit_value_spec(c: char) -> nat {
    ((c as u32) - ('0' as u32)) as nat
}

/// The decimal representation of `n`, as `n.to_string()` writes it.
pub open spec fn decimal_spec(n: nat) -> Seq<char>
    decreases n,
{
    if n < 10 {
        seq![digit_char_spec(n)]
    } else {
        decimal_spec(n / 10).push(digit_char_spec(n % 10))
    }
}

/// The character of one decimal digit.
pub fn digit_char(d: usize) -> (c: char)
    requires
        d < 10,
    ensures
        c == digit_char_spec(d as nat),
        is_digit_spec(c),
{
    ((d as u8) + 48) as char
}

/// Appends the decimal representation of `n` to `out`.
pub fn push_decimal(out: &mut Vec<char>, n: u128)
    ensures
        final(out)@ == old(out)@ + decimal_spec(n as nat),
    decreases n,
{
    if n >= 10 {
        push_decimal(out, n / 10);
    }
    let c = digit_char((n % 10) as usize);
    out.push(c);
    proof {
        if n >= 10 {
            assert(old(out)@ + decimal_spec(n as nat) =~= old(out)@ + decimal_spec(
                (n / 10) as nat,
            ) + seq![c]);
        } else {
            assert(old(out)@ + decimal_spec(n as nat) =~= old(out)@.push(c));
        }
    }
}

/// A decimal representation holds digits only and is never empty.
pub proof fn lemma_decimal_digits(n: nat)
    ensures
        decimal_spec(n).len() >= 1,
        forall|i: int| 0 <= i < decimal_spec(n).len() ==> is_digit_spec(#[trigger] decimal_spec(n)[i]),
    decreases n,
{
    if n >= 10 {
        lemma_decimal_digits(n / 10);
    }
}

/// Different digits have different characters.
pub proof fn lemma_digit_char_injective(a: nat, b: nat)
    requires
        a < 10,
        b < 10,
        digit_char_spec(a) == digit_char_spec(b),
    ensures
        a == b,
{
    assert(digit_char_spec(a) as u32 == 48 + a);
    assert(digit_char_spec(b) as u32 == 48 + b);
}

/// Different numbers have different decimal representations.
pub proof fn lemma_decimal_injective(m: nat, n: nat)
    requires
        decimal_spec(m) == decimal_spec(n),
    ensures
        m == n,
    decreases m + n,
{
    lemma_decimal_digits(m);
    lemma_decimal_digits(n);
    if m < 10 && n < 10 {
        assert(decimal_spec(m) == seq![digit_char_spec(m)]);
        assert(decimal_spec(n) == seq![digit_char_spec(n)]);
        assert(seq![digit_char_spec(m)][0] == digit_char_spec(m));
        assert(seq![digit_char_spec(n)][0] == digit_char_spec(n));
        assert(digit_char_spec(m) == digit_char_spec(n));
        lemma_digit_char_injective(m, n);
    } else if m >= 10 && n >= 10 {
        assert(decimal_spec(m).drop_last() =~= decimal_spec(m / 10));
        assert(decimal_spec(n).drop_last() =~= decimal_spec(n / 10));
        lemma_decimal_injective(m / 10, n / 10);
        assert(decimal_spec(m).last() == digit_char_spec(m % 10));
        assert(decimal_spec(n).last() == digit_char_spec(n % 10));
        assert(decimal_spec(m).last() == decimal_spec(n).last());
        lemma_digit_char_injective(m % 10, n % 10);
    } else if m >= 10 {
        lemma_decimal_digits(m / 10);
        assert(decimal_spec(m).len() >= 2);
    } else {
        lemma_decimal_digits(n / 10);
        assert(decimal_spec(n).len() >= 2);
    }
}

/// Folding a concatenation folds each part.
pub proof fn lemma_lower_concat(a: Seq<char>, b: Seq<char>)
    ensures
        lower_seq(a + b) == lower_seq(a) + lower_seq(b),
{
    assert(lower_seq(a + b) =~= lower_seq(a) + lower_seq(b));
}

/// Digits are left unchanged by ASCII case folding.
pub proof fn lemma_lower_decimal(n: nat)
    ensures
        lower_seq(decimal_spec(n)) == decimal_spec(n),
{
    lemma_decimal_digits(n);
    assert(lower_seq(decimal_spec(n)) =~= decimal_spec(n));
}

/// The decimal representation of `n` as a string.
pub fn decimal_string(n: usize) -> (s: String)
    ensures
        s@ == decimal_spec(n as nat),
{
    let mut v: Vec<char> = Vec::new();
    push_decimal(&mut v, n as u128);
    proof {
        assert(Seq::<char>::empty() + decimal_spec(n as nat) =~= decimal_spec(n as nat));
    }
    string_from_chars(v.as_slice())
}

/// The decimal representation of a signed number, as `n.to_string()` writes it.
pub open spec fn signed_decimal_spec(n: int) -> Seq<char> {
    if n < 0 {
        seq!['-'] + decimal_spec((-n) as nat)
    } else {
        decimal_spec(n as nat)
    }
}

/// `n.to_string()` for an `i32`.
pub fn i32_to_string(n: i32) -> (s: String)
    ensures
        s@ == signed_decimal_spec(n as int),
{
    let mut v: Vec<char> = Vec::new();
    if n < 0 {
        v.push('-');
        let m: u128 = (0 - (n as i64)) as u128;
        push_decimal(&mut v, m);
        proof {
            assert(v@ =~= seq!['-'] + decimal_spec((-n) as nat));
        }
    } else {
        push_decimal(&mut v, n as u128);
        proof {
            assert(v@ =~= decimal_spec(n as nat));
        }
    }
    string_from_chars(v.as_slice())
}

/// The value of a sequence of decimal digits.
pub open spec fn digits_value_spec(s: Seq<char>) -> nat
    decreases s.len(),
{
    if s.len() == 0 {
        0
    } else {
        digits_value_spec(s.drop_last()) * 10 + digit_value_spec(s.last())
    }
}

/// Whether every character of `s` is a decimal digit.
pub open spec fn all_digits_spec(s: Seq<char>) -> bool {
    forall|i: int| 0 <= i < s.len() ==> is_digit_spec(#[trigger] s[i])
}

/// The value of a non-empty run of digits.
pub open spec fn parse_digits_spec(s: Seq<char>) -> Option<int> {
    if s.len() > 0 && all_digits_spec(s) {
        Some(digits_value_spec(s) as int)
    } else {
        None
    }
}

/// The integer that Rust's `FromStr` reads from `s`, before the range check:
/// an optional `+` (or, when `signed`, `-`) and one or more digits.
pub open spec fn parse_int_spec(s: Seq<char>, signed: bool) -> Option<int> {
    if s.len() > 0 && s[0] == '+' {
        parse_digits_spec(s.drop_first())
    } else if signed && s.len() > 0 && s[0] == '-' {
        match parse_digits_spec(s.drop_first()) {
            Some(v) => Some(-v),
            None => None,
        }
    } else {
        parse_digits_spec(s)
    }
}

/// `s.parse::<u32>().ok()`.
pub open spec fn parse_u32_spec(s: Seq<char>) -> Option<u32> {
    match parse_int_spec(s, false) {
        Some(v) => if v <= u32::MAX {
            Some(v as u32)
        } else {
            None
        },
        None => None,
    }
}

/// `s.parse::<i32>().ok()`.
pub open spec fn parse_i32_spec(s: Seq<char>) -> Option<i32> {
    match parse_int_spec(s, true) {
        Some(v) => if i32::MIN <= v <= i32::MAX {
            Some(v as i32)
        } else {
            None
        },
        None => None,
    }
}

/// A longer run of digits is worth at least as much as its prefix.
proof fn lemma_digits_value_monotone(s: Seq<char>, j: int)
    requires
        0 <= j <= s.len(),
        all_digits_spec(s),
    ensures
        digits_value_spec(s.subrange(0, j)) <= digits_value_spec(s),
    decreases s.len() - j,
{
    if j < s.len() {
        lemma_digits_value_monotone(s, j + 1);
        assert(s.subrange(0, j + 1).drop_last() =~= s.subrange(0, j));
    } else {
        assert(s.subrange(0, j) =~= s);
    }
}

/// Reads the digits `v[start..]`: their value when they are all digits, there
/// is at least one, and the value is at most `limit`; otherwise `None`.
fn parse_digit_run(v: &[char], start: usize, limit: u64) -> (r: Option<u64>)
    requires
        start <= v@.len(),
        limit <= u32::MAX as u64 + 1,
    ensures
        match parse_digits_spec(v@.subrange(start as int, v@.len() as int)) {
            Some(x) => if x <= limit {
                r == Some(x as u64)
            } else {
                r is None
            },
            None => r is None,
        },
{
    let n = v.len();
    let ghost s = v@.subrange(start as int, n as int);
    if start == n {
        return None;
    }
    let mut acc: u64 = 0;
    let mut i: usize = start;
    while i < n
        invariant
            n == v@.len(),
            start <= i <= n,
            s == v@.subrange(start as int, n as int),
            limit <= u32::MAX as u64 + 1,
            acc <= limit,
            all_digits_spec(v@.subrange(start as int, i as int)),
            acc == digits_value_spec(v@.subrange(start as int, i as int)),
        decreases n - i,
    {
        let c = v[i];
        if !('0' <= c && c <= '9') {
            proof {
                assert(s[i - start] == c);
            }
            return None;
        }
        let d = ((c as u32) - 48) as u64;
        let next = acc * 10 + d;
        proof {
            assert(v@.subrange(start as int, i + 1).drop_last() =~= v@.subrange(
                start as int,
                i as int,
            ));
            assert(all_digits_spec(v@.subrange(start as int, i + 1)));
        }
        if next > limit {
            proof {
                let t = v@.subrange(start as int, i + 1);
                assert(t =~= s.subrange(0, i + 1 - start));
                if all_digits_spec(s) {
                    lemma_digits_value_monotone(s, i + 1 - start);
                }
            }
            return None;
        }
        acc = next;
        i += 1;
    }
    proof {
        assert(v@.subrange(start as int, n as int) =~= s);
    }
    Some(acc)
}

/// `s.parse::<u32>().ok()`, over characters.
pub fn parse_u32_chars(v: &[char]) -> (r: Option<u32>)
    ensures
        r == parse_u32_spec(v@),
{
    let start: usize = if v.len() > 0 && v[0] == '+' {
        1
    } else {
        0
    };
    proof {
        if start == 1 {
            assert(v@.drop_first() =~= v@.subrange(1, v@.len() as int));
        } else {
            assert(v@ =~= v@.subrange(0, v@.len() as int));
        }
    }
    match parse_digit_run(v, start, 0xFFFF_FFFF) {
        Some(x) => Some(x as u32),
        None => None,
    }
}

/// `s.parse::<i32>().ok()`, over characters.
pub fn parse_i32_chars(v: &[char]) -> (r: Option<i32>)
    ensures
        r == parse_i32_spec(v@),
{
    if v.len() > 0 && v[0] == '-' {
        proof {
            assert(v@.drop_first() =~= v@.subrange(1, v@.len() as int));
        }
        match parse_digit_run(v, 1, 0x8000_0000) {
            Some(x) => Some((0 - (x as i64)) as i32),
            None => None,
        }
    } else {
        let start: usize = if v.len() > 0 && v[0] == '+' {
            1
        } else {
            0
        };
        proof {
            if start == 1 {
                assert(v@.drop_first() =~= v@.subrange(1, v@.len() as int));
            } else {
                assert(v@ =~= v@.subrange(0, v@.len() as int));
            }
        }
        match parse_digit_run(v, start, 0x7FFF_FFFF) {
            Some(x) => Some(x as i32),
            None => None,
        }
    }
}

/// `s.trim().parse::<u32>().ok()`.
pub fn parse_trimmed_u32(s: &str) -> (r: Option<u32>)
    ensures
        r == parse_u32_spec(trim_spec(s@)),
{
    let v = chars_of(s);
    let t = trim_chars(v.as_slice());
    parse_u32_chars(t.as_slice())
}

/// `s.trim().parse::<i32>().ok()`.
pub fn parse_trimmed_i32(s: &str) -> (r: Option<i32>)
    ensures
        r == parse_i32_spec(trim_spec(s@)),
{
    let v = chars_of(s);
    let t = trim_chars(v.as_slice());
    parse_i32_chars(t.as_slice())
}

/// The digits of `n` are worth `n`.
pub proof fn lemma_decimal_value(n: nat)
    ensures
        digits_value_spec(decimal_spec(n)) == n,
    decreases n,
{
    if n >= 10 {
        lemma_decimal_value(n / 10);
        let d = decimal_spec(n);
        assert(d.drop_last() =~= decimal_spec(n / 10));
        assert(d.last() == digit_char_spec(n % 10));
        assert(digit_value_spec(digit_char_spec(n % 10)) == n % 10) by {
            assert(digit_char_spec(n % 10) as u32 == 48 + n % 10);
        }
        assert((n / 10) * 10 + n % 10 == n) by (nonlinear_arith);
        assert(digits_value_spec(d) == digits_value_spec(d.drop_last()) * 10 + digit_value_spec(d.last()));
    } else {
        let d = decimal_spec(n);
        assert(d.drop_last() =~= Seq::<char>::empty());
        assert(d.last() == digit_char_spec(n));
        assert(digit_char_spec(n) as u32 == 48 + n);
        assert(digits_value_spec(d) == digits_value_spec(d.drop_last()) * 10 + digit_value_spec(d.last()));
    }
}

/// Reading back the decimal representation of a number gives the number;
/// the representation has no white space to trim.
pub proof fn lemma_parse_decimal(n: nat)
    ensures
        trim_spec(decimal_spec(n)) == decimal_spec(n),
        parse_int_spec(decimal_spec(n), false) == Some(n as int),
        parse_int_spec(decimal_spec(n), true) == Some(n as int),
        n <= u32::MAX ==> parse_u32_spec(decimal_spec(n)) == Some(n as u32),
{
    let d = decimal_spec(n);
    lemma_decimal_digits(n);
    lemma_decimal_value(n);
    assert(is_digit_spec(d[0]) && is_digit_spec(d.last()));
    assert(d[d.len() - 1] == d.last());
    assert(trim_start_spec(d) == d);
    assert(trim_end_spec(d) == d);
}

/// Reading back the decimal representation of a signed number gives the
/// number; the representation neither starts nor ends with white space.
pub proof fn lemma_parse_signed_decimal(n: int)
    requires
        i32::MIN <= n <= i32::MAX,
    ensures
        trim_spec(signed_decimal_spec(n)) == signed_decimal_spec(n),
        parse_i32_spec(signed_decimal_spec(n)) == Some(n as i32),
        signed_decimal_spec(n).len() > 0,
        !is_whitespace_spec(signed_decimal_spec(n)[0]),
        !is_whitespace_spec(signed_decimal_spec(n).last()),
{
    if n < 0 {
        let m = (-n) as nat;
        lemma_parse_decimal(m);
        lemma_decimal_digits(m);
        let s = signed_decimal_spec(n);
        assert(s.drop_first() =~= decimal_spec(m));
        assert(s.last() == decimal_spec(m).last());
        assert(is_digit_spec(decimal_spec(m)[decimal_spec(m).len() - 1]));
        assert(trim_start_spec(s) == s);
        assert(trim_end_spec(s) == s);
    } else {
        lemma_parse_decimal(n as nat);
        lemma_decimal_digits(n as nat);
        let d = decimal_spec(n as nat);
        assert(is_digit_spec(d[0]));
        assert(is_digit_spec(d[d.len() - 1]));
    }
}

/// Every character of `s` is white space.
pub open spec fn all_whitespace(s: Seq<char>) -> bool {
    forall|i: int| 0 <= i < s.len() ==> is_whitespace_spec(#[trigger] s[i])
}

/// Leading white space before a text that starts with something else is
/// trimmed away, and only it.
proof fn lemma_trim_start_padded(pre: Seq<char>, s: Seq<char>)
    requires
        all_whitespace(pre),
        s.len() > 0,
        !is_whitespace_spec(s[0]),
    ensures
        trim_start_spec(pre + s) == s,
    decreases pre.len(),
{
    if pre.len() == 0 {
        assert(pre + s =~= s);
    } else {
        let rest = pre.drop_first();
        assert(all_whitespace(rest)) by {
            assert forall|i: int| 0 <= i < rest.len() implies is_whitespace_spec(#[trigger] rest[i]) by {
                assert(rest[i] == pre[i + 1]);
            }
        }
        assert(is_whitespace_spec(pre[0]));
        assert((pre + s)[0] == pre[0]);
        assert((pre + s).drop_first() =~= rest + s);
        lemma_trim_start_padded(rest, s);
    }
}

/// Trailing white space after a text that ends with something else is
/// trimmed away, and only it.
proof fn lemma_trim_end_padded(s: Seq<char>, post: Seq<char>)
    requires
        all_whitespace(post),
        s.len() > 0,
        !is_whitespace_spec(s.last()),
    ensures
        trim_end_spec(s + post) == s,
    decreases post.len(),
{
    if post.len() == 0 {
        assert(s + post =~= s);
    } else {
        let init = post.drop_last();
        assert(all_whitespace(init)) by {
            assert forall|i: int| 0 <= i < init.len() implies is_whitespace_spec(#[trigger] init[i]) by {
                assert(init[i] == post[i]);
            }
        }
        assert(is_whitespace_spec(post[post.len() - 1]));
        assert((s + post).last() == post[post.len() - 1]);
        assert((s + post).drop_last() =~= s + init);
        lemma_trim_end_padded(s, init);
    }
}

/// White space around a text that neither starts nor ends with white space
/// is exactly what trimming removes.
pub proof fn lemma_trim_padded(pre: Seq<char>, s: Seq<char>, post: Seq<char>)
    requires
        all_whitespace(pre),
        all_whitespace(post),
        s.len() > 0,
        !is_whitespace_spec(s[0]),
        !is_whitespace_spec(s.last()),
    ensures
        trim_spec(pre + s + post) == s,
{
    assert(pre + s + post =~= pre + (s + post));
    assert((s + post)[0] == s[0]);
    lemma_trim_start_padded(pre, s + post);
    lemma_trim_end_padded(s, post);
}

/// The first entry equal to `text` ignoring ASCII case, if any.
pub open spec fn first_match_ignoring_case(items: Seq<Seq<char>>, text: Seq<char>) -> Option<int>
    decreases items.len(),
{
    if items.len() == 0 {
        None
    } else if eq_ignore_ascii_case_spec(items[0], text) {
        Some(0)
    } else {
        match first_match_ignoring_case(items.drop_first(), text) {
            Some(i) => Some(i + 1),
            None => None,
        }
    }
}

} // verus!
