//! Character classes, decimal rendering/parsing and the small string
//! operations the identifier guards, SQL builders and token codecs share.
use vstd::prelude::*;

verus! {

// ── Character classes ────────────────────────────────────────────────────────

pub open spec fn is_ascii_alpha(c: char) -> bool {
    ('a' <= c && c <= 'z') || ('A' <= c && c <= 'Z')
}

pub open spec fn is_ascii_digit(c: char) -> bool {
    '0' <= c && c <= '9'
}

pub open spec fn is_ascii_alnum(c: char) -> bool {
    is_ascii_alpha(c) || is_ascii_digit(c)
}

/// Scalar value of `c` after ASCII lower-casing (other characters keep
/// their value).
pub open spec fn lower_code(c: char) -> u32 {
    if 'A' <= c && c <= 'Z' {
        ((c as u32) + 32) as u32
    } else {
        c as u32
    }
}

/// Scalar value of `c` after ASCII upper-casing (other characters keep
/// their value).
pub open spec fn upper_code(c: char) -> u32 {
    if 'a' <= c && c <= 'z' {
        ((c as u32) - 32) as u32
    } else {
        c as u32
    }
}

pub fn ascii_alpha(c: char) -> (b: bool)
    ensures
        b == is_ascii_alpha(c),
{
    ('a' <= c && c <= 'z') || ('A' <= c && c <= 'Z')
}

pub fn ascii_digit(c: char) -> (b: bool)
    ensures
        b == is_ascii_digit(c),
{
    '0' <= c && c <= '9'
}

pub fn ascii_alnum(c: char) -> (b: bool)
    ensures
        b == is_ascii_alnum(c),
{
    ascii_alpha(c) || ascii_digit(c)
}

/// Case-insensitive comparison of two characters under ASCII folding.
pub fn char_eq_ignore_ascii_case(a: char, b: char) -> (r: bool)
    ensures
        r == (lower_code(a) == lower_code(b)),
{
    let la: u32 = if 'A' <= a && a <= 'Z' {
        (a as u32) + 32
    } else {
        a as u32
    };
    let lb: u32 = if 'A' <= b && b <= 'Z' {
        (b as u32) + 32
    } else {
        b as u32
    };
    la == lb
}

/// ASCII upper-cased scalar value of `c`.
pub fn upper_code_of(c: char) -> (r: u32)
    ensures
        r == upper_code(c),
{
    if 'a' <= c && c <= 'z' {
        (c as u32) - 32
    } else {
        c as u32
    }
}

// ── Sequence predicates over characters ──────────────────────────────────────

/// `s` equals `t` under ASCII case folding (non-ASCII characters compare
/// exactly).
pub open spec fn eq_ignore_ascii_case_spec(s: Seq<char>, t: Seq<char>) -> bool {
    &&& s.len() == t.len()
    &&& forall|i: int| 0 <= i < s.len() ==> lower_code(#[trigger] s[i]) == lower_code(t[i])
}

pub open spec fn is_prefix(p: Seq<char>, s: Seq<char>) -> bool {
    p.len() <= s.len() && s.subrange(0, p.len() as int) == p
}

/// Index of the last occurrence of `c` in `s`, if any.
pub open spec fn last_index_of(s: Seq<char>, c: char) -> Option<int>
    decreases s.len(),
{
    if s.len() == 0 {
        None
    } else if s.last() == c {
        Some(s.len() - 1)
    } else {
        last_index_of(s.drop_last(), c)
    }
}

pub proof fn lemma_last_index_of(s: Seq<char>, c: char)
    ensures
        last_index_of(s, c) matches Some(i) ==> 0 <= i < s.len() && s[i] == c && (forall|j: int|
            i < j < s.len() ==> s[j] != c),
        last_index_of(s, c) is None ==> forall|j: int| 0 <= j < s.len() ==> s[j] != c,
    decreases s.len(),
{
    if s.len() > 0 {
        lemma_last_index_of(s.drop_last(), c);
        assert forall|j: int| 0 <= j < s.len() - 1 implies s.drop_last()[j] == s[j] by {}
    }
}

/// `str::eq_ignore_ascii_case`.
pub fn eq_ignore_ascii_case(s: &str, t: &str) -> (r: bool)
    ensures
        r == eq_ignore_ascii_case_spec(s@, t@),
{
    let n = s.unicode_len();
    let m = t.unicode_len();
    if n != m {
        return false;
    }
    let mut i: usize = 0;
    while i < n
        invariant
            n == s@.len(),
            m == t@.len(),
            n == m,
            i <= n,
            forall|j: int| 0 <= j < i ==> lower_code(#[trigger] s@[j]) == lower_code(t@[j]),
        decreases n - i,
    {
        if !char_eq_ignore_ascii_case(s.get_char(i), t.get_char(i)) {
            return false;
        }
        i = i + 1;
    }
    true
}

/// `str::starts_with` for a string pattern.
pub fn starts_with(s: &str, p: &str) -> (r: bool)
    ensures
        r == is_prefix(p@, s@),
{
    let n = s.unicode_len();
    let m = p.unicode_len();
    if m > n {
        return false;
    }
    let mut i: usize = 0;
    while i < m
        invariant
            n == s@.len(),
            m == p@.len(),
            m <= n,
            i <= m,
            forall|j: int| 0 <= j < i ==> s@[j] == p@[j],
        decreases m - i,
    {
        if s.get_char(i) != p.get_char(i) {
            assert(s@.subrange(0, m as int)[i as int] != p@[i as int]);
            return false;
        }
        i = i + 1;
    }
    assert(s@.subrange(0, m as int) =~= p@);
    true
}

/// `str::strip_prefix` for a string pattern.
pub fn strip_prefix<'a>(s: &'a str, p: &str) -> (r: Option<&'a str>)
    ensures
        r is Some <==> is_prefix(p@, s@),
        r matches Some(rest) ==> rest@ == s@.skip(p@.len() as int),
{
    if starts_with(s, p) {
        let n = s.unicode_len();
        let m = p.unicode_len();
        Some(s.substring_char(m, n))
    } else {
        None
    }
}

/// `str::rsplit_once` for a single-character delimiter: the text before and
/// after the last occurrence of `c`.
pub fn rsplit_once<'a>(s: &'a str, c: char) -> (r: Option<(&'a str, &'a str)>)
    ensures
        r is Some <==> last_index_of(s@, c) is Some,
        r matches Some(parts) ==> ({
            let i = last_index_of(s@, c)->0;
            &&& parts.0@ == s@.subrange(0, i)
            &&& parts.1@ == s@.subrange(i + 1, s@.len() as int)
        }),
{
    let n = s.unicode_len();
    let mut i: usize = n;
    assert(s@.subrange(0, n as int) =~= s@);
    while i > 0
        invariant
            n == s@.len(),
            i <= n,
            forall|j: int| i <= j < n ==> s@[j] != c,
            last_index_of(s@, c) == last_index_of(s@.subrange(0, i as int), c),
        decreases i,
    {
        let ch = s.get_char(i - 1);
        assert(s@.subrange(0, i as int).last() == s@[i - 1]);
        if ch == c {
            return Some((s.substring_char(0, i - 1), s.substring_char(i, n)));
        }
        assert(s@.subrange(0, i as int).drop_last() =~= s@.subrange(0, i - 1));
        i = i - 1;
    }
    assert(s@.subrange(0, 0) =~= Seq::<char>::empty());
    None
}

// ── Decimal rendering ────────────────────────────────────────────────────────

pub open spec fn digit_char(d: int) -> char {
    (('0' as int) + d) as char
}

/// Decimal digits of a natural number, most significant first, no padding.
pub open spec fn nat_decimal(n: nat) -> Seq<char>
    decreases n,
{
    if n < 10 {
        seq![digit_char(n as int)]
    } else {
        nat_decimal(n / 10).push(digit_char((n % 10) as int))
    }
}

/// Decimal rendering of an integer: a leading `-` for negatives.
pub open spec fn int_decimal(n: int) -> Seq<char> {
    if n < 0 {
        seq!['-'] + nat_decimal((-n) as nat)
    } else {
        nat_decimal(n as nat)
    }
}

// ── Decimal parsing (the grammar of `FromStr` for the integer types) ─────────

pub open spec fn all_digits(s: Seq<char>) -> bool {
    forall|i: int| 0 <= i < s.len() ==> is_ascii_digit(#[trigger] s[i])
}

/// Value of a string of decimal digits (leading zeros allowed).
pub open spec fn digits_value(s: Seq<char>) -> int
    decreases s.len(),
{
    if s.len() == 0 {
        0
    } else {
        digits_value(s.drop_last()) * 10 + ((s.last() as int) - ('0' as int))
    }
}

/// Unsigned grammar: an optional `+`, then one or more ASCII digits.
pub open spec fn unsigned_magnitude(s: Seq<char>) -> Option<int> {
    let body = if s.len() > 0 && s[0] == '+' {
        s.drop_first()
    } else {
        s
    };
    if body.len() > 0 && all_digits(body) {
        Some(digits_value(body))
    } else {
        None
    }
}

/// Signed grammar: an optional `+` or `-`, then one or more ASCII digits.
pub open spec fn signed_value(s: Seq<char>) -> Option<int> {
    if s.len() > 0 && s[0] == '-' {
        let body = s.drop_first();
        if body.len() > 0 && all_digits(body) {
            Some(-digits_value(body))
        } else {
            None
        }
    } else {
        unsigned_magnitude(s)
    }
}

/// What `s.parse::<i64>()` accepts: the signed grammar, in range.
pub open spec fn parse_i64_spec(s: Seq<char>) -> Option<i64> {
    match signed_value(s) {
        Some(v) => if i64::MIN <= v <= i64::MAX {
            Some(v as i64)
        } else {
            None
        },
        None => None,
    }
}

/// What `s.parse::<u64>()` accepts: the unsigned grammar, in range.
pub open spec fn parse_u64_spec(s: Seq<char>) -> Option<u64> {
    match unsigned_magnitude(s) {
        Some(v) => if v <= u64::MAX {
            Some(v as u64)
        } else {
            None
        },
        None => None,
    }
}

pub proof fn lemma_digit_char(d: int)
    requires
        0 <= d < 10,
    ensures
        is_ascii_digit(digit_char(d)),
        (digit_char(d) as int) - ('0' as int) == d,
{
    assert(('0' as int) == 48);
    assert((digit_char(d) as int) == 48 + d);
}

pub proof fn lemma_nat_decimal_digits(n: nat)
    ensures
        nat_decimal(n).len() > 0,
        all_digits(nat_decimal(n)),
        digits_value(nat_decimal(n)) == n,
    decreases n,
{
    if n >= 10 {
        lemma_nat_decimal_digits(n / 10);
        let s = nat_decimal(n);
        assert(s.drop_last() =~= nat_decimal(n / 10));
        lemma_digit_char((n % 10) as int);
        assert(s.last() == digit_char((n % 10) as int));
        assert(digits_value(s) == digits_value(s.drop_last()) * 10 + ((s.last() as int) - ('0' as int)));
        assert(n == (n / 10) * 10 + n % 10);
        assert forall|i: int| 0 <= i < s.len() implies is_ascii_digit(#[trigger] s[i]) by {
            if i < s.len() - 1 {
                assert(s[i] == nat_decimal(n / 10)[i]);
            }
        }
    } else {
        let s = nat_decimal(n);
        lemma_digit_char(n as int);
        assert(s.drop_last() =~= Seq::<char>::empty());
        assert(digits_value(s) == digits_value(s.drop_last()) * 10 + ((s.last() as int) - ('0' as int)));
    }
}

/// Rendering an `i64` in decimal and parsing it back gives the same number.
pub proof fn lemma_parse_i64_of_decimal(n: i64)
    ensures
        parse_i64_spec(int_decimal(n as int)) == Some(n),
{
    if n < 0 {
        let m: nat = (-(n as int)) as nat;
        lemma_nat_decimal_digits(m);
        let s = int_decimal(n as int);
        assert(s.drop_first() =~= nat_decimal(m));
    } else {
        let m: nat = n as nat;
        lemma_nat_decimal_digits(m);
        lemma_nat_decimal_digits(m);
        let s = nat_decimal(m);
        assert(is_ascii_digit(s[0]));
    }
}

/// Rendering a `u64` in decimal and parsing it back gives the same number.
pub proof fn lemma_parse_u64_of_decimal(n: u64)
    ensures
        parse_u64_spec(nat_decimal(n as nat)) == Some(n),
{
    lemma_nat_decimal_digits(n as nat);
    let s = nat_decimal(n as nat);
    assert(is_ascii_digit(s[0]));
}

/// A decimal rendering never contains `c` when `c` is not a digit or `-`.
pub proof fn lemma_int_decimal_chars(n: int, c: char)
    requires
        !is_ascii_digit(c),
        c != '-',
    ensures
        forall|j: int| 0 <= j < int_decimal(n).len() ==> int_decimal(n)[j] != c,
{
    if n < 0 {
        lemma_nat_decimal_digits((-n) as nat);
        let s = int_decimal(n);
        assert forall|j: int| 0 <= j < s.len() implies s[j] != c by {
            if j > 0 {
                assert(s[j] == nat_decimal((-n) as nat)[j - 1]);
            }
        }
    } else {
        lemma_nat_decimal_digits(n as nat);
    }
}

// ── Decimal rendering (exec) ─────────────────────────────────────────────────

fn digit_of(d: u8) -> (c: char)
    requires
        d < 10,
    ensures
        c == digit_char(d as int),
{
    (48u8 + d) as char
}

/// Decimal digits of `n`, most significant first, no padding.
pub(crate) fn u128_to_decimal(n: u128) -> (s: String)
    ensures
        s@ == nat_decimal(n as nat),
    decreases n,
{
    if n < 10 {
        let mut s = String::new();
        push_char(&mut s, digit_of(n as u8));
        assert(s@ =~= nat_decimal(n as nat));
        s
    } else {
        let mut s = u128_to_decimal(n / 10);
        push_char(&mut s, digit_of((n % 10) as u8));
        s
    }
}

/// Decimal rendering of an `i64` (what its `Display` writes): a leading
/// `-` for negatives, no padding or `+`.
pub(crate) fn i64_to_decimal(n: i64) -> (s: String)
    ensures
        s@ == int_decimal(n as int),
{
    if n < 0 {
        let m: u128 = (0i128 - (n as i128)) as u128;
        let mut s = String::new();
        push_char(&mut s, '-');
        let s = s.concat(u128_to_decimal(m).as_str());
        assert(s@ =~= int_decimal(n as int));
        s
    } else {
        u128_to_decimal(n as u128)
    }
}

/// Decimal rendering of a `u64`, no padding.
pub(crate) fn u64_to_decimal(n: u64) -> (s: String)
    ensures
        s@ == nat_decimal(n as nat),
{
    u128_to_decimal(n as u128)
}

/// Decimal rendering of a `usize`, no padding.
pub(crate) fn usize_to_decimal(n: usize) -> (s: String)
    ensures
        s@ == nat_decimal(n as nat),
{
    u128_to_decimal(n as u128)
}

// ── Trusted std calls ────────────────────────────────────────────────────────

/// `str::parse::<i64>`: std documents the accepted text as an optional `+`
/// or `-` followed by ASCII digits only, failing on empty input, on any other
/// character and on values outside the `i64` range. On failure the error's
/// `Display` text is returned; nothing is stated of that text.
#[verifier::external_body]
pub(crate) fn parse_i64(s: &str) -> (r: Result<i64, String>)
    ensures
        r is Ok <==> parse_i64_spec(s@) is Some,
        r matches Ok(v) ==> parse_i64_spec(s@) == Some(v),
{
    match s.parse::<i64>() {
        Ok(v) => Ok(v),
        Err(e) => Err(e.to_string()),
    }
}

/// `str::parse::<u64>`: std documents the accepted text as an optional `+`
/// followed by ASCII digits only, failing on empty input, on any other
/// character (a `-` included) and on values above `u64::MAX`. On failure the
/// error's `Display` text is returned; nothing is stated of that text.
#[verifier::external_body]
pub(crate) fn parse_u64(s: &str) -> (r: Result<u64, String>)
    ensures
        r is Ok <==> parse_u64_spec(s@) is Some,
        r matches Ok(v) ==> parse_u64_spec(s@) == Some(v),
{
    match s.parse::<u64>() {
        Ok(v) => Ok(v),
        Err(e) => Err(e.to_string()),
    }
}

/// `String::push`: appends one character.
#[verifier::external_body]
pub(crate) fn push_char(s: &mut String, c: char)
    ensures
        final(s)@ == old(s)@.push(c),
{
    s.push(c)
}

} // verus!

verus! {

/// String equality by characters.
pub fn str_eq(a: &str, b: &str) -> (r: bool)
    ensures
        r == (a@ == b@),
{
    let n = a.unicode_len();
    let m = b.unicode_len();
    if n != m {
        return false;
    }
    let mut i: usize = 0;
    while i < n
        invariant
            n == a@.len(),
            m == b@.len(),
            n == m,
            i <= n,
            forall|j: int| 0 <= j < i ==> a@[j] == b@[j],
        decreases n - i,
    {
        if a.get_char(i) != b.get_char(i) {
            return false;
        }
        i = i + 1;
    }
    assert(a@ =~= b@);
    true
}

} // verus!

verus! {

/// `p` occurs in `s` at some position.
pub open spec fn contains_spec(s: Seq<char>, p: Seq<char>) -> bool {
    exists|k: int| 0 <= k && k + p.len() <= s.len() && #[trigger] s.subrange(k, k + p.len()) == p
}

/// Whether `p` occurs at position `k` of `s`.
fn occurs_at(s: &str, p: &str, k: usize, n: usize, m: usize) -> (r: bool)
    requires
        n == s@.len(),
        m == p@.len(),
        k + m <= n,
    ensures
        r == (s@.subrange(k as int, k + m) == p@),
{
    let mut j: usize = 0;
    while j < m
        invariant
            n == s@.len(),
            m == p@.len(),
            k + m <= n,
            j <= m,
            forall|t: int| 0 <= t < j ==> s@[k + t] == p@[t],
        decreases m - j,
    {
        if s.get_char(k + j) != p.get_char(j) {
            assert(s@.subrange(k as int, k + m)[j as int] != p@[j as int]);
            return false;
        }
        j = j + 1;
    }
    assert(s@.subrange(k as int, k + m) =~= p@);
    true
}

/// `str::contains` for a string pattern.
pub fn contains(s: &str, p: &str) -> (r: bool)
    ensures
        r == contains_spec(s@, p@),
{
    let n = s.unicode_len();
    let m = p.unicode_len();
    if m > n {
        return false;
    }
    let mut k: usize = 0;
    while k <= n - m
        invariant
            n == s@.len(),
            m == p@.len(),
            m <= n,
            k <= n - m + 1,
            forall|t: int| 0 <= t < k ==> #[trigger] s@.subrange(t, t + m) != p@,
        decreases n - m + 1 - k,
    {
        if occurs_at(s, p, k, n, m) {
            return true;
        }
        if k == n - m {
            return false;
        }
        k = k + 1;
    }
    false
}


// ── Lexicographic order ─────────────────────────────────────────────────────

/// Lexicographic order of two strings by character (scalar value) order,
/// which for UTF-8 text is also the byte order `str` compares by.
pub open spec fn seq_char_lt(a: Seq<char>, b: Seq<char>) -> bool
    decreases a.len(),
{
    if a.len() == 0 {
        b.len() > 0
    } else if b.len() == 0 {
        false
    } else if a[0] != b[0] {
        a[0] < b[0]
    } else {
        seq_char_lt(a.skip(1), b.skip(1))
    }
}

/// Strict lexicographic order of two strings.
pub fn str_lt(a: &str, b: &str) -> (r: bool)
    ensures
        r == seq_char_lt(a@, b@),
{
    let n = a.unicode_len();
    let m = b.unicode_len();
    let mut i: usize = 0;
    assert(a@.skip(0) =~= a@);
    assert(b@.skip(0) =~= b@);
    while i < n && i < m
        invariant
            n == a@.len(),
            m == b@.len(),
            i <= n,
            i <= m,
            a@.subrange(0, i as int) == b@.subrange(0, i as int),
            seq_char_lt(a@, b@) == seq_char_lt(a@.skip(i as int), b@.skip(i as int)),
        decreases n - i,
    {
        let ca = a.get_char(i);
        let cb = b.get_char(i);
        assert(a@.skip(i as int)[0] == ca);
        assert(b@.skip(i as int)[0] == cb);
        if ca != cb {
            return ca < cb;
        }
        assert(a@.skip(i as int).skip(1) =~= a@.skip(i + 1));
        assert(b@.skip(i as int).skip(1) =~= b@.skip(i + 1));
        assert(a@.subrange(0, i + 1) =~= a@.subrange(0, i as int).push(ca));
        assert(b@.subrange(0, i + 1) =~= b@.subrange(0, i as int).push(cb));
        i = i + 1;
    }
    i == n && i < m
}

/// `<` is irreflexive.
pub proof fn lemma_seq_char_lt_irreflexive(a: Seq<char>)
    ensures
        !seq_char_lt(a, a),
    decreases a.len(),
{
    if a.len() > 0 {
        lemma_seq_char_lt_irreflexive(a.skip(1));
    }
}

/// `<` is total.
pub proof fn lemma_seq_char_lt_total(a: Seq<char>, b: Seq<char>)
    ensures
        a == b || seq_char_lt(a, b) || seq_char_lt(b, a),
    decreases a.len(),
{
    if a.len() > 0 && b.len() > 0 && a[0] == b[0] {
        lemma_seq_char_lt_total(a.skip(1), b.skip(1));
        if a.skip(1) == b.skip(1) {
            assert(a =~= seq![a[0]] + a.skip(1));
            assert(b =~= seq![b[0]] + b.skip(1));
        }
    } else if a.len() == 0 && b.len() == 0 {
        assert(a =~= b);
    }
}

/// `<` is asymmetric.
pub proof fn lemma_seq_char_lt_asymmetric(a: Seq<char>, b: Seq<char>)
    requires
        seq_char_lt(a, b),
    ensures
        !seq_char_lt(b, a),
    decreases a.len(),
{
    if a.len() > 0 && b.len() > 0 && a[0] == b[0] {
        lemma_seq_char_lt_asymmetric(a.skip(1), b.skip(1));
    }
}

/// `<` is transitive.
pub proof fn lemma_seq_char_lt_transitive(a: Seq<char>, b: Seq<char>, c: Seq<char>)
    requires
        seq_char_lt(a, b),
        seq_char_lt(b, c),
    ensures
        seq_char_lt(a, c),
    decreases a.len(),
{
    if a.len() > 0 && b.len() > 0 && c.len() > 0 && a[0] == b[0] && b[0] == c[0] {
        lemma_seq_char_lt_transitive(a.skip(1), b.skip(1), c.skip(1));
    }
}

} // verus!
