//! Character and string operations with their meaning stated over `Seq<char>`.

use vstd::prelude::*;

verus! {

/// Unicode `White_Space`, the set `char::is_whitespace` tests.
pub open spec fn is_ws(c: char) -> bool {
    let u = c as u32;
    (0x09 <= u <= 0x0D) || u == 0x20 || u == 0x85 || u == 0xA0 || u == 0x1680
        || (0x2000 <= u <= 0x200A) || u == 0x2028 || u == 0x2029 || u == 0x202F
        || u == 0x205F || u == 0x3000
}

pub fn is_whitespace(c: char) -> (r: bool)
    ensures
        r == is_ws(c),
{
    let u = c as u32;
    (0x09 <= u && u <= 0x0D) || u == 0x20 || u == 0x85 || u == 0xA0 || u == 0x1680
        || (0x2000 <= u && u <= 0x200A) || u == 0x2028 || u == 0x2029 || u == 0x202F
        || u == 0x205F || u == 0x3000
}

pub open spec fn is_digit(c: char) -> bool {
    '0' <= c && c <= '9'
}

/// The value of a decimal digit character.
pub open spec fn digit_value(c: char) -> int {
    (c as int) - ('0' as int)
}

/// Calls std's `String::push`, which vstd does not specify; the contract
/// claims what its documentation says: the text afterwards is the old text
/// with `c` appended.
#[verifier::external_body]
pub(crate) fn push_char(s: &mut String, c: char)
    ensures
        final(s)@ == old(s)@.push(c),
{
    s.push(c);
}

/// `s` begins with `p`.
pub open spec fn starts_with(s: Seq<char>, p: Seq<char>) -> bool {
    p.len() <= s.len() && s.subrange(0, p.len() as int) == p
}

/// `s` with leading white space removed (`str::trim_start`).
pub open spec fn trim_start(s: Seq<char>) -> Seq<char>
    decreases s.len(),
{
    if s.len() > 0 && is_ws(s[0]) {
        trim_start(s.drop_first())
    } else {
        s
    }
}

/// `s` with trailing white space removed (`str::trim_end`).
pub open spec fn trim_end(s: Seq<char>) -> Seq<char>
    decreases s.len(),
{
    if s.len() > 0 && is_ws(s.last()) {
        trim_end(s.drop_last())
    } else {
        s
    }
}

/// `s` with white space removed at both ends (`str::trim`).
pub open spec fn trim(s: Seq<char>) -> Seq<char> {
    trim_end(trim_start(s))
}

/// Whether two strings hold the same characters.
pub fn str_eq(a: &str, b: &str) -> (r: bool)
    ensures
        r == (a@ == b@),
{
    let n = a.unicode_len();
    if n != b.unicode_len() {
        return false;
    }
    let mut i: usize = 0;
    while i < n
        invariant
            n == a@.len(),
            n == b@.len(),
            0 <= i <= n,
            forall|k: int| 0 <= k < i ==> a@[k] == b@[k],
        decreases n - i,
    {
        if a.get_char(i) != b.get_char(i) {
            return false;
        }
        i += 1;
    }
    assert(a@ =~= b@);
    true
}

/// Whether `s` begins with `p` (`str::starts_with`).
pub fn str_starts_with(s: &str, p: &str) -> (r: bool)
    ensures
        r == starts_with(s@, p@),
{
    let n = s.unicode_len();
    let m = p.unicode_len();
    if m > n {
        return false;
    }
    let mut i: usize = 0;
    while i < m
        invariant
            n == s@.len(),
            m == p@.len(),
            m <= n,
            0 <= i <= m,
            forall|k: int| 0 <= k < i ==> s@[k] == p@[k],
        decreases m - i,
    {
        if s.get_char(i) != p.get_char(i) {
            assert(s@.subrange(0, m as int)[i as int] != p@[i as int]);
            return false;
        }
        i += 1;
    }
    assert(s@.subrange(0, m as int) =~= p@);
    true
}

/// The rest of `s` after the prefix `p`, when `s` begins with it
/// (`str::strip_prefix`).
pub fn str_strip_prefix(s: &str, p: &str) -> (r: Option<String>)
    ensures
        starts_with(s@, p@) ==> (r matches Some(t) && t@ == s@.subrange(p@.len() as int, s@.len() as int)),
        !starts_with(s@, p@) ==> r is None,
{
    if str_starts_with(s, p) {
        let n = s.unicode_len();
        let m = p.unicode_len();
        Some(String::from_str(s.substring_char(m, n)))
    } else {
        None
    }
}

proof fn lemma_trim_start_skip(s: Seq<char>, i: int)
    requires
        0 <= i < s.len(),
        is_ws(s[i]),
    ensures
        trim_start(s.subrange(i, s.len() as int)) == trim_start(s.subrange(i + 1, s.len() as int)),
{
    let t = s.subrange(i, s.len() as int);
    assert(t.drop_first() =~= s.subrange(i + 1, s.len() as int));
}

proof fn lemma_trim_end_skip(s: Seq<char>, i: int, j: int)
    requires
        0 <= i < j <= s.len(),
        is_ws(s[j - 1]),
    ensures
        trim_end(s.subrange(i, j)) == trim_end(s.subrange(i, j - 1)),
{
    let t = s.subrange(i, j);
    assert(t.drop_last() =~= s.subrange(i, j - 1));
}

/// `s` without white space at either end (`str::trim`).
pub fn trim_str(s: &str) -> (r: String)
    ensures
        r@ == trim(s@),
{
    let n = s.unicode_len();
    let mut i: usize = 0;
    assert(s@.subrange(0, n as int) =~= s@);
    while i < n && is_whitespace(s.get_char(i))
        invariant
            n == s@.len(),
            0 <= i <= n,
            trim_start(s@) == trim_start(s@.subrange(i as int, n as int)),
        decreases n - i,
    {
        proof {
            lemma_trim_start_skip(s@, i as int);
        }
        i += 1;
    }
    assert(trim_start(s@) == s@.subrange(i as int, n as int));
    let mut j: usize = n;
    while j > i && is_whitespace(s.get_char(j - 1))
        invariant
            n == s@.len(),
            0 <= i <= j <= n,
            trim_end(s@.subrange(i as int, n as int)) == trim_end(s@.subrange(i as int, j as int)),
        decreases j - i,
    {
        proof {
            lemma_trim_end_skip(s@, i as int, j as int);
        }
        j -= 1;
    }
    proof {
        let t = s@.subrange(i as int, j as int);
        if t.len() > 0 {
            assert(t.last() == s@[j - 1]);
        }
    }
    String::from_str(s.substring_char(i, j))
}

/// Every character of `s` is an ASCII digit.
pub open spec fn all_digits(s: Seq<char>) -> bool {
    forall|i: int| 0 <= i < s.len() ==> is_digit(#[trigger] s[i])
}

/// The number the decimal digits `s` spell.
pub open spec fn digits_value(s: Seq<char>) -> nat
    decreases s.len(),
{
    if s.len() == 0 {
        0
    } else {
        digits_value(s.drop_last()) * 10 + (digit_value(s.last()) as nat)
    }
}

/// Value of a signed decimal literal, the text `i64::from_str` and its kin
/// accept: an optional `+` (or, when `signed`, `-`) and then at least one
/// digit; `None` for anything else or a value outside `lo..=hi`.
pub open spec fn parse_int(s: Seq<char>, signed: bool, lo: int, hi: int) -> Option<int> {
    let neg = s.len() > 0 && s[0] == '-';
    let plus = s.len() > 0 && s[0] == '+';
    let body = if neg || plus { s.drop_first() } else { s };
    if s.len() == 0 || (neg && !signed) || body.len() == 0 || !all_digits(body) {
        None
    } else {
        let v: int = if neg { -(digits_value(body) as int) } else { digits_value(body) as int };
        if lo <= v && v <= hi { Some(v) } else { None }
    }
}

pub open spec fn parse_i64_spec(s: Seq<char>) -> Option<i64> {
    match parse_int(s, true, i64::MIN as int, i64::MAX as int) {
        Some(v) => Some(v as i64),
        None => None,
    }
}

pub open spec fn parse_i32_spec(s: Seq<char>) -> Option<i32> {
    match parse_int(s, true, i32::MIN as int, i32::MAX as int) {
        Some(v) => Some(v as i32),
        None => None,
    }
}

pub open spec fn parse_u128_spec(s: Seq<char>) -> Option<u128> {
    match parse_int(s, false, 0, u128::MAX as int) {
        Some(v) => Some(v as u128),
        None => None,
    }
}

proof fn lemma_digits_value_push(s: Seq<char>, i: int)
    requires
        0 <= i < s.len(),
    ensures
        digits_value(s.subrange(0, i + 1)) == digits_value(s.subrange(0, i)) * 10 + (digit_value(s[i]) as nat),
{
    let t = s.subrange(0, i + 1);
    assert(t.drop_last() =~= s.subrange(0, i));
}

/// Value of the digits `s[from..]` when they are all digits and the value
/// fits in a `u128`; `None` otherwise (also when there are none).
fn digits_u128(s: &str, from: usize) -> (r: Option<u128>)
    requires
        from <= s@.len(),
    ensures
        ({
            let body = s@.subrange(from as int, s@.len() as int);
            if body.len() > 0 && all_digits(body) && digits_value(body) <= u128::MAX {
                r == Some(digits_value(body) as u128)
            } else {
                r is None
            }
        }),
{
    let n = s.unicode_len();
    if from >= n {
        return None;
    }
    let ghost body = s@.subrange(from as int, n as int);
    let mut acc: u128 = 0;
    let mut i: usize = from;
    let mut overflow = false;
    assert(body.subrange(0, 0) =~= Seq::<char>::empty());
    while i < n
        invariant
            n == s@.len(),
            from < n,
            body == s@.subrange(from as int, n as int),
            from <= i <= n,
            all_digits(body.subrange(0, i - from)),
            !overflow ==> acc == digits_value(body.subrange(0, i - from)),
            overflow ==> digits_value(body.subrange(0, i - from)) > u128::MAX,
        decreases n - i,
    {
        let c = s.get_char(i);
        assert(c == body[i - from]);
        if !('0' <= c && c <= '9') {
            assert(!all_digits(body));
            return None;
        }
        let d = (c as u32 - '0' as u32) as u128;
        proof {
            lemma_digits_value_push(body, i - from);
            assert(body.subrange(0, i - from + 1) =~= body.subrange(0, i - from).push(c));
        }
        if !overflow {
            if acc > (u128::MAX - d) / 10 {
                overflow = true;
            } else {
                acc = acc * 10 + d;
            }
        }
        i += 1;
    }
    assert(body.subrange(0, n - from) =~= body);
    if overflow { None } else { Some(acc) }
}

/// `i64::from_str`.
pub fn parse_i64(s: &str) -> (r: Option<i64>)
    ensures
        r == parse_i64_spec(s@),
{
    let n = s.unicode_len();
    if n == 0 {
        return None;
    }
    let c0 = s.get_char(0);
    let neg = c0 == '-';
    let start: usize = if neg || c0 == '+' { 1 } else { 0 };
    assert(s@.subrange(start as int, n as int) =~= (if neg || c0 == '+' { s@.drop_first() } else { s@ }));
    match digits_u128(s, start) {
        None => None,
        Some(v) => {
            if neg {
                if v <= 9223372036854775808u128 {
                    if v == 9223372036854775808u128 {
                        Some(i64::MIN)
                    } else {
                        Some(-(v as i64))
                    }
                } else {
                    None
                }
            } else if v <= 9223372036854775807u128 {
                Some(v as i64)
            } else {
                None
            }
        }
    }
}

/// `i32::from_str`.
pub fn parse_i32(s: &str) -> (r: Option<i32>)
    ensures
        r == parse_i32_spec(s@),
{
    match parse_i64(s) {
        None => {
            proof {
                let n = s@.len();
            }
            None
        }
        Some(v) => {
            if i32::MIN as i64 <= v && v <= i32::MAX as i64 {
                Some(v as i32)
            } else {
                None
            }
        }
    }
}

/// `u128::from_str`.
pub fn parse_u128(s: &str) -> (r: Option<u128>)
    ensures
        r == parse_u128_spec(s@),
{
    let n = s.unicode_len();
    if n == 0 {
        return None;
    }
    let c0 = s.get_char(0);
    if c0 == '-' {
        return None;
    }
    let start: usize = if c0 == '+' { 1 } else { 0 };
    assert(s@.subrange(start as int, n as int) =~= (if c0 == '+' { s@.drop_first() } else { s@ }));
    digits_u128(s, start)
}

/// The digit character for `d` in base 16 (lowercase).
pub open spec fn digit_char(d: nat) -> char {
    if d < 10 {
        (('0' as nat) + d) as char
    } else {
        (('a' as nat) + d - 10) as char
    }
}

/// `n` written in `base` (2..=16) without leading zeros; `0` is `"0"`.
pub open spec fn radix_text(n: nat, base: nat) -> Seq<char>
    recommends
        2 <= base <= 16,
    decreases n,
{
    if base < 2 || n < base {
        seq![digit_char(n)]
    } else {
        proof {
            assert(n / base < n) by (nonlinear_arith)
                requires
                    base >= 2,
                    n >= base,
            ;
        }
        radix_text(n / base, base).push(digit_char(n % base))
    }
}

/// The decimal text of a signed integer, as `Display` writes it.
pub open spec fn decimal_text(v: int) -> Seq<char> {
    if v < 0 {
        seq!['-'] + radix_text((-v) as nat, 10)
    } else {
        radix_text(v as nat, 10)
    }
}

fn digit_of(d: u128) -> (c: char)
    requires
        d < 16,
    ensures
        c == digit_char(d as nat),
{
    if d < 10 {
        (('0' as u8) + (d as u8)) as char
    } else {
        (('a' as u8) + (d as u8) - 10) as char
    }
}

/// `n` in `base` (10 or 16), lowercase, as `format!("{n}")` / `format!("{n:x}")`.
pub fn radix_string(n: u128, base: u128) -> (r: String)
    requires
        base == 10 || base == 16,
    ensures
        r@ == radix_text(n as nat, base as nat),
{
    // Digits are produced least significant first, then reversed.
    let mut rev: Vec<char> = Vec::new();
    let mut m: u128 = n;
    let ghost mut suffix: Seq<char> = Seq::empty();
    while m >= base
        invariant
            base == 10 || base == 16,
            radix_text(n as nat, base as nat) == radix_text(m as nat, base as nat) + suffix,
            rev@.len() == suffix.len(),
            forall|k: int| 0 <= k < suffix.len() ==> rev@[k] == suffix[suffix.len() - 1 - k],
        decreases m,
    {
        let d = m % base;
        let c = digit_of(d);
        proof {
            assert(radix_text(m as nat, base as nat) == radix_text((m / base) as nat, base as nat).push(c));
            assert(radix_text((m / base) as nat, base as nat).push(c) + suffix
                =~= radix_text((m / base) as nat, base as nat) + (seq![c] + suffix));
            suffix = seq![c] + suffix;
        }
        rev.push(c);
        m = m / base;
    }
    let c = digit_of(m);
    rev.push(c);
    proof {
        assert(radix_text(m as nat, base as nat) == seq![c]);
        suffix = seq![c] + suffix;
    }
    let mut out = String::new();
    let len = rev.len();
    let mut k: usize = len;
    while k > 0
        invariant
            len == rev@.len(),
            len == suffix.len(),
            0 <= k <= len,
            forall|t: int| 0 <= t < suffix.len() ==> rev@[t] == suffix[suffix.len() - 1 - t],
            out@ == suffix.subrange(0, (len - k) as int),
        decreases k,
    {
        k -= 1;
        let c = rev[k];
        push_char(&mut out, c);
        assert(out@ =~= suffix.subrange(0, (len - k) as int));
    }
    assert(out@ =~= suffix);
    out
}

/// The decimal text of `v` (`v.to_string()` for an integer).
pub fn decimal_string(v: i128) -> (r: String)
    requires
        v > i128::MIN,
    ensures
        r@ == decimal_text(v as int),
{
    if v < 0 {
        let mut out = String::new();
        push_char(&mut out, '-');
        let digits = radix_string((-v) as u128, 10);
        out.append(digits.as_str());
        out
    } else {
        radix_string(v as u128, 10)
    }
}

/// `char::to_ascii_lowercase`.
pub open spec fn ascii_lower(c: char) -> char {
    if 'A' <= c && c <= 'Z' {
        ((c as u32) + 32) as char
    } else {
        c
    }
}

/// `str::to_ascii_lowercase`.
pub open spec fn lower(s: Seq<char>) -> Seq<char> {
    Seq::new(s.len(), |i: int| ascii_lower(s[i]))
}

/// `s` with ASCII letters lowered (`str::to_ascii_lowercase`).
pub fn to_ascii_lowercase(s: &str) -> (r: String)
    ensures
        r@ == lower(s@),
{
    let n = s.unicode_len();
    let mut out = String::new();
    let mut i: usize = 0;
    while i < n
        invariant
            n == s@.len(),
            0 <= i <= n,
            out@ == lower(s@.subrange(0, i as int)),
        decreases n - i,
    {
        let c = s.get_char(i);
        let l = if 'A' <= c && c <= 'Z' { ((c as u8) + 32) as char } else { c };
        push_char(&mut out, l);
        assert(out@ =~= lower(s@.subrange(0, i + 1)));
        i += 1;
    }
    assert(s@.subrange(0, n as int) =~= s@);
    out
}

/// Whether every character of `s` is an ASCII digit.
pub fn is_all_digits(s: &str) -> (r: bool)
    ensures
        r == all_digits(s@),
{
    let n = s.unicode_len();
    let mut i: usize = 0;
    while i < n
        invariant
            n == s@.len(),
            0 <= i <= n,
            forall|k: int| 0 <= k < i ==> is_digit(#[trigger] s@[k]),
        decreases n - i,
    {
        let c = s.get_char(i);
        if !('0' <= c && c <= '9') {
            return false;
        }
        i += 1;
    }
    true
}

/// Length of the run of non-white-space characters that begins `s`.
pub open spec fn word_len(s: Seq<char>) -> nat
    decreases s.len(),
{
    if s.len() > 0 && !is_ws(s[0]) {
        1 + word_len(s.drop_first())
    } else {
        0
    }
}

/// The first white-space separated word of `s`, empty when there is none.
pub open spec fn first_word(s: Seq<char>) -> Seq<char> {
    let t = trim_start(s);
    t.subrange(0, word_len(t) as int)
}

/// What follows the first word of `s`.
pub open spec fn after_first_word(s: Seq<char>) -> Seq<char> {
    let t = trim_start(s);
    t.subrange(word_len(t) as int, t.len() as int)
}

/// `s.split_whitespace().nth(1).unwrap_or_default()`.
pub open spec fn second_word(s: Seq<char>) -> Seq<char> {
    first_word(after_first_word(s))
}

proof fn lemma_word_len_bound(s: Seq<char>)
    ensures
        word_len(s) <= s.len(),
    decreases s.len(),
{
    if s.len() > 0 && !is_ws(s[0]) {
        lemma_word_len_bound(s.drop_first());
    }
}

proof fn lemma_word_len_step(s: Seq<char>, a: int, i: int)
    requires
        0 <= a <= i < s.len(),
        !is_ws(s[i]),
        word_len(s.subrange(a, s.len() as int)) == (i - a) + word_len(s.subrange(i, s.len() as int)),
    ensures
        word_len(s.subrange(a, s.len() as int)) == (i + 1 - a) + word_len(s.subrange(i + 1, s.len() as int)),
{
    let t = s.subrange(i, s.len() as int);
    assert(t.drop_first() =~= s.subrange(i + 1, s.len() as int));
}

proof fn lemma_trim_start_step(s: Seq<char>, i: int)
    requires
        0 <= i < s.len(),
        is_ws(s[i]),
    ensures
        trim_start(s.subrange(i, s.len() as int)) == trim_start(s.subrange(i + 1, s.len() as int)),
{
    let t = s.subrange(i, s.len() as int);
    assert(t.drop_first() =~= s.subrange(i + 1, s.len() as int));
}

/// Index of the first non-white-space character at or after `from`.
fn skip_ws(s: &str, from: usize) -> (r: usize)
    requires
        from <= s@.len(),
    ensures
        from <= r <= s@.len(),
        trim_start(s@.subrange(from as int, s@.len() as int)) == s@.subrange(r as int, s@.len() as int),
{
    let n = s.unicode_len();
    let mut i = from;
    while i < n && is_whitespace(s.get_char(i))
        invariant
            n == s@.len(),
            from <= i <= n,
            trim_start(s@.subrange(from as int, n as int)) == trim_start(s@.subrange(i as int, n as int)),
        decreases n - i,
    {
        proof {
            lemma_trim_start_step(s@, i as int);
        }
        i += 1;
    }
    i
}

/// Index just past the word that starts at `from`.
fn skip_word(s: &str, from: usize) -> (r: usize)
    requires
        from <= s@.len(),
    ensures
        from <= r <= s@.len(),
        r - from == word_len(s@.subrange(from as int, s@.len() as int)),
{
    let n = s.unicode_len();
    let mut i = from;
    while i < n && !is_whitespace(s.get_char(i))
        invariant
            n == s@.len(),
            from <= i <= n,
            word_len(s@.subrange(from as int, n as int)) == (i - from) + word_len(s@.subrange(i as int, n as int)),
        decreases n - i,
    {
        proof {
            lemma_word_len_step(s@, from as int, i as int);
        }
        i += 1;
    }
    i
}

/// The second white-space separated word of `s`, or empty
/// (`s.split_whitespace().nth(1).unwrap_or_default()`).
pub fn second_word_of(s: &str) -> (r: String)
    ensures
        r@ == second_word(s@),
{
    let n = s.unicode_len();
    assert(s@.subrange(0, n as int) =~= s@);
    let a = skip_ws(s, 0);
    let b = skip_word(s, a);
    let ghost t = trim_start(s@);
    proof {
        assert(t == s@.subrange(a as int, n as int));
        assert(t.subrange(word_len(t) as int, t.len() as int) =~= s@.subrange(b as int, n as int));
    }
    let c = skip_ws(s, b);
    let d = skip_word(s, c);
    proof {
        let u = after_first_word(s@);
        assert(u == s@.subrange(b as int, n as int));
        let v = trim_start(u);
        assert(v == s@.subrange(c as int, n as int));
        assert(v.subrange(0, word_len(v) as int) =~= s@.subrange(c as int, d as int));
    }
    String::from_str(s.substring_char(c, d))
}

} // verus!
