//! Character-level string helpers shared by the parsers and formatters of the
//! library, each stated over the `Seq<char>` view of the strings involved.

use vstd::prelude::*;
use vstd::string::*;

verus! {

/// Appends one character to a string.
///
/// Trusted: calls `String::push`, which std documents as appending the given
/// `char` to the end of the string; nothing else of the string changes.
#[verifier::external_body]
pub(crate) fn push_char(s: &mut String, c: char)
    ensures
        final(s)@ == old(s)@.push(c),
{
    s.push(c);
}

/// Appends every character of `suffix` to `s`.
pub fn push_str(s: &mut String, suffix: &str)
    ensures
        final(s)@ == old(s)@ + suffix@,
{
    s.append(suffix);
}

/// Returns the characters of a string slice as a vector.
pub fn chars_of(s: &str) -> (v: Vec<char>)
    ensures
        v@ == s@,
{
    broadcast use vstd::string::axiom_spec_iter;

    let mut v: Vec<char> = Vec::new();
    for c in it: s.chars()
        invariant
            it.seq() == s@,
            v@ == it.seq().take(it.index() as int),
    {
        v.push(c);
    }
    v
}

/// Builds an owned string from a slice of characters.
pub fn string_from_chars(chars: &[char]) -> (s: String)
    ensures
        s@ == chars@,
{
    let mut s = String::new();
    let n = chars.len();
    let mut i: usize = 0;
    while i < n
        invariant
            n == chars@.len(),
            i <= n,
            s@ == chars@.take(i as int),
        decreases n - i,
    {
        push_char(&mut s, chars[i]);
        assert(chars@.take(i + 1) =~= chars@.take(i as int).push(chars@[i as int]));
        i = i + 1;
    }
    assert(chars@.take(n as int) =~= chars@);
    s
}

/// Builds an owned string with the characters of a string slice.
pub fn owned(s: &str) -> (r: String)
    ensures
        r@ == s@,
{
    let mut r = String::new();
    push_str(&mut r, s);
    r
}

/// Copies a string.
pub fn copy_string(s: &String) -> (r: String)
    ensures
        r@ == s@,
{
    s.clone()
}

/// Compares two character sequences for equality.
pub fn chars_eq(a: &[char], b: &[char]) -> (r: bool)
    ensures
        r == (a@ == b@),
{
    if a.len() != b.len() {
        return false;
    }
    let n = a.len();
    let mut i: usize = 0;
    while i < n
        invariant
            n == a@.len(),
            n == b@.len(),
            i <= n,
            forall|j: int| 0 <= j < i ==> a@[j] == b@[j],
        decreases n - i,
    {
        if a[i] != b[i] {
            return false;
        }
        i = i + 1;
    }
    assert(a@ =~= b@);
    true
}

/// Compares two string slices for equality of their characters.
pub fn str_eq(a: &str, b: &str) -> (r: bool)
    ensures
        r == (a@ == b@),
{
    let x = chars_of(a);
    let y = chars_of(b);
    chars_eq(x.as_slice(), y.as_slice())
}

/// Whether `s` begins with `prefix`.
pub open spec fn seq_starts_with(s: Seq<char>, prefix: Seq<char>) -> bool {
    prefix.len() <= s.len() && s.take(prefix.len() as int) == prefix
}

/// Tests whether the characters `s` begin with the characters `prefix`.
pub fn chars_start_with(s: &[char], prefix: &[char]) -> (r: bool)
    ensures
        r == seq_starts_with(s@, prefix@),
{
    if prefix.len() > s.len() {
        return false;
    }
    let n = prefix.len();
    let mut i: usize = 0;
    while i < n
        invariant
            n == prefix@.len(),
            n <= s@.len(),
            i <= n,
            forall|j: int| 0 <= j < i ==> s@[j] == prefix@[j],
        decreases n - i,
    {
        if s[i] != prefix[i] {
            assert(s@.take(n as int)[i as int] != prefix@[i as int]);
            return false;
        }
        i = i + 1;
    }
    assert(s@.take(n as int) =~= prefix@);
    true
}

/// The decimal digit character for a value below ten.
pub open spec fn digit_char(d: nat) -> char {
    if d == 0 {
        '0'
    } else if d == 1 {
        '1'
    } else if d == 2 {
        '2'
    } else if d == 3 {
        '3'
    } else if d == 4 {
        '4'
    } else if d == 5 {
        '5'
    } else if d == 6 {
        '6'
    } else if d == 7 {
        '7'
    } else if d == 8 {
        '8'
    } else {
        '9'
    }
}

/// The decimal digits of a natural number, most significant first, without
/// leading zeros (zero itself is `"0"`).
pub open spec fn nat_decimal(n: nat) -> Seq<char>
    decreases n,
{
    if n < 10 {
        seq![digit_char(n)]
    } else {
        nat_decimal(n / 10).push(digit_char(n % 10))
    }
}

/// The decimal text of an integer, as Rust's `Display` writes it.
pub open spec fn int_decimal(n: int) -> Seq<char> {
    if n < 0 {
        seq!['-'] + nat_decimal((-n) as nat)
    } else {
        nat_decimal(n as nat)
    }
}

fn digit_of(d: u64) -> (c: char)
    requires
        d < 10,
    ensures
        c == digit_char(d as nat),
{
    if d == 0 {
        '0'
    } else if d == 1 {
        '1'
    } else if d == 2 {
        '2'
    } else if d == 3 {
        '3'
    } else if d == 4 {
        '4'
    } else if d == 5 {
        '5'
    } else if d == 6 {
        '6'
    } else if d == 7 {
        '7'
    } else if d == 8 {
        '8'
    } else {
        '9'
    }
}

/// Appends the decimal digits of `n` to `s`.
pub fn push_decimal_u64(s: &mut String, n: u64)
    ensures
        final(s)@ == old(s)@ + nat_decimal(n as nat),
    decreases n,
{
    if n >= 10 {
        push_decimal_u64(s, n / 10);
    }
    push_char(s, digit_of(n % 10));
}

/// Appends the decimal text of `n` to `s`.
pub fn push_decimal_i64(s: &mut String, n: i64)
    ensures
        final(s)@ == old(s)@ + int_decimal(n as int),
{
    if n < 0 {
        push_char(s, '-');
        let magnitude: u64 = if n == i64::MIN {
            9223372036854775808u64
        } else {
            (-n) as u64
        };
        push_decimal_u64(s, magnitude);
        assert(final(s)@ =~= old(s)@ + (seq!['-'] + nat_decimal((-n) as nat)));
    } else {
        push_decimal_u64(s, n as u64);
    }
}

/// `prefix`, the decimal text of `n`, then `suffix`.
pub fn decimal_between(prefix: &str, n: i64, suffix: &str) -> (r: String)
    ensures
        r@ == prefix@ + int_decimal(n as int) + suffix@,
{
    let mut r = String::new();
    push_str(&mut r, prefix);
    push_decimal_i64(&mut r, n);
    push_str(&mut r, suffix);
    r
}

/// Whether `c` is a Unicode `White_Space` character, as `char::is_whitespace`
/// decides.
pub open spec fn is_whitespace(c: char) -> bool {
    ||| c == '\t'
    ||| c == '\n'
    ||| c == '\u{0B}'
    ||| c == '\u{0C}'
    ||| c == '\r'
    ||| c == ' '
    ||| c == '\u{85}'
    ||| c == '\u{A0}'
    ||| c == '\u{1680}'
    ||| ('\u{2000}' <= c && c <= '\u{200A}')
    ||| c == '\u{2028}'
    ||| c == '\u{2029}'
    ||| c == '\u{202F}'
    ||| c == '\u{205F}'
    ||| c == '\u{3000}'
}

fn char_is_whitespace(c: char) -> (r: bool)
    ensures
        r == is_whitespace(c),
{
    c == '\t' || c == '\n' || c == '\u{0B}' || c == '\u{0C}' || c == '\r' || c == ' ' || c
        == '\u{85}' || c == '\u{A0}' || c == '\u{1680}' || ('\u{2000}' <= c && c <= '\u{200A}')
        || c == '\u{2028}' || c == '\u{2029}' || c == '\u{202F}' || c == '\u{205F}' || c
        == '\u{3000}'
}

/// Number of leading whitespace characters of `s`.
pub open spec fn leading_ws(s: Seq<char>) -> nat
    decreases s.len(),
{
    if s.len() > 0 && is_whitespace(s[0]) {
        1 + leading_ws(s.drop_first())
    } else {
        0
    }
}

/// Number of trailing whitespace characters of `s`.
pub open spec fn trailing_ws(s: Seq<char>) -> nat
    decreases s.len(),
{
    if s.len() > 0 && is_whitespace(s.last()) {
        1 + trailing_ws(s.drop_last())
    } else {
        0
    }
}

/// `s` without leading and trailing whitespace, as `str::trim` gives it.
pub open spec fn trim_seq(s: Seq<char>) -> Seq<char> {
    let front = s.skip(leading_ws(s) as int);
    front.take(front.len() - trailing_ws(front))
}

/// Whether every character of `s` is whitespace.
pub open spec fn all_whitespace(s: Seq<char>) -> bool {
    forall|i: int| 0 <= i < s.len() ==> is_whitespace(#[trigger] s[i])
}

proof fn lemma_leading_ws_padded(pre: Seq<char>, m: Seq<char>)
    requires
        all_whitespace(pre),
        m.len() > 0,
        !is_whitespace(m[0]),
    ensures
        leading_ws(pre + m) == pre.len(),
    decreases pre.len(),
{
    if pre.len() == 0 {
        assert(pre + m =~= m);
    } else {
        assert((pre + m)[0] == pre[0]);
        assert((pre + m).drop_first() =~= pre.drop_first() + m);
        lemma_leading_ws_padded(pre.drop_first(), m);
    }
}

proof fn lemma_trailing_ws_padded(m: Seq<char>, post: Seq<char>)
    requires
        all_whitespace(post),
        m.len() > 0,
        !is_whitespace(m.last()),
    ensures
        trailing_ws(m + post) == post.len(),
    decreases post.len(),
{
    if post.len() == 0 {
        assert(m + post =~= m);
    } else {
        assert((m + post).last() == post.last());
        assert((m + post).drop_last() =~= m + post.drop_last());
        lemma_trailing_ws_padded(m, post.drop_last());
    }
}

/// Trimming text that whitespace surrounds gives the text, when it neither
/// starts nor ends with whitespace itself.
pub proof fn lemma_trim_padded(pre: Seq<char>, n: Seq<char>, post: Seq<char>)
    requires
        all_whitespace(pre),
        all_whitespace(post),
        n.len() > 0,
        !is_whitespace(n[0]),
        !is_whitespace(n.last()),
    ensures
        trim_seq(pre + n + post) == n,
{
    let s = pre + n + post;
    assert(s =~= pre + (n + post));
    assert((n + post)[0] == n[0]);
    lemma_leading_ws_padded(pre, n + post);
    let front = s.skip(pre.len() as int);
    assert(front =~= n + post);
    lemma_trailing_ws_padded(n, post);
    assert(front.take(front.len() - post.len()) =~= n);
}

proof fn lemma_leading_ws_bound(s: Seq<char>)
    ensures
        leading_ws(s) <= s.len(),
    decreases s.len(),
{
    if s.len() > 0 && is_whitespace(s[0]) {
        lemma_leading_ws_bound(s.drop_first());
    }
}

proof fn lemma_trailing_ws_bound(s: Seq<char>)
    ensures
        trailing_ws(s) <= s.len(),
    decreases s.len(),
{
    if s.len() > 0 && is_whitespace(s.last()) {
        lemma_trailing_ws_bound(s.drop_last());
    }
}

/// Returns the characters of `s` with surrounding whitespace removed.
pub fn trim_chars(s: &[char]) -> (r: Vec<char>)
    ensures
        r@ == trim_seq(s@),
{
    let n = s.len();
    let mut start: usize = 0;
    assert(s@.skip(0) =~= s@);
    while start < n && char_is_whitespace(s[start])
        invariant
            n == s@.len(),
            start <= n,
            leading_ws(s@) == start + leading_ws(s@.skip(start as int)),
        decreases n - start,
    {
        assert(s@.skip(start + 1) =~= s@.skip(start as int).drop_first());
        start = start + 1;
    }
    assert(leading_ws(s@.skip(start as int)) == 0) by {
        if start < n {
            assert(s@.skip(start as int)[0] == s@[start as int]);
        }
    }
    let ghost front = s@.skip(start as int);
    let mut end: usize = n;
    assert(front.take(n - start) =~= front);
    while end > start && char_is_whitespace(s[end - 1])
        invariant
            n == s@.len(),
            start <= end <= n,
            front == s@.skip(start as int),
            trailing_ws(front) == (n - end) + trailing_ws(front.take(end - start)),
        decreases end,
    {
        assert(front.take(end - start).last() == s@[end - 1]);
        assert(front.take(end - 1 - start) =~= front.take(end - start).drop_last());
        end = end - 1;
    }
    assert(trailing_ws(front.take(end - start)) == 0) by {
        if end > start {
            assert(front.take(end - start).last() == s@[end - 1]);
        }
    }
    let mut r: Vec<char> = Vec::new();
    let mut i: usize = start;
    while i < end
        invariant
            n == s@.len(),
            start <= i <= end <= n,
            r@ == s@.subrange(start as int, i as int),
        decreases end - i,
    {
        r.push(s[i]);
        assert(s@.subrange(start as int, i + 1) =~= s@.subrange(start as int, i as int).push(
            s@[i as int],
        ));
        i = i + 1;
    }
    assert(r@ =~= trim_seq(s@));
    r
}

/// Whether `c` is an ASCII decimal digit.
pub open spec fn is_digit(c: char) -> bool {
    '0' <= c && c <= '9'
}

/// Whether every character of `s` is an ASCII decimal digit.
pub open spec fn all_digits(s: Seq<char>) -> bool {
    forall|i: int| 0 <= i < s.len() ==> is_digit(#[trigger] s[i])
}

/// The value of a run of decimal digits.
pub open spec fn digits_value(s: Seq<char>) -> int
    decreases s.len(),
{
    if s.len() == 0 {
        0
    } else {
        digits_value(s.drop_last()) * 10 + (s.last() as int - '0' as int)
    }
}

/// What `i32::from_str` gives for the characters `s`: an optional sign, one
/// or more ASCII digits, and a value within the range of `i32`.
pub open spec fn parse_i32_spec(s: Seq<char>) -> Option<i32> {
    let negative = s.len() > 0 && s[0] == '-';
    let signed = s.len() > 0 && (s[0] == '-' || s[0] == '+');
    let digits = if signed {
        s.drop_first()
    } else {
        s
    };
    let value = if negative {
        -digits_value(digits)
    } else {
        digits_value(digits)
    };
    if digits.len() > 0 && all_digits(digits) && i32::MIN <= value <= i32::MAX {
        Some(value as i32)
    } else {
        None
    }
}

proof fn lemma_digits_value_nonneg(s: Seq<char>)
    requires
        all_digits(s),
    ensures
        digits_value(s) >= 0,
    decreases s.len(),
{
    if s.len() > 0 {
        assert(all_digits(s.drop_last()));
        lemma_digits_value_nonneg(s.drop_last());
    }
}

proof fn lemma_digits_value_grows(s: Seq<char>, i: int)
    requires
        all_digits(s),
        0 <= i <= s.len(),
    ensures
        digits_value(s) >= digits_value(s.take(i)),
    decreases s.len(),
{
    if i < s.len() {
        assert(all_digits(s.drop_last()));
        assert(s.drop_last().take(i) =~= s.take(i));
        lemma_digits_value_grows(s.drop_last(), i);
        lemma_digits_value_nonneg(s.drop_last());
    } else {
        assert(s.take(i) =~= s);
    }
}

/// Parses a signed 32-bit decimal integer as `i32::from_str` does.
pub fn parse_i32(s: &[char]) -> (r: Option<i32>)
    ensures
        r == parse_i32_spec(s@),
{
    let n = s.len();
    if n == 0 {
        return None;
    }
    let negative = s[0] == '-';
    let signed = s[0] == '-' || s[0] == '+';
    let start: usize = if signed {
        1
    } else {
        0
    };
    let ghost digits = if signed {
        s@.drop_first()
    } else {
        s@
    };
    assert(digits =~= s@.skip(start as int));
    if start == n {
        return None;
    }
    let mut acc: i64 = 0;
    let mut i: usize = start;
    while i < n
        invariant
            n == s@.len(),
            start <= i <= n,
            digits == s@.skip(start as int),
            0 < n,
            negative == (s@[0] == '-'),
            signed == (s@[0] == '-' || s@[0] == '+'),
            digits == if signed {
                s@.drop_first()
            } else {
                s@
            },
            start < n,
            all_digits(digits.take(i - start)),
            acc == digits_value(digits.take(i - start)),
            0 <= acc <= 2147483648,
        decreases n - i,
    {
        let c = s[i];
        if !('0' <= c && c <= '9') {
            assert(digits[i - start] == c);
            assert(!all_digits(digits));
            return None;
        }
        let d = (c as u32 - '0' as u32) as i64;
        let ghost prev = digits.take(i - start);
        let ghost next = digits.take(i + 1 - start);
        assert(next.drop_last() =~= prev);
        assert(next.last() == c);
        assert(all_digits(next));
        let next_acc = acc * 10 + d;
        if next_acc > 2147483648 {
            assert(digits_value(next) == next_acc);
            proof {
                let k = (i + 1 - start) as int;
                if digits.len() > 0 && all_digits(digits) {
                    lemma_digits_value_grows(digits, k);
                }
            }
            return None;
        }
        acc = next_acc;
        i = i + 1;
    }
    assert(digits.take(n - start) =~= digits);
    if negative {
        Some((-acc) as i32)
    } else if acc > 2147483647 {
        None
    } else {
        Some(acc as i32)
    }
}

/// Tests whether the characters of `s` from position `at` on begin with
/// `prefix`.
pub fn chars_start_with_at(s: &[char], at: usize, prefix: &[char]) -> (r: bool)
    requires
        at <= s@.len(),
    ensures
        r == seq_starts_with(s@.skip(at as int), prefix@),
{
    let n = prefix.len();
    let len = s.len();
    if n > len - at {
        return false;
    }
    let mut i: usize = 0;
    while i < n
        invariant
            n == prefix@.len(),
            len == s@.len(),
            at + n <= len,
            i <= n,
            forall|j: int| 0 <= j < i ==> s@[at + j] == prefix@[j],
        decreases n - i,
    {
        let k = at + i;
        if s[k] != prefix[i] {
            assert(s@.skip(at as int).take(n as int)[i as int] != prefix@[i as int]);
            return false;
        }
        i = i + 1;
    }
    assert(s@.skip(at as int).take(n as int) =~= prefix@);
    true
}

/// The characters of `s` from position `at` on.
pub fn chars_from(s: &[char], at: usize) -> (r: Vec<char>)
    requires
        at <= s@.len(),
    ensures
        r@ == s@.skip(at as int),
{
    let n = s.len();
    let mut r: Vec<char> = Vec::new();
    let mut i = at;
    while i < n
        invariant
            n == s@.len(),
            at <= i <= n,
            r@ == s@.subrange(at as int, i as int),
        decreases n - i,
    {
        r.push(s[i]);
        assert(s@.subrange(at as int, i + 1) =~= s@.subrange(at as int, i as int).push(s@[i as int]));
        i = i + 1;
    }
    assert(r@ =~= s@.skip(at as int));
    r
}

/// The views of a sequence of strings.
pub open spec fn strings_view(v: Seq<String>) -> Seq<Seq<char>> {
    v.map_values(|s: String| s@)
}

/// The view of an optional string.
pub open spec fn opt_string_view(o: Option<String>) -> Option<Seq<char>> {
    match o {
        Some(s) => Some(s@),
        None => None,
    }
}

/// The view of an optional string, the empty text standing for `None`.
pub open spec fn string_or_empty(o: Option<String>) -> Seq<char> {
    match o {
        Some(s) => s@,
        None => Seq::empty(),
    }
}

/// `None` for the empty text, otherwise the text itself.
pub open spec fn non_empty(s: Seq<char>) -> Option<Seq<char>> {
    if s.len() == 0 {
        None
    } else {
        Some(s)
    }
}

/// Copies a vector of strings.
pub fn copy_strings(v: &Vec<String>) -> (r: Vec<String>)
    ensures
        strings_view(r@) == strings_view(v@),
{
    let mut r: Vec<String> = Vec::new();
    let n = v.len();
    let mut i: usize = 0;
    while i < n
        invariant
            n == v@.len(),
            i <= n,
            r@.len() == i,
            forall|j: int| 0 <= j < i ==> #[trigger] r@[j]@ == v@[j]@,
        decreases n - i,
    {
        r.push(v[i].clone());
        i = i + 1;
    }
    assert(strings_view(r@) =~= strings_view(v@));
    r
}

/// Copies an optional string.
pub fn copy_opt_string(o: &Option<String>) -> (r: Option<String>)
    ensures
        opt_string_view(r) == opt_string_view(*o),
{
    match o {
        Some(s) => Some(s.clone()),
        None => None,
    }
}

/// `None` for an empty string, otherwise a copy of it.
pub fn non_empty_string(s: &String) -> (r: Option<String>)
    ensures
        opt_string_view(r) == non_empty(s@),
{
    if s.as_str().is_empty() {
        None
    } else {
        Some(s.clone())
    }
}

/// Whether a string has no characters.
pub fn string_is_empty(s: &String) -> (r: bool)
    ensures
        r == (s@.len() == 0),
{
    s.as_str().is_empty()
}

/// The string held by an option, or the empty string.
pub fn unwrap_or_empty(o: &Option<String>) -> (r: String)
    ensures
        r@ == string_or_empty(*o),
{
    match o {
        Some(s) => s.clone(),
        None => String::new(),
    }
}

} // verus!
