//! Character-level text handling: punctuation stripping, lower-casing,
//! splitting on whitespace and decimal numbers.
use vstd::prelude::*;

verus! {

broadcast use vstd::string::group_string_axioms;

// ---------------------------------------------------------------------------
// Trusted access to the standard library
// ---------------------------------------------------------------------------

/// Appends one character to a string.
///
/// Calls `String::push`, which the standard library documents as appending
/// the given `char` to the end of the `String`.
#[verifier::external_body]
pub(crate) fn push_char(s: &mut String, c: char)
    ensures
        final(s)@ == old(s)@.push(c),
{
    s.push(c);
}

/// What `str::to_lowercase` returns for a string.  The full Unicode case
/// mapping (with its context-dependent special cases) is not written out here.
pub uninterp spec fn lowercase_of(s: Seq<char>) -> Seq<char>;

/// The lower-case mapping of a single ASCII character.
pub open spec fn ascii_lower_char(c: char) -> char {
    if 'A' <= c && c <= 'Z' {
        ((c as int) + 32) as char
    } else {
        c
    }
}

/// The upper-case mapping of a single ASCII character.
pub open spec fn ascii_upper_char(c: char) -> char {
    if 'a' <= c && c <= 'z' {
        ((c as int) - 32) as char
    } else {
        c
    }
}

/// Per-character ASCII upper-casing (what `str::to_ascii_uppercase` gives).
pub open spec fn ascii_uppercase(s: Seq<char>) -> Seq<char> {
    s.map_values(|c: char| ascii_upper_char(c))
}

/// Per-character ASCII lower-casing.
pub open spec fn ascii_lowercase(s: Seq<char>) -> Seq<char> {
    s.map_values(|c: char| ascii_lower_char(c))
}

/// Lower-cases a string.
///
/// Calls `str::to_lowercase`.  The result is named `lowercase_of` of the
/// argument (the standard library computes it from the string alone).  For a
/// string made of ASCII characters only, the Unicode lower-case mapping that
/// the standard library documents it uses maps `A`..`Z` to `a`..`z` and keeps
/// every other ASCII character, which the second clause states.  Nothing is
/// stated of non-ASCII input beyond the name.
#[verifier::external_body]
pub(crate) fn to_lowercase(s: &str) -> (r: String)
    ensures
        r@ == lowercase_of(s@),
        vstd::utf8::is_ascii_chars(s@) ==> r@ == ascii_lowercase(s@),
{
    s.to_lowercase()
}

// ---------------------------------------------------------------------------
// Comparing and filtering
// ---------------------------------------------------------------------------

/// Character-wise equality of two string slices.
pub fn equals(a: &str, b: &str) -> (r: bool)
    ensures
        r == (a@ == b@),
{
    let n = a.unicode_len();
    let m = b.unicode_len();
    if n != m {
        return false;
    }
    let mut i: usize = 0;
    while i < n
        invariant
            n == a@.len(),
            n == b@.len(),
            i <= n,
            forall|j: int| 0 <= j < i ==> a@[j] == b@[j],
        decreases n - i,
    {
        if a.get_char(i) != b.get_char(i) {
            return false;
        }
        i = i + 1;
    }
    assert(a@ =~= b@);
    true
}

/// The characters that `remove_punctuation` drops.
pub open spec fn is_punctuation(c: char) -> bool {
    c == '.' || c == ',' || c == ';' || c == ':' || c == '!' || c == '?' || c == '\''
        || c == '"' || c == '\\' || c == '/' || c == '<' || c == '>' || c == '~' || c == '('
        || c == ')' || c == '{' || c == '}' || c == '[' || c == ']'
}

/// `s` with every punctuation character removed, the rest kept in order.
pub open spec fn without_punctuation(s: Seq<char>) -> Seq<char> {
    s.filter(|c: char| !is_punctuation(c))
}

/// Removes the punctuation characters `. , ; : ! ? ' " \ / < > ~ ( ) { } [ ]`
/// from a string, keeping every other character in order.
pub fn remove_punctuation(s: &str) -> (r: String)
    ensures
        r@ == without_punctuation(s@),
{
    let mut r = String::new();
    let mut i: usize = 0;
    let n = s.unicode_len();
    while i < n
        invariant
            n == s@.len(),
            i <= n,
            r@ == without_punctuation(s@.take(i as int)),
        decreases n - i,
    {
        let c = s.get_char(i);
        assert(s@.take(i + 1).drop_last() == s@.take(i as int));
        reveal_with_fuel(Seq::filter, 1);
        let p = c == '.' || c == ',' || c == ';' || c == ':' || c == '!' || c == '?' || c == '\''
            || c == '"' || c == '\\' || c == '/' || c == '<' || c == '>' || c == '~' || c == '('
            || c == ')' || c == '{' || c == '}' || c == '[' || c == ']';
        if !p {
            push_char(&mut r, c);
        }
        i = i + 1;
    }
    assert(s@.take(n as int) == s@);
    r
}

/// `s` with every double quote removed.
pub open spec fn without_double_quotes(s: Seq<char>) -> Seq<char> {
    s.filter(|c: char| c != '"')
}

/// Removes every `"` from a string (the `replace('"', "")` that the bot
/// applies to JSON-rendered values).
pub fn remove_double_quotes(s: &str) -> (r: String)
    ensures
        r@ == without_double_quotes(s@),
{
    let mut r = String::new();
    let mut i: usize = 0;
    let n = s.unicode_len();
    while i < n
        invariant
            n == s@.len(),
            i <= n,
            r@ == without_double_quotes(s@.take(i as int)),
        decreases n - i,
    {
        let c = s.get_char(i);
        assert(s@.take(i + 1).drop_last() == s@.take(i as int));
        reveal_with_fuel(Seq::filter, 1);
        if c != '"' {
            push_char(&mut r, c);
        }
        i = i + 1;
    }
    assert(s@.take(n as int) == s@);
    r
}

/// The part of `s` before its first `c`, or all of `s` when it has none
/// (what `s.split(c).next()` yields).
pub open spec fn before_first(s: Seq<char>, c: char) -> Seq<char>
    decreases s.len(),
{
    if s.len() == 0 {
        s
    } else if s[0] == c {
        Seq::empty()
    } else {
        seq![s[0]] + before_first(s.drop_first(), c)
    }
}

/// The prefix of `s` before the first occurrence of `c` (all of `s` if `c`
/// does not occur).
pub fn prefix_before(s: &str, c: char) -> (r: String)
    ensures
        r@ == before_first(s@, c),
{
    let mut r = String::new();
    let mut i: usize = 0;
    let n = s.unicode_len();
    assert(s@.skip(0) == s@);
    assert(r@ + before_first(s@, c) =~= before_first(s@, c));
    while i < n
        invariant
            n == s@.len(),
            i <= n,
            forall|j: int| 0 <= j < i ==> s@[j] != c,
            r@ + before_first(s@.skip(i as int), c) == before_first(s@, c),
        decreases n - i,
    {
        let d = s.get_char(i);
        assert(s@.skip(i as int).drop_first() == s@.skip(i + 1));
        if d == c {
            assert(before_first(s@.skip(i as int), c) == Seq::<char>::empty());
            assert(r@ + Seq::<char>::empty() == r@);
            return r;
        }
        assert(r@.push(d) + before_first(s@.skip(i + 1), c) == r@ + before_first(
            s@.skip(i as int),
            c,
        ));
        push_char(&mut r, d);
        i = i + 1;
    }
    assert(s@.skip(n as int) == Seq::<char>::empty());
    assert(r@ + Seq::<char>::empty() == r@);
    r
}

// ---------------------------------------------------------------------------
// Splitting on whitespace
// ---------------------------------------------------------------------------

/// The Unicode `White_Space` characters, which `char::is_whitespace`
/// recognises.
pub open spec fn is_white_space(c: char) -> bool {
    ('\u{9}' <= c && c <= '\u{d}') || c == ' ' || c == '\u{85}' || c == '\u{a0}'
        || c == '\u{1680}' || ('\u{2000}' <= c && c <= '\u{200a}') || c == '\u{2028}'
        || c == '\u{2029}' || c == '\u{202f}' || c == '\u{205f}' || c == '\u{3000}'
}

/// Whether a character is Unicode white space.
pub fn is_whitespace(c: char) -> (r: bool)
    ensures
        r == is_white_space(c),
{
    ('\u{9}' <= c && c <= '\u{d}') || c == ' ' || c == '\u{85}' || c == '\u{a0}'
        || c == '\u{1680}' || ('\u{2000}' <= c && c <= '\u{200a}') || c == '\u{2028}'
        || c == '\u{2029}' || c == '\u{202f}' || c == '\u{205f}' || c == '\u{3000}'
}

/// The word being read so far, as a list of at most one word.
pub open spec fn flush(cur: Seq<char>) -> Seq<Seq<char>> {
    if cur.len() == 0 {
        Seq::empty()
    } else {
        seq![cur]
    }
}

/// The words of `s`, given that the non-space characters `cur` were read
/// just before it.
pub open spec fn words_after(s: Seq<char>, cur: Seq<char>) -> Seq<Seq<char>>
    decreases s.len(),
{
    if s.len() == 0 {
        flush(cur)
    } else if is_white_space(s[0]) {
        flush(cur) + words_after(s.drop_first(), Seq::empty())
    } else {
        words_after(s.drop_first(), cur.push(s[0]))
    }
}

/// The maximal runs of non-white-space characters of `s`, in order (what
/// `str::split_whitespace` yields).
pub open spec fn words(s: Seq<char>) -> Seq<Seq<char>> {
    words_after(s, Seq::empty())
}

/// Splits a string into its whitespace-separated words.
pub fn split_whitespace(s: &str) -> (r: Vec<String>)
    ensures
        r.deep_view() == words(s@),
{
    let mut out: Vec<String> = Vec::new();
    let mut cur = String::new();
    let mut i: usize = 0;
    let n = s.unicode_len();
    assert(s@.skip(0) == s@);
    assert(out.deep_view() + words(s@) =~= words(s@));
    while i < n
        invariant
            n == s@.len(),
            i <= n,
            out.deep_view() + words_after(s@.skip(i as int), cur@) == words(s@),
        decreases n - i,
    {
        let c = s.get_char(i);
        let ghost rest = s@.skip(i as int);
        assert(rest.drop_first() == s@.skip(i + 1));
        assert(rest[0] == c);
        let ghost before = out.deep_view();
        let ghost old_cur = cur@;
        if is_whitespace(c) {
            if cur.as_str().unicode_len() > 0 {
                out.push(cur);
            }
            assert(out.deep_view() =~= before + flush(old_cur));
            cur = String::new();
            assert(words_after(rest, old_cur) == flush(old_cur) + words_after(
                s@.skip(i + 1),
                Seq::empty(),
            ));
            assert(out.deep_view() + words_after(s@.skip(i + 1), cur@) =~= before + (flush(old_cur)
                + words_after(s@.skip(i + 1), Seq::empty())));
        } else {
            push_char(&mut cur, c);
        }
        i = i + 1;
    }
    assert(s@.skip(n as int) == Seq::<char>::empty());
    let ghost before = out.deep_view();
    let ghost old_cur = cur@;
    if cur.as_str().unicode_len() > 0 {
        out.push(cur);
    }
    assert(out.deep_view() =~= before + flush(old_cur));
    out
}

// ---------------------------------------------------------------------------
// Decimal numbers
// ---------------------------------------------------------------------------

pub open spec fn is_digit(c: char) -> bool {
    '0' <= c && c <= '9'
}

pub open spec fn digit_value(c: char) -> int {
    (c as int) - ('0' as int)
}

/// The value of a string of decimal digits, most significant first.
pub open spec fn digits_value(d: Seq<char>) -> int
    decreases d.len(),
{
    if d.len() == 0 {
        0
    } else {
        digits_value(d.drop_last()) * 10 + digit_value(d.last())
    }
}

pub open spec fn all_digits(d: Seq<char>) -> bool {
    forall|i: int| 0 <= i < d.len() ==> is_digit(#[trigger] d[i])
}

pub open spec fn has_sign(s: Seq<char>) -> bool {
    s.len() > 0 && (s[0] == '-' || s[0] == '+')
}

/// The digits of a signed decimal: `s` without its leading sign, if any.
pub open spec fn unsigned_part(s: Seq<char>) -> Seq<char> {
    if has_sign(s) {
        s.drop_first()
    } else {
        s
    }
}

/// The integer that `s` denotes when it is an optional `+` or `-` followed by
/// one or more decimal digits, and nothing otherwise.
pub open spec fn signed_decimal(s: Seq<char>) -> Option<int> {
    let d = unsigned_part(s);
    if d.len() == 0 || !all_digits(d) {
        None
    } else if s[0] == '-' {
        Some(-digits_value(d))
    } else {
        Some(digits_value(d))
    }
}

/// What `str::parse::<i64>` gives: the denoted integer when it fits in `i64`.
pub open spec fn decimal_i64(s: Seq<char>) -> Option<i64> {
    match signed_decimal(s) {
        Some(v) => if i64::MIN <= v && v <= i64::MAX {
            Some(v as i64)
        } else {
            None
        },
        None => None,
    }
}

/// What `str::parse::<i32>` gives: the denoted integer when it fits in `i32`.
pub open spec fn decimal_i32(s: Seq<char>) -> Option<i32> {
    match signed_decimal(s) {
        Some(v) => if i32::MIN <= v && v <= i32::MAX {
            Some(v as i32)
        } else {
            None
        },
        None => None,
    }
}

proof fn lemma_digits_value_nonneg(d: Seq<char>)
    requires
        all_digits(d),
    ensures
        digits_value(d) >= 0,
    decreases d.len(),
{
    if d.len() > 0 {
        assert(all_digits(d.drop_last()));
        lemma_digits_value_nonneg(d.drop_last());
        assert(is_digit(d[d.len() - 1]));
    }
}

/// Reads a signed decimal integer (optional `+`/`-`, then digits) that fits
/// in an `i64`.
pub fn parse_i64(s: &str) -> (r: Option<i64>)
    ensures
        r == decimal_i64(s@),
{
    let n = s.unicode_len();
    if n == 0 {
        return None;
    }
    let c0 = s.get_char(0);
    let neg = c0 == '-';
    let start: usize = if c0 == '-' || c0 == '+' {
        1
    } else {
        0
    };
    let ghost d = unsigned_part(s@);
    assert(d == s@.skip(start as int));
    if start == n {
        return None;
    }
    let limit: u128 = 0x1_0000_0000_0000_0000;
    let mut acc: u128 = 0;
    let mut big = false;
    let mut i: usize = start;
    assert(d.take(0) =~= Seq::<char>::empty());
    while i < n
        invariant
            n == s@.len(),
            start <= i <= n,
            d == s@.skip(start as int),
            d == unsigned_part(s@),
            neg == (s@[0] == '-'),
            all_digits(d.take(i - start)),
            !big ==> acc == digits_value(d.take(i - start)) && acc <= limit,
            big ==> digits_value(d.take(i - start)) > limit,
            limit == 0x1_0000_0000_0000_0000u128,
        decreases n - i,
    {
        let c = s.get_char(i);
        let ghost k = i - start;
        assert(d[k] == c);
        if !('0' <= c && c <= '9') {
            assert(!is_digit(d[k]));
            return None;
        }
        let ghost pre = d.take(k);
        let ghost post = d.take(k + 1);
        assert(post.drop_last() =~= pre);
        assert(post.last() == c);
        assert(all_digits(post));
        proof {
            lemma_digits_value_nonneg(pre);
        }
        let dv = ((c as u32) - ('0' as u32)) as u128;
        if !big {
            let next = acc * 10 + dv;
            if next > limit {
                big = true;
            } else {
                acc = next;
            }
        }
        i = i + 1;
    }
    assert(d.take(n - start) =~= d);
    if big {
        return None;
    }
    if neg {
        if acc <= 0x8000_0000_0000_0000u128 {
            let v: i128 = -(acc as i128);
            Some(v as i64)
        } else {
            None
        }
    } else {
        if acc <= 0x7fff_ffff_ffff_ffffu128 {
            Some(acc as i64)
        } else {
            None
        }
    }
}

/// Reads a signed decimal integer that fits in an `i32` (what `str::parse::<i32>`
/// accepts).
pub fn parse_i32(s: &str) -> (r: Option<i32>)
    ensures
        r == decimal_i32(s@),
{
    match parse_i64(s) {
        Some(v) => {
            if i32::MIN as i64 <= v && v <= i32::MAX as i64 {
                Some(v as i32)
            } else {
                None
            }
        },
        None => None,
    }
}

pub open spec fn digit_char(d: int) -> char {
    (d + 48) as char
}

/// The decimal digits of a natural number, most significant first, with no
/// leading zeros.
pub open spec fn digits_of(n: nat) -> Seq<char>
    decreases n,
{
    if n < 10 {
        seq![digit_char(n as int)]
    } else {
        digits_of(n / 10).push(digit_char((n % 10) as int))
    }
}

/// The decimal rendering of an integer, with a leading `-` when negative
/// (what `Display` prints for Rust integers).
pub open spec fn decimal_of(n: int) -> Seq<char> {
    if n < 0 {
        seq!['-'] + digits_of((-n) as nat)
    } else {
        digits_of(n as nat)
    }
}

fn push_digits(s: &mut String, n: u64)
    ensures
        final(s)@ == old(s)@ + digits_of(n as nat),
    decreases n,
{
    if n >= 10 {
        push_digits(s, n / 10);
    }
    let d = (n % 10) as u8;
    let c = (48u8 + d) as char;
    assert(c == digit_char((n % 10) as int));
    push_char(s, c);
    proof {
        if n >= 10 {
            assert(old(s)@ + digits_of(n as nat) =~= old(s)@ + digits_of((n / 10) as nat)
                + seq![c]);
        }
    }
}

/// Renders an integer in decimal.
pub fn decimal_string(n: i64) -> (r: String)
    ensures
        r@ == decimal_of(n as int),
{
    let mut r = String::new();
    if n < 0 {
        push_char(&mut r, '-');
        let m: u64 = (-(n as i128)) as u64;
        push_digits(&mut r, m);
    } else {
        push_digits(&mut r, n as u64);
    }
    r
}

} // verus!
