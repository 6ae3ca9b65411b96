//! Character and string helpers shared by the request-handling rules.
//!
//! Strings are handled as sequences of `char`s; the view of a `String` or a
//! `&str` is its `Seq<char>`.
use vstd::prelude::*;
use vstd::string::StringSliceAdditionalSpecFns;

verus! {

// ---------------------------------------------------------------------------
// Conversions between strings and character vectors
// ---------------------------------------------------------------------------

/// The characters of a string slice, in order (`str::chars`).
#[verifier::external_body]
pub(crate) fn chars_of(s: &str) -> (v: Vec<char>)
    ensures
        v@ == s@,
{
    s.chars().collect()
}

/// A string holding exactly the given characters (`String::from_iter`).
#[verifier::external_body]
pub(crate) fn string_from_chars(cs: &[char]) -> (s: String)
    ensures
        s@ == cs@,
{
    cs.iter().collect()
}

/// The number of bytes of the UTF-8 encoding of `s` (what `str::len` counts).
pub open spec fn utf8_len(s: Seq<char>) -> nat {
    vstd::utf8::encode_utf8(s).len()
}

/// `str::len` of a string with these characters: its UTF-8 byte count as a
/// `usize`.
pub open spec fn str_len(s: Seq<char>) -> usize {
    utf8_len(s) as usize
}

/// The byte length of a string slice (`str::len`).
pub fn byte_len(s: &str) -> (n: usize)
    ensures
        n == str_len(s@),
{
    s.len()
}

/// An owned copy of a string slice.
pub fn owned(s: &str) -> (r: String)
    ensures
        r@ == s@,
{
    s.to_owned()
}

/// Whether two character sequences are equal.
pub fn chars_equal(a: &[char], b: &[char]) -> (r: bool)
    ensures
        r == (a@ == b@),
{
    if a.len() != b.len() {
        return false;
    }
    let mut i: usize = 0;
    while i < a.len()
        invariant
            a@.len() == b@.len(),
            i <= a@.len(),
            forall|j: int| 0 <= j < i ==> a@[j] == b@[j],
        decreases a@.len() - i,
    {
        if a[i] != b[i] {
            return false;
        }
        i = i + 1;
    }
    assert(a@ =~= b@);
    true
}

/// Whether two strings hold the same characters.
pub fn str_equal(a: &str, b: &str) -> (r: bool)
    ensures
        r == (a@ == b@),
{
    let av = chars_of(a);
    let bv = chars_of(b);
    chars_equal(av.as_slice(), bv.as_slice())
}

/// Appends all characters of `src` to `dst`.
pub fn push_all(dst: &mut Vec<char>, src: &[char])
    ensures
        final(dst)@ == old(dst)@ + src@,
{
    let mut i: usize = 0;
    while i < src.len()
        invariant
            i <= src@.len(),
            dst@ == old(dst)@ + src@.subrange(0, i as int),
        decreases src@.len() - i,
    {
        dst.push(src[i]);
        i = i + 1;
        assert(src@.subrange(0, i as int) =~= src@.subrange(0, (i - 1) as int).push(src@[i - 1]));
    }
    assert(src@.subrange(0, src@.len() as int) =~= src@);
}

/// Appends all characters of the string `src` to `dst`.
pub fn push_str(dst: &mut Vec<char>, src: &str)
    ensures
        final(dst)@ == old(dst)@ + src@,
{
    let v = chars_of(src);
    push_all(dst, v.as_slice());
}

/// Whether `prefix` is a prefix of `s`.
pub open spec fn has_prefix(s: Seq<char>, prefix: Seq<char>) -> bool {
    prefix.len() <= s.len() && s.subrange(0, prefix.len() as int) == prefix
}

/// Whether `s` starts with `prefix` (`str::starts_with` on character sequences).
pub fn starts_with(s: &[char], prefix: &[char]) -> (r: bool)
    ensures
        r == has_prefix(s@, prefix@),
{
    if prefix.len() > s.len() {
        return false;
    }
    let mut i: usize = 0;
    while i < prefix.len()
        invariant
            prefix@.len() <= s@.len(),
            i <= prefix@.len(),
            forall|j: int| 0 <= j < i ==> s@[j] == prefix@[j],
        decreases prefix@.len() - i,
    {
        if s[i] != prefix[i] {
            return false;
        }
        i = i + 1;
    }
    assert(s@.subrange(0, prefix@.len() as int) =~= prefix@);
    true
}

/// The characters `s[from..to]`.
pub fn slice_chars(s: &[char], from: usize, to: usize) -> (r: Vec<char>)
    requires
        from <= to <= s@.len(),
    ensures
        r@ == s@.subrange(from as int, to as int),
{
    let mut r: Vec<char> = Vec::new();
    let mut i: usize = from;
    while i < to
        invariant
            from <= i <= to,
            to <= s@.len(),
            r@ == s@.subrange(from as int, i as int),
        decreases to - i,
    {
        r.push(s[i]);
        i = i + 1;
        assert(s@.subrange(from as int, i as int) =~= s@.subrange(from as int, (i - 1) as int).push(
            s@[i - 1],
        ));
    }
    r
}

// ---------------------------------------------------------------------------
// Character classes
// ---------------------------------------------------------------------------

/// The Unicode `White_Space` property, the set that `char::is_whitespace` tests.
pub open spec fn is_whitespace_char(c: char) -> bool {
    let u = c as u32;
    ||| 0x09 <= u <= 0x0D
    ||| u == 0x20
    ||| u == 0x85
    ||| u == 0xA0
    ||| u == 0x1680
    ||| 0x2000 <= u <= 0x200A
    ||| u == 0x2028
    ||| u == 0x2029
    ||| u == 0x202F
    ||| u == 0x205F
    ||| u == 0x3000
}

/// `char::is_whitespace`: whether `c` carries the Unicode `White_Space` property.
pub fn is_whitespace(c: char) -> (r: bool)
    ensures
        r == is_whitespace_char(c),
{
    let u = c as u32;
    (0x09 <= u && u <= 0x0D) || u == 0x20 || u == 0x85 || u == 0xA0 || u == 0x1680 || (0x2000 <= u
        && u <= 0x200A) || u == 0x2028 || u == 0x2029 || u == 0x202F || u == 0x205F || u == 0x3000
}

/// Whether `c` is an ASCII letter or digit.
pub open spec fn is_ascii_alphanumeric_char(c: char) -> bool {
    ('a' <= c && c <= 'z') || ('A' <= c && c <= 'Z') || ('0' <= c && c <= '9')
}

/// What `char::is_alphanumeric` answers for `c` (Unicode `Alphabetic` or
/// `Numeric`).
pub uninterp spec fn char_alphanumeric(c: char) -> bool;

/// `char::is_alphanumeric`. The contract states the answer by its name and,
/// for ASCII characters, exactly: the ASCII letters and digits are the only
/// alphanumeric ASCII characters. Which non-ASCII characters are alphanumeric
/// is left to the name (the Unicode tables).
#[verifier::external_body]
pub(crate) fn is_alphanumeric(c: char) -> (r: bool)
    ensures
        r == char_alphanumeric(c),
        (c as u32) < 128 ==> (r == is_ascii_alphanumeric_char(c)),
{
    c.is_alphanumeric()
}

/// Whether every character is ASCII.
pub open spec fn all_ascii(s: Seq<char>) -> bool {
    forall|i: int| 0 <= i < s.len() ==> (s[i] as u32) < 128
}

/// The ASCII lower-case form of one character (other characters unchanged).
pub open spec fn ascii_lower(c: char) -> char {
    if 'A' <= c && c <= 'Z' {
        ((c as u32) + 32) as char
    } else {
        c
    }
}

/// The ASCII upper-case form of one character (other characters unchanged).
pub open spec fn ascii_upper(c: char) -> char {
    if 'a' <= c && c <= 'z' {
        ((c as u32) - 32) as char
    } else {
        c
    }
}

/// What `str::to_lowercase` returns for a string.
pub uninterp spec fn lowercase_of(s: Seq<char>) -> Seq<char>;

/// What `str::to_uppercase` returns for a string.
pub uninterp spec fn uppercase_of(s: Seq<char>) -> Seq<char>;

/// `str::to_lowercase`. The result is named by `lowercase_of`; for an
/// all-ASCII input it is stated exactly (each letter lowered, nothing else
/// changed). The Unicode case tables for other characters are left to the name.
#[verifier::external_body]
pub(crate) fn to_lowercase(s: &str) -> (r: String)
    ensures
        r@ == lowercase_of(s@),
        all_ascii(s@) ==> r@ == s@.map_values(|c: char| ascii_lower(c)),
{
    s.to_lowercase()
}

/// `str::to_uppercase`. The result is named by `uppercase_of`; for an
/// all-ASCII input it is stated exactly (each letter raised, nothing else
/// changed). The Unicode case tables for other characters are left to the name.
#[verifier::external_body]
pub(crate) fn to_uppercase(s: &str) -> (r: String)
    ensures
        r@ == uppercase_of(s@),
        all_ascii(s@) ==> r@ == s@.map_values(|c: char| ascii_upper(c)),
{
    s.to_uppercase()
}

// ---------------------------------------------------------------------------
// Trimming and splitting on white space
// ---------------------------------------------------------------------------

/// `s` without its leading white space.
pub open spec fn trim_start_spec(s: Seq<char>) -> Seq<char>
    decreases s.len(),
{
    if s.len() > 0 && is_whitespace_char(s[0]) {
        trim_start_spec(s.drop_first())
    } else {
        s
    }
}

/// `s` without its trailing white space.
pub open spec fn trim_end_spec(s: Seq<char>) -> Seq<char>
    decreases s.len(),
{
    if s.len() > 0 && is_whitespace_char(s.last()) {
        trim_end_spec(s.drop_last())
    } else {
        s
    }
}

/// `s` without leading and trailing white space (`str::trim`).
pub open spec fn trim_spec(s: Seq<char>) -> Seq<char> {
    trim_end_spec(trim_start_spec(s))
}

proof fn lemma_trim_start_skip(s: Seq<char>, i: int)
    requires
        0 <= i <= s.len(),
        forall|j: int| 0 <= j < i ==> is_whitespace_char(s[j]),
    ensures
        trim_start_spec(s) == trim_start_spec(s.subrange(i, s.len() as int)),
    decreases i,
{
    if i > 0 {
        assert(s.drop_first().subrange(i - 1, s.drop_first().len() as int) =~= s.subrange(
            i,
            s.len() as int,
        ));
        lemma_trim_start_skip(s.drop_first(), i - 1);
    } else {
        assert(s.subrange(0, s.len() as int) =~= s);
    }
}

proof fn lemma_trim_end_take(s: Seq<char>, k: int)
    requires
        0 <= k <= s.len(),
        forall|j: int| k <= j < s.len() ==> is_whitespace_char(s[j]),
    ensures
        trim_end_spec(s) == trim_end_spec(s.subrange(0, k)),
    decreases s.len() - k,
{
    if k < s.len() {
        assert(s.drop_last().subrange(0, k) =~= s.subrange(0, k));
        lemma_trim_end_take(s.drop_last(), k);
    } else {
        assert(s.subrange(0, k) =~= s);
    }
}

/// The index of the first character of `s` that is not white space, or
/// `s.len()` when there is none.
fn first_non_whitespace(s: &[char]) -> (i: usize)
    ensures
        i <= s@.len(),
        forall|j: int| 0 <= j < i ==> is_whitespace_char(s@[j]),
        i < s@.len() ==> !is_whitespace_char(s@[i as int]),
        trim_start_spec(s@) == s@.subrange(i as int, s@.len() as int),
{
    let mut i: usize = 0;
    while i < s.len() && is_whitespace(s[i])
        invariant
            i <= s@.len(),
            forall|j: int| 0 <= j < i ==> is_whitespace_char(s@[j]),
        decreases s@.len() - i,
    {
        i = i + 1;
    }
    proof {
        lemma_trim_start_skip(s@, i as int);
        let t = s@.subrange(i as int, s@.len() as int);
        if t.len() > 0 {
            assert(t[0] == s@[i as int]);
        }
    }
    i
}

/// `s` without leading and trailing white space (`str::trim`).
pub fn trim(s: &[char]) -> (r: Vec<char>)
    ensures
        r@ == trim_spec(s@),
{
    let start = first_non_whitespace(s);
    let mut end: usize = s.len();
    while end > start && is_whitespace(s[end - 1])
        invariant
            start <= end <= s@.len(),
            forall|j: int| end <= j < s@.len() ==> is_whitespace_char(s@[j]),
        decreases end,
    {
        end = end - 1;
    }
    proof {
        let t = s@.subrange(start as int, s@.len() as int);
        let k = end - start;
        assert forall|j: int| k <= j < t.len() implies is_whitespace_char(t[j]) by {
            assert(t[j] == s@[j + start]);
        }
        lemma_trim_end_take(t, k as int);
        assert(t.subrange(0, k as int) =~= s@.subrange(start as int, end as int));
        let u = s@.subrange(start as int, end as int);
        if u.len() > 0 {
            assert(u.last() == s@[end - 1]);
        }
    }
    slice_chars(s, start, end)
}

/// `str::trim` on a string slice.
pub fn trim_str(s: &str) -> (r: Vec<char>)
    ensures
        r@ == trim_spec(s@),
{
    let v = chars_of(s);
    trim(v.as_slice())
}

/// The longest prefix of `s` that holds no white space.
pub open spec fn first_word_len(s: Seq<char>) -> nat
    decreases s.len(),
{
    if s.len() == 0 || is_whitespace_char(s[0]) {
        0
    } else {
        1 + first_word_len(s.drop_first())
    }
}

proof fn lemma_first_word_len_bound(s: Seq<char>)
    ensures
        first_word_len(s) <= s.len(),
        s.len() > 0 && !is_whitespace_char(s[0]) ==> first_word_len(s) > 0,
    decreases s.len(),
{
    if s.len() > 0 && !is_whitespace_char(s[0]) {
        lemma_first_word_len_bound(s.drop_first());
    }
}

proof fn lemma_trim_start_len(s: Seq<char>)
    ensures
        trim_start_spec(s).len() <= s.len(),
        trim_start_spec(s).len() > 0 ==> !is_whitespace_char(trim_start_spec(s)[0]),
    decreases s.len(),
{
    if s.len() > 0 && is_whitespace_char(s[0]) {
        lemma_trim_start_len(s.drop_first());
    }
}

/// The white-space separated words of `s`, in order (`str::split_whitespace`).
pub open spec fn words_spec(s: Seq<char>) -> Seq<Seq<char>>
    decreases s.len(),
{
    let t = trim_start_spec(s);
    if t.len() == 0 {
        seq![]
    } else {
        let n = first_word_len(t);
        if 0 < n <= t.len() && t.len() <= s.len() {
            seq![t.subrange(0, n as int)] + words_spec(t.subrange(n as int, t.len() as int))
        } else {
            seq![]
        }
    }
}

proof fn lemma_first_word_len_exact(s: Seq<char>, i: int)
    requires
        0 <= i <= s.len(),
        forall|j: int| 0 <= j < i ==> !is_whitespace_char(s[j]),
        i == s.len() || is_whitespace_char(s[i]),
    ensures
        first_word_len(s) == i,
    decreases i,
{
    if i > 0 {
        lemma_first_word_len_exact(s.drop_first(), i - 1);
    }
}

/// Every word of `words_spec(s)` is non-empty and holds no white space.
pub proof fn lemma_words_nonempty(s: Seq<char>)
    ensures
        forall|k: int| 0 <= k < words_spec(s).len() ==> words_spec(s)[k].len() > 0,
    decreases s.len(),
{
    let t = trim_start_spec(s);
    lemma_trim_start_len(s);
    if t.len() > 0 {
        lemma_first_word_len_bound(t);
        let n = first_word_len(t);
        let rest = t.subrange(n as int, t.len() as int);
        lemma_words_nonempty(rest);
        assert(words_spec(s) == seq![t.subrange(0, n as int)] + words_spec(rest));
        assert forall|k: int| 0 <= k < words_spec(s).len() implies words_spec(s)[k].len() > 0 by {
            if k > 0 {
                assert(words_spec(s)[k] == words_spec(rest)[k - 1]);
            }
        }
    }
}

/// The white-space separated words of `s` (`str::split_whitespace`).
pub fn split_whitespace(s: &[char]) -> (r: Vec<Vec<char>>)
    ensures
        r@.len() == words_spec(s@).len(),
        forall|k: int| 0 <= k < r@.len() ==> r@[k]@ == words_spec(s@)[k],
{
    let mut r: Vec<Vec<char>> = Vec::new();
    let mut i: usize = 0;
    let ghost mut done: Seq<Seq<char>> = seq![];
    assert(s@.subrange(0, s@.len() as int) =~= s@);
    assert(done + words_spec(s@) =~= words_spec(s@));
    loop
        invariant
            i <= s@.len(),
            r@.len() == done.len(),
            forall|k: int| 0 <= k < r@.len() ==> r@[k]@ == done[k],
            done + words_spec(s@.subrange(i as int, s@.len() as int)) == words_spec(s@),
        decreases s@.len() - i,
    {
        let ghost rest = s@.subrange(i as int, s@.len() as int);
        // skip white space
        let mut a: usize = i;
        while a < s.len() && is_whitespace(s[a])
            invariant
                i <= a <= s@.len(),
                forall|j: int| i <= j < a ==> is_whitespace_char(s@[j]),
            decreases s@.len() - a,
        {
            a = a + 1;
        }
        proof {
            assert forall|j: int| 0 <= j < a - i implies is_whitespace_char(rest[j]) by {
                assert(rest[j] == s@[j + i]);
            }
            lemma_trim_start_skip(rest, a - i);
            assert(rest.subrange(a - i, rest.len() as int) =~= s@.subrange(
                a as int,
                s@.len() as int,
            ));
            lemma_trim_start_len(rest);
        }
        if a == s.len() {
            proof {
                assert(trim_start_spec(rest).len() == 0);
                assert(done + words_spec(rest) =~= done);
            }
            return r;
        }
        let mut b: usize = a;
        while b < s.len() && !is_whitespace(s[b])
            invariant
                a <= b <= s@.len(),
                forall|j: int| a <= j < b ==> !is_whitespace_char(s@[j]),
            decreases s@.len() - b,
        {
            b = b + 1;
        }
        let w = slice_chars(s, a, b);
        proof {
            let t = s@.subrange(a as int, s@.len() as int);
            assert(trim_start_spec(rest) == t);
            assert forall|j: int| 0 <= j < b - a implies !is_whitespace_char(t[j]) by {
                assert(t[j] == s@[j + a]);
            }
            if b < s@.len() {
                assert(t[b - a] == s@[b as int]);
            }
            lemma_first_word_len_exact(t, b - a);
            assert(t[0] == s@[a as int]);
            assert(t.subrange(0, b - a) =~= w@);
            assert(t.subrange(b - a, t.len() as int) =~= s@.subrange(b as int, s@.len() as int));
            assert(words_spec(rest) == seq![w@] + words_spec(
                s@.subrange(b as int, s@.len() as int),
            ));
            assert(done.push(w@) + words_spec(s@.subrange(b as int, s@.len() as int)) =~= done
                + words_spec(rest));
            done = done.push(w@);
        }
        r.push(w);
        i = b;
    }
}

// ---------------------------------------------------------------------------
// Decimal and hexadecimal rendering
// ---------------------------------------------------------------------------

/// The character of a decimal digit.
pub open spec fn digit_char(d: nat) -> char {
    if d < 10 {
        (('0' as u32) + d) as char
    } else {
        '?'
    }
}

/// The decimal representation of `n`, without leading zeros.
pub open spec fn decimal_spec(n: nat) -> Seq<char>
    decreases n,
{
    if n < 10 {
        seq![digit_char(n)]
    } else {
        decimal_spec(n / 10).push(digit_char(n % 10))
    }
}

fn digit_to_char(d: u64) -> (c: char)
    requires
        d < 10,
    ensures
        c == digit_char(d as nat),
{
    if d == 0 {
        '0'
    } else if d == 1 {
        '1'
    } else if d == 2 {
        '2'
    } else if d == 3 {
        '3'
    } else if d == 4 {
        '4'
    } else if d == 5 {
        '5'
    } else if d == 6 {
        '6'
    } else if d == 7 {
        '7'
    } else if d == 8 {
        '8'
    } else {
        '9'
    }
}

/// Appends the decimal representation of `n` (`format!("{}", n)` for an
/// unsigned integer).
pub fn push_decimal(dst: &mut Vec<char>, n: u64)
    ensures
        final(dst)@ == old(dst)@ + decimal_spec(n as nat),
    decreases n,
{
    if n < 10 {
        dst.push(digit_to_char(n));
        assert(decimal_spec(n as nat) =~= seq![digit_char(n as nat)]);
    } else {
        push_decimal(dst, n / 10);
        dst.push(digit_to_char(n % 10));
        assert(decimal_spec(n as nat) == decimal_spec((n / 10) as nat).push(
            digit_char((n % 10) as nat),
        ));
    }
}

/// The lower-case hexadecimal digit for a nibble.
pub open spec fn hex_lower_char(d: nat) -> char {
    if d < 10 {
        (('0' as u32) + d) as char
    } else if d < 16 {
        (('a' as u32) + (d - 10)) as char
    } else {
        '?'
    }
}

/// The upper-case hexadecimal digit for a nibble.
pub open spec fn hex_upper_char(d: nat) -> char {
    if d < 10 {
        (('0' as u32) + d) as char
    } else if d < 16 {
        (('A' as u32) + (d - 10)) as char
    } else {
        '?'
    }
}

/// Two lower-case hexadecimal digits per byte (`format!("{:02x}", b)` for each
/// byte in turn).
pub open spec fn hex_lower_spec(bytes: Seq<u8>) -> Seq<char>
    decreases bytes.len(),
{
    if bytes.len() == 0 {
        seq![]
    } else {
        hex_lower_spec(bytes.drop_last()).push(hex_lower_char((bytes.last() / 16) as nat)).push(
            hex_lower_char((bytes.last() % 16) as nat),
        )
    }
}

fn nibble_lower(d: u8) -> (c: char)
    requires
        d < 16,
    ensures
        c == hex_lower_char(d as nat),
{
    if d < 10 {
        let c = (('0' as u8) + d) as char;
        c
    } else {
        let c = (('a' as u8) + (d - 10)) as char;
        c
    }
}

/// The lower-case hexadecimal rendering of bytes, two digits per byte.
pub fn hex_lower(bytes: &[u8]) -> (r: Vec<char>)
    ensures
        r@ == hex_lower_spec(bytes@),
{
    let mut r: Vec<char> = Vec::new();
    let mut i: usize = 0;
    while i < bytes.len()
        invariant
            i <= bytes@.len(),
            r@ == hex_lower_spec(bytes@.subrange(0, i as int)),
        decreases bytes@.len() - i,
    {
        let b = bytes[i];
        r.push(nibble_lower(b / 16));
        r.push(nibble_lower(b % 16));
        proof {
            let pre = bytes@.subrange(0, i as int);
            let post = bytes@.subrange(0, i + 1);
            assert(post.drop_last() =~= pre);
            assert(post.last() == b);
        }
        i = i + 1;
    }
    assert(bytes@.subrange(0, bytes@.len() as int) =~= bytes@);
    r
}


// ---------------------------------------------------------------------------
// UTF-8 lengths of prefixes
// ---------------------------------------------------------------------------

/// The number of bytes of the UTF-8 encoding of one character.
pub open spec fn char_utf8_len(c: char) -> nat {
    vstd::utf8::encode_scalar(c as u32).len()
}

/// `char::len_utf8`.
pub fn char_len_utf8(c: char) -> (n: usize)
    ensures
        n == char_utf8_len(c),
        1 <= n <= 4,
{
    let u = c as u32;
    if u <= 0x7F {
        1
    } else if u <= 0x7FF {
        2
    } else if u <= 0xFFFF {
        3
    } else {
        4
    }
}

/// Appending a character adds its own byte count.
pub proof fn lemma_utf8_len_push(s: Seq<char>, c: char)
    ensures
        utf8_len(s.push(c)) == utf8_len(s) + char_utf8_len(c),
    decreases s.len(),
{
    if s.len() == 0 {
        assert(s.push(c).drop_first() =~= Seq::<char>::empty());
        assert(vstd::utf8::encode_utf8(Seq::<char>::empty()) =~= Seq::<u8>::empty());
    } else {
        assert(s.push(c).drop_first() =~= s.drop_first().push(c));
        lemma_utf8_len_push(s.drop_first(), c);
    }
}

/// Longer prefixes have strictly more bytes.
pub proof fn lemma_utf8_prefix_increasing(s: Seq<char>, i: int, j: int)
    requires
        0 <= i < j <= s.len(),
    ensures
        utf8_len(s.take(i)) < utf8_len(s.take(j)),
    decreases j - i,
{
    assert(s.take(j) =~= s.take(j - 1).push(s[j - 1]));
    lemma_utf8_len_push(s.take(j - 1), s[j - 1]);
    if i < j - 1 {
        lemma_utf8_prefix_increasing(s, i, j - 1);
    }
}

/// The number of leading characters of `s` whose encoding is exactly `limit`
/// bytes long, or `None` when no prefix has that length (the cut at byte
/// `limit` would fall inside a character).
pub fn prefix_with_bytes(s: &[char], limit: usize) -> (r: Option<usize>)
    ensures
        r matches Some(k) ==> k <= s@.len() && utf8_len(s@.take(k as int)) == limit,
        r is None ==> forall|k: int| 0 <= k <= s@.len() ==> utf8_len(#[trigger] s@.take(k)) != limit,
{
    let mut k: usize = 0;
    let mut bytes: usize = 0;
    assert(s@.take(0) =~= Seq::<char>::empty());
    while k < s.len() && bytes < limit
        invariant
            k <= s@.len(),
            bytes == utf8_len(s@.take(k as int)),
            bytes <= limit,
            forall|j: int| 0 <= j < k ==> utf8_len(#[trigger] s@.take(j)) < limit,
        decreases s@.len() - k,
    {
        let n = char_len_utf8(s[k]);
        proof {
            assert(s@.take(k + 1) =~= s@.take(k as int).push(s@[k as int]));
            lemma_utf8_len_push(s@.take(k as int), s@[k as int]);
            assert forall|j: int| 0 <= j < k + 1 implies utf8_len(#[trigger] s@.take(j)) < limit by {
                if j == k {
                } else {
                }
            }
        }
        if n > limit - bytes {
            proof {
                assert forall|j: int| 0 <= j <= s@.len() implies utf8_len(#[trigger] s@.take(j))
                    != limit by {
                    if j > k {
                        if j > k + 1 {
                            lemma_utf8_prefix_increasing(s@, k + 1, j);
                        }
                    }
                }
            }
            return None;
        }
        bytes = bytes + n;
        k = k + 1;
    }
    if bytes == limit {
        Some(k)
    } else {
        proof {
            assert(k == s@.len());
            assert forall|j: int| 0 <= j <= s@.len() implies utf8_len(#[trigger] s@.take(j))
                != limit by {
                if j < k {
                    lemma_utf8_prefix_increasing(s@, j, k as int);
                }
            }
        }
        None
    }
}


/// The concatenation of two strings (`format!("{}{}", a, b)`).
pub fn concat(a: &str, b: &str) -> (r: String)
    ensures
        r@ == a@ + b@,
{
    let mut v = chars_of(a);
    push_str(&mut v, b);
    string_from_chars(v.as_slice())
}


/// The decimal representation of a signed integer (`format!("{}", n)`).
pub open spec fn signed_decimal_spec(n: int) -> Seq<char> {
    if n < 0 {
        seq!['-'] + decimal_spec((-n) as nat)
    } else {
        decimal_spec(n as nat)
    }
}

/// Appends the decimal representation of a signed integer.
pub fn push_signed_decimal(dst: &mut Vec<char>, n: i64)
    ensures
        final(dst)@ == old(dst)@ + signed_decimal_spec(n as int),
{
    if n < 0 {
        dst.push('-');
        let m: u64 = if n == i64::MIN {
            0x8000_0000_0000_0000u64
        } else {
            (-n) as u64
        };
        push_decimal(dst, m);
        assert(dst@ =~= old(dst)@ + (seq!['-'] + decimal_spec((-n) as nat)));
    } else {
        push_decimal(dst, n as u64);
    }
}


/// Two hexadecimal digits per byte.
pub proof fn lemma_hex_lower_len(bytes: Seq<u8>)
    ensures
        hex_lower_spec(bytes).len() == 2 * bytes.len(),
    decreases bytes.len(),
{
    if bytes.len() > 0 {
        lemma_hex_lower_len(bytes.drop_last());
    }
}

} // verus!
