//! Character classification, trimming and word normalization.
use vstd::prelude::*;

verus! {

/// The Unicode `White_Space` property, as `char::is_whitespace` decides it.
pub open spec fn is_white_space(c: char) -> bool {
    ('\u{9}' <= c && c <= '\u{d}') || c == ' ' || c == '\u{85}' || c == '\u{a0}'
        || c == '\u{1680}' || ('\u{2000}' <= c && c <= '\u{200a}') || c == '\u{2028}'
        || c == '\u{2029}' || c == '\u{202f}' || c == '\u{205f}' || c == '\u{3000}'
}

/// The Unicode general category `Cc`, as `char::is_control` decides it.
pub open spec fn is_control(c: char) -> bool {
    c <= '\u{1f}' || ('\u{7f}' <= c && c <= '\u{9f}')
}

/// Whether `c` has the Unicode `White_Space` property.
pub fn char_is_white_space(c: char) -> (r: bool)
    ensures
        r == is_white_space(c),
{
    ('\u{9}' <= c && c <= '\u{d}') || c == ' ' || c == '\u{85}' || c == '\u{a0}'
        || c == '\u{1680}' || ('\u{2000}' <= c && c <= '\u{200a}') || c == '\u{2028}'
        || c == '\u{2029}' || c == '\u{202f}' || c == '\u{205f}' || c == '\u{3000}'
}

/// Whether `c` is a control character (general category `Cc`).
pub fn char_is_control(c: char) -> (r: bool)
    ensures
        r == is_control(c),
{
    c <= '\u{1f}' || ('\u{7f}' <= c && c <= '\u{9f}')
}

/// A character removed at the ends of a word: white space, and control
/// characters too when `with_control` holds.
pub open spec fn is_trimmed(c: char, with_control: bool) -> bool {
    is_white_space(c) || (with_control && is_control(c))
}

/// `s` without its leading trimmed characters.
pub open spec fn trim_start(s: Seq<char>, with_control: bool) -> Seq<char>
    decreases s.len(),
{
    if s.len() > 0 && is_trimmed(s[0], with_control) {
        trim_start(s.drop_first(), with_control)
    } else {
        s
    }
}

/// `s` without its trailing trimmed characters.
pub open spec fn trim_end(s: Seq<char>, with_control: bool) -> Seq<char>
    decreases s.len(),
{
    if s.len() > 0 && is_trimmed(s.last(), with_control) {
        trim_end(s.drop_last(), with_control)
    } else {
        s
    }
}

/// `s` without trimmed characters at either end.
pub open spec fn trim(s: Seq<char>, with_control: bool) -> Seq<char> {
    trim_end(trim_start(s, with_control), with_control)
}

/// The views of a list of strings.
pub open spec fn views(v: Seq<String>) -> Seq<Seq<char>> {
    v.map_values(|t: String| t@)
}

/// The characters of `s`, in order.
pub fn chars_of(s: &str) -> (r: Vec<char>)
    ensures
        r@ == s@,
{
    let mut v: Vec<char> = Vec::new();
    for c in it: s.chars()
        invariant
            v@ == it.seq().take(it.index() as int),
    {
        v.push(c);
    }
    v
}

fn char_is_trimmed(c: char, with_control: bool) -> (r: bool)
    ensures
        r == is_trimmed(c, with_control),
{
    char_is_white_space(c) || (with_control && char_is_control(c))
}

/// `s` without trimmed characters at either end.
pub fn trim_chars(s: &Vec<char>, with_control: bool) -> (r: Vec<char>)
    ensures
        r@ == trim(s@, with_control),
{
    let n = s.len();
    let mut lo: usize = 0;
    assert(s@.subrange(0, n as int) =~= s@);
    while lo < n && char_is_trimmed(s[lo], with_control)
        invariant
            lo <= n == s.len(),
            trim_start(s@, with_control) == trim_start(s@.subrange(lo as int, n as int), with_control),
        decreases n - lo,
    {
        assert(s@.subrange(lo as int, n as int).drop_first() =~= s@.subrange(lo + 1, n as int));
        lo = lo + 1;
    }
    assert(trim_start(s@, with_control) == s@.subrange(lo as int, n as int));
    let mut hi: usize = n;
    while hi > lo && char_is_trimmed(s[hi - 1], with_control)
        invariant
            lo <= hi <= n == s.len(),
            trim(s@, with_control) == trim_end(s@.subrange(lo as int, hi as int), with_control),
        decreases hi,
    {
        assert(s@.subrange(lo as int, hi as int).drop_last() =~= s@.subrange(lo as int, hi - 1));
        hi = hi - 1;
    }
    let mut r: Vec<char> = Vec::new();
    let mut i: usize = lo;
    while i < hi
        invariant
            lo <= i <= hi <= n == s.len(),
            r@ == s@.subrange(lo as int, i as int),
        decreases hi - i,
    {
        r.push(s[i]);
        assert(r@ =~= s@.subrange(lo as int, i + 1));
        i = i + 1;
    }
    r
}

/// What `str::to_lowercase` returns for a string with the characters `s`.
pub uninterp spec fn lower_of(s: Seq<char>) -> Seq<char>;

/// Relies on `FromIterator<char>` for `String`: the string holds the
/// characters in order.
#[verifier::external_body]
pub(crate) fn string_from_chars(v: &Vec<char>) -> (r: String)
    ensures
        r@ == v@,
{
    v.iter().collect()
}

/// Relies on `str::to_lowercase`: the result depends on the characters alone,
/// and the empty string stays empty.
#[verifier::external_body]
fn lowercase(s: &str) -> (r: String)
    ensures
        r@ == lower_of(s@),
        s@.len() == 0 ==> r@.len() == 0,
{
    s.to_lowercase()
}

/// Strips control and white-space characters at both ends of `word`, then
/// lowercases what is left.
pub fn normalize_word(word: &str) -> (r: String)
    ensures
        r@ == lower_of(trim(word@, true)),
{
    let chars = chars_of(word);
    let kept = trim_chars(&chars, true);
    let s = string_from_chars(&kept);
    lowercase(s.as_str())
}

} // verus!
