use vstd::prelude::*;
use vstd::string::StrSliceExecFns;

verus! {

/// What `str::to_lowercase` gives for a string: its lowercase equivalent
/// under the Unicode `Lowercase` property.
pub uninterp spec fn lowercase_of(s: Seq<char>) -> Seq<char>;

/// What `str::to_uppercase` gives for a string: its uppercase equivalent
/// under the Unicode `Uppercase` property.
pub uninterp spec fn uppercase_of(s: Seq<char>) -> Seq<char>;

/// Whether `c` has the Unicode `White_Space` property, which
/// `char::is_whitespace` tests: the 25 code points U+0009 to U+000D, U+0020,
/// U+0085, U+00A0, U+1680, U+2000 to U+200A, U+2028, U+2029, U+202F, U+205F
/// and U+3000.
pub open spec fn is_white_space(c: char) -> bool {
    ||| ('\u{9}' <= c && c <= '\u{d}')
    ||| c == ' '
    ||| c == '\u{85}'
    ||| c == '\u{a0}'
    ||| c == '\u{1680}'
    ||| ('\u{2000}' <= c && c <= '\u{200a}')
    ||| c == '\u{2028}'
    ||| c == '\u{2029}'
    ||| c == '\u{202f}'
    ||| c == '\u{205f}'
    ||| c == '\u{3000}'
}

/// `s` without its leading white space.
pub open spec fn trimmed_start(s: Seq<char>) -> Seq<char>
    decreases s.len(),
{
    if s.len() > 0 && is_white_space(s[0]) {
        trimmed_start(s.drop_first())
    } else {
        s
    }
}

/// `s` without its trailing white space.
pub open spec fn trimmed_end(s: Seq<char>) -> Seq<char>
    decreases s.len(),
{
    if s.len() > 0 && is_white_space(s.last()) {
        trimmed_end(s.drop_last())
    } else {
        s
    }
}

/// What `str::trim` gives for a string: the string without its leading and
/// trailing white space.
pub open spec fn trimmed(s: Seq<char>) -> Seq<char> {
    trimmed_end(trimmed_start(s))
}

/// The pieces of `s` between its newlines, in order: one more piece than
/// there are newlines, empty pieces included.
pub open spec fn split_at_newlines(s: Seq<char>) -> Seq<Seq<char>>
    decreases s.len(),
{
    if s.len() == 0 {
        seq![Seq::empty()]
    } else {
        let prev = split_at_newlines(s.drop_last());
        if s.last() == '\n' {
            prev.push(Seq::empty())
        } else {
            prev.update(prev.len() - 1, prev.last().push(s.last()))
        }
    }
}

/// `line` without one trailing carriage return.
pub open spec fn without_cr(line: Seq<char>) -> Seq<char> {
    if line.len() > 0 && line.last() == '\r' {
        line.drop_last()
    } else {
        line
    }
}

/// What `str::lines` yields for a string: its lines, split at `\n`, the
/// final line ending being optional; a line ended by `\r\n` loses the `\r`
/// too. The empty string has no lines.
pub open spec fn lines_of(s: Seq<char>) -> Seq<Seq<char>> {
    if s.len() == 0 {
        Seq::empty()
    } else {
        let ended = s.last() == '\n';
        let body = if ended {
            s.drop_last()
        } else {
            s
        };
        let pieces = split_at_newlines(body);
        Seq::new(
            pieces.len(),
            |i: int|
                if i < pieces.len() - 1 || ended {
                    without_cr(pieces[i])
                } else {
                    pieces[i]
                },
        )
    }
}

/// Calls `str::to_lowercase`; trusted to return the string that
/// `lowercase_of` names for the argument.
#[verifier::external_body]
pub(crate) fn to_lowercase(s: &str) -> (r: String)
    ensures
        r@ == lowercase_of(s@),
{
    s.to_lowercase()
}

/// Calls `str::to_uppercase`; trusted to return the string that
/// `uppercase_of` names for the argument.
#[verifier::external_body]
pub(crate) fn to_uppercase(s: &str) -> (r: String)
    ensures
        r@ == uppercase_of(s@),
{
    s.to_uppercase()
}

/// Calls `str::trim`; trusted to remove leading and trailing white space,
/// as its documentation says (`trimmed`).
#[verifier::external_body]
pub(crate) fn trim(s: &str) -> (r: &str)
    ensures
        r@ == trimmed(s@),
{
    s.trim()
}

/// Calls `str::lines` and collects the lines; trusted to return them as its
/// documentation describes them (`lines_of`).
#[verifier::external_body]
pub(crate) fn lines(s: &str) -> (r: Vec<&str>)
    ensures
        r@.map_values(|l: &str| l@) == lines_of(s@),
{
    s.lines().collect()
}

/// Calls `String::push`; trusted to append `c` to the end of `s`, as its
/// documentation says.
#[verifier::external_body]
pub(crate) fn push_char(s: &mut String, c: char)
    ensures
        final(s)@ == old(s)@.push(c),
{
    s.push(c)
}

/// The string made of the characters of `chars`, in order.
pub fn string_from_chars(chars: &[char]) -> (s: String)
    ensures
        s@ == chars@,
{
    let mut s = String::new();
    let mut i: usize = 0;
    while i < chars.len()
        invariant
            0 <= i <= chars@.len(),
            s@ == chars@.subrange(0, i as int),
        decreases chars@.len() - i,
    {
        push_char(&mut s, chars[i]);
        i += 1;
        assert(s@ =~= chars@.subrange(0, i as int));
    }
    assert(chars@.subrange(0, chars@.len() as int) =~= chars@);
    s
}

/// `char::to_ascii_uppercase`: `a`..`z` become `A`..`Z`, every other
/// character stays as it is.
pub open spec fn ascii_upper(c: char) -> char {
    if 'a' <= c <= 'z' {
        ((c as u32) - 32) as char
    } else {
        c
    }
}

/// Maps `a`..`z` to `A`..`Z` and leaves every other character as it is,
/// as `char::to_ascii_uppercase` does.
pub fn to_ascii_upper(c: char) -> (r: char)
    ensures
        r == ascii_upper(c),
{
    if 'a' <= c && c <= 'z' {
        let b: u8 = c as u8;
        let r = (b - 32) as char;
        assert(r == ((c as u32) - 32) as char);
        r
    } else {
        c
    }
}

/// Whether two strings hold the same characters.
pub fn str_equal(a: &str, b: &str) -> (r: bool)
    ensures
        r == (a@ == b@),
{
    let n = a.unicode_len();
    if n != b.unicode_len() {
        return false;
    }
    let mut i: usize = 0;
    while i < n
        invariant
            n == a@.len(),
            n == b@.len(),
            0 <= i <= n,
            forall|j: int| 0 <= j < i ==> a@[j] == b@[j],
        decreases n - i,
    {
        if a.get_char(i) != b.get_char(i) {
            return false;
        }
        i += 1;
    }
    assert(a@ =~= b@);
    true
}

/// Every letter `a`..`z` becomes the letter 32 code points below it, which
/// lies in `A`..`Z`; every other character is left as it is.
pub proof fn law_ascii_upper(c: char)
    ensures
        'a' <= c <= 'z' ==> (ascii_upper(c) as u32) == (c as u32) - 32 && 'A' <= ascii_upper(c)
            <= 'Z',
        !('a' <= c <= 'z') ==> ascii_upper(c) == c,
{
    if 'a' <= c <= 'z' {
        let u: u32 = ((c as u32) - 32) as u32;
        assert(65 <= u <= 90);
        assert(((u as char) as u32) == u);
    }
}

} // verus!
