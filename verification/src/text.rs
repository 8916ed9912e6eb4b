//! Small verified operations on text, and the few std string functions the
//! library calls, each with the contract it relies on.

use vstd::prelude::*;
use vstd::string::*;

verus! {

/// The characters of `s`, in order.
pub fn chars_of(s: &str) -> (chars: Vec<char>)
    ensures
        chars@ == s@,
{
    let n = s.unicode_len();
    let mut chars: Vec<char> = Vec::new();
    let mut i: usize = 0;
    while i < n
        invariant
            n == s@.len(),
            i <= n,
            chars@ == s@.subrange(0, i as int),
        decreases n - i,
    {
        chars.push(s.get_char(i));
        i = i + 1;
    }
    chars
}

/// Whether two strings hold the same characters.
pub fn str_eq(a: &str, b: &str) -> (same: bool)
    ensures
        same == (a@ == b@),
{
    let n = a.unicode_len();
    let m = b.unicode_len();
    if n != m {
        return false;
    }
    let mut i: usize = 0;
    while i < n
        invariant
            n == a@.len(),
            m == b@.len(),
            n == m,
            i <= n,
            a@.subrange(0, i as int) == b@.subrange(0, i as int),
        decreases n - i,
    {
        if a.get_char(i) != b.get_char(i) {
            assert(a@[i as int] != b@[i as int]);
            return false;
        }
        assert(a@.subrange(0, i + 1) == a@.subrange(0, i as int).push(a@[i as int]));
        assert(b@.subrange(0, i + 1) == b@.subrange(0, i as int).push(b@[i as int]));
        i = i + 1;
    }
    assert(a@ == a@.subrange(0, n as int));
    assert(b@ == b@.subrange(0, n as int));
    true
}

/// Whether `c` has the Unicode `White_Space` property (Unicode character
/// database, `PropList.txt`), which is what `char::is_whitespace` tests.
pub open spec fn is_white_space(c: char) -> bool {
    let u = c as u32;
    ||| 0x9 <= u <= 0xD
    ||| u == 0x20
    ||| u == 0x85
    ||| u == 0xA0
    ||| u == 0x1680
    ||| 0x2000 <= u <= 0x200A
    ||| u == 0x2028
    ||| u == 0x2029
    ||| u == 0x202F
    ||| u == 0x205F
    ||| u == 0x3000
}

/// `s` without its leading white space.
pub open spec fn trim_start_spec(s: Seq<char>) -> Seq<char>
    decreases s.len(),
{
    if s.len() > 0 && is_white_space(s[0]) {
        trim_start_spec(s.drop_first())
    } else {
        s
    }
}

/// `s` without its trailing white space.
pub open spec fn trim_end_spec(s: Seq<char>) -> Seq<char>
    decreases s.len(),
{
    if s.len() > 0 && is_white_space(s.last()) {
        trim_end_spec(s.drop_last())
    } else {
        s
    }
}

/// `s` with leading and trailing white space removed.
pub open spec fn trimmed(s: Seq<char>) -> Seq<char> {
    trim_end_spec(trim_start_spec(s))
}

/// Whether `c` is white space.
fn is_white_space_char(c: char) -> (white: bool)
    ensures
        white == is_white_space(c),
{
    let u = c as u32;
    (0x9 <= u && u <= 0xD) || u == 0x20 || u == 0x85 || u == 0xA0 || u == 0x1680 || (0x2000 <= u && u
        <= 0x200A) || u == 0x2028 || u == 0x2029 || u == 0x202F || u == 0x205F || u == 0x3000
}

/// Where the part of `s` from `from` on starts once its leading white space
/// is skipped.
fn skip_white_space(s: &str, from: usize) -> (start: usize)
    requires
        from <= s@.len(),
    ensures
        from <= start <= s@.len(),
        trim_start_spec(s@.subrange(from as int, s@.len() as int)) == s@.subrange(start as int, s@.len() as int),
{
    let n = s.unicode_len();
    let mut start = from;
    while start < n && is_white_space_char(s.get_char(start))
        invariant
            from <= start <= n,
            n == s@.len(),
            trim_start_spec(s@.subrange(from as int, n as int)) == trim_start_spec(s@.subrange(start as int, n as int)),
        decreases n - start,
    {
        assert(s@.subrange(start as int, n as int).drop_first() =~= s@.subrange(start + 1, n as int));
        start = start + 1;
    }
    start
}

/// Where the part of `s` before `to` ends once its trailing white space is
/// dropped, not going below `from`.
fn drop_white_space(s: &str, from: usize, to: usize) -> (end: usize)
    requires
        from <= to <= s@.len(),
    ensures
        from <= end <= to,
        trim_end_spec(s@.subrange(from as int, to as int)) == s@.subrange(from as int, end as int),
{
    let mut end = to;
    while end > from && is_white_space_char(s.get_char(end - 1))
        invariant
            from <= end <= to,
            to <= s@.len(),
            trim_end_spec(s@.subrange(from as int, to as int)) == trim_end_spec(s@.subrange(from as int, end as int)),
        decreases end - from,
    {
        assert(s@.subrange(from as int, end as int).drop_last() =~= s@.subrange(from as int, end - 1));
        end = end - 1;
    }
    end
}

/// `s` with leading and trailing white space removed, white space being the
/// characters with the Unicode `White_Space` property, as `str::trim` does.
pub fn trim(s: &str) -> (t: &str)
    ensures
        t@ == trimmed(s@),
{
    let n = s.unicode_len();
    assert(s@.subrange(0, n as int) =~= s@);
    let start = skip_white_space(s, 0);
    let end = drop_white_space(s, start, n);
    s.substring_char(start, end)
}

/// `s` with its trailing white space removed, white space being the
/// characters with the Unicode `White_Space` property, as `str::trim_end`
/// does.
pub fn trim_end(s: &str) -> (t: &str)
    ensures
        t@ == trim_end_spec(s@),
{
    let n = s.unicode_len();
    assert(s@.subrange(0, n as int) =~= s@);
    let end = drop_white_space(s, 0, n);
    s.substring_char(0, end)
}

/// What `str::to_lowercase` returns for `s`: the Unicode lowercase mapping of
/// every character, concatenated. It depends on `s` alone.
pub uninterp spec fn lowercase(s: Seq<char>) -> Seq<char>;

/// Whether `c` is an ASCII capital letter.
pub open spec fn is_ascii_upper(c: char) -> bool {
    'A' <= c <= 'Z'
}

/// Whether every character of `s` is ASCII.
pub open spec fn all_ascii(s: Seq<char>) -> bool {
    forall|i: int| 0 <= i < s.len() ==> (#[trigger] s[i] as u32) < 128
}

/// `c` with an ASCII capital letter made small, anything else left alone.
pub open spec fn ascii_lower_char(c: char) -> char {
    if is_ascii_upper(c) {
        ((c as u32) + 32) as char
    } else {
        c
    }
}

/// `s` with every ASCII capital letter made small.
pub open spec fn ascii_lowercase(s: Seq<char>) -> Seq<char> {
    s.map_values(|c: char| ascii_lower_char(c))
}

/// Calls `str::to_lowercase`. The contract names its result, and states the
/// ASCII case of the Unicode lowercase mapping, in which `A` to `Z` become
/// `a` to `z` and every other character maps to itself, so that an all-ASCII
/// string comes back with just its capital letters made small. The rest of
/// the Unicode case tables is not restated here.
#[verifier::external_body]
pub fn to_lowercase(s: &str) -> (lower: String)
    ensures
        lower@ == lowercase(s@),
        all_ascii(s@) ==> lower@ == ascii_lowercase(s@),
{
    s.to_lowercase()
}

/// What `char::to_uppercase` yields for `c`, as a string: the Unicode
/// uppercase mapping of `c`, which may be more than one character. It depends
/// on `c` alone.
pub uninterp spec fn uppercase_char(c: char) -> Seq<char>;

/// Calls `char::to_uppercase` and collects the characters it yields. The
/// contract names the result and says nothing more.
#[verifier::external_body]
pub fn char_to_uppercase(c: char) -> (upper: String)
    ensures
        upper@ == uppercase_char(c),
{
    c.to_uppercase().to_string()
}

/// Calls `String::push`, which appends one character.
#[verifier::external_body]
pub fn push_char(s: &mut String, c: char)
    ensures
        final(s)@ == old(s)@.push(c),
{
    s.push(c);
}

/// A string holding exactly the characters of `chars`.
pub fn string_from_chars(chars: &Vec<char>) -> (s: String)
    ensures
        s@ == chars@,
{
    let mut s = String::new();
    let mut i: usize = 0;
    while i < chars.len()
        invariant
            i <= chars@.len(),
            s@ == chars@.subrange(0, i as int),
        decreases chars@.len() - i,
    {
        push_char(&mut s, chars[i]);
        assert(chars@.subrange(0, i + 1) == chars@.subrange(0, i as int).push(chars@[i as int]));
        i = i + 1;
    }
    assert(chars@.subrange(0, chars@.len() as int) == chars@);
    s
}

/// A copy of `s` as an owned string.
pub fn owned(s: &str) -> (o: String)
    ensures
        o@ == s@,
{
    let mut o = String::new();
    o.append(s);
    o
}

/// Whether `chars` holds exactly the characters of `s`.
pub fn chars_eq_str(chars: &Vec<char>, s: &str) -> (same: bool)
    ensures
        same == (chars@ == s@),
{
    let other = chars_of(s);
    if chars.len() != other.len() {
        return false;
    }
    let mut i: usize = 0;
    while i < chars.len()
        invariant
            chars@.len() == other@.len(),
            other@ == s@,
            i <= chars@.len(),
            forall|j: int| 0 <= j < i ==> chars@[j] == other@[j],
        decreases chars@.len() - i,
    {
        if chars[i] != other[i] {
            return false;
        }
        i = i + 1;
    }
    assert(chars@ =~= other@);
    true
}

/// Whether `s` begins with `prefix`.
pub open spec fn starts_with(s: Seq<char>, prefix: Seq<char>) -> bool {
    prefix.len() <= s.len() && s.subrange(0, prefix.len() as int) == prefix
}

/// Whether the characters of `chars` from `pos` on begin with `prefix`.
pub fn has_prefix_at(chars: &Vec<char>, pos: usize, prefix: &str) -> (found: bool)
    requires
        pos <= chars@.len(),
    ensures
        found == starts_with(chars@.skip(pos as int), prefix@),
{
    let p = chars_of(prefix);
    if p.len() > chars.len() - pos {
        return false;
    }
    let mut i: usize = 0;
    while i < p.len()
        invariant
            p@ == prefix@,
            pos + p@.len() <= chars@.len(),
            chars@.len() <= usize::MAX,
            i <= p@.len(),
            forall|j: int| 0 <= j < i ==> chars@[pos + j] == p@[j],
        decreases p@.len() - i,
    {
        if chars[pos + i] != p[i] {
            assert(chars@.skip(pos as int).subrange(0, p@.len() as int)[i as int] != p@[i as int]);
            return false;
        }
        i = i + 1;
    }
    assert(chars@.skip(pos as int).subrange(0, p@.len() as int) =~= p@);
    true
}

} // verus!
