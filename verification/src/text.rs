//! Character-level text helpers.
//!
//! All text processing in the library works on `Seq<char>` models: strings are
//! turned into vectors of characters at the edges, processed by verified loops,
//! and turned back into `String`s.

use vstd::prelude::*;
use vstd::std_specs::iter::IteratorSpec;

verus! {

// ---------------------------------------------------------------------------
// Specifications
// ---------------------------------------------------------------------------

/// The Unicode `White_Space` property, which is what `char::is_whitespace`
/// tests.
pub open spec fn is_ws(c: char) -> bool {
    ||| ('\u{9}' <= c && c <= '\u{d}')
    ||| c == ' '
    ||| c == '\u{85}'
    ||| c == '\u{a0}'
    ||| c == '\u{1680}'
    ||| ('\u{2000}' <= c && c <= '\u{200a}')
    ||| c == '\u{2028}'
    ||| c == '\u{2029}'
    ||| c == '\u{202f}'
    ||| c == '\u{205f}'
    ||| c == '\u{3000}'
}

/// `s` with its leading whitespace removed (`str::trim_start`).
pub open spec fn trim_start(s: Seq<char>) -> Seq<char>
    decreases s.len(),
{
    if s.len() > 0 && is_ws(s[0]) {
        trim_start(s.drop_first())
    } else {
        s
    }
}

/// `s` with its trailing whitespace removed (`str::trim_end`).
pub open spec fn trim_end(s: Seq<char>) -> Seq<char>
    decreases s.len(),
{
    if s.len() > 0 && is_ws(s.last()) {
        trim_end(s.drop_last())
    } else {
        s
    }
}

/// `s` with leading and trailing whitespace removed (`str::trim`).
pub open spec fn trim(s: Seq<char>) -> Seq<char> {
    trim_end(trim_start(s))
}

/// `s` holds a whitespace character somewhere.
pub open spec fn has_ws(s: Seq<char>) -> bool {
    exists|i: int| 0 <= i < s.len() && is_ws(#[trigger] s[i])
}

/// `s` is empty once trimmed (`s.trim().is_empty()`).
pub open spec fn is_blank(s: Seq<char>) -> bool {
    forall|i: int| 0 <= i < s.len() ==> is_ws(#[trigger] s[i])
}

/// ASCII lowercase mapping of one character (`char::to_ascii_lowercase`).
pub open spec fn ascii_lower(c: char) -> char {
    if 'A' <= c && c <= 'Z' {
        ((c as u32) + 32) as char
    } else {
        c
    }
}

/// `str::to_ascii_lowercase`.
pub open spec fn lower(s: Seq<char>) -> Seq<char> {
    Seq::new(s.len(), |i: int| ascii_lower(s[i]))
}

/// `p` is a prefix of `s` (`str::starts_with`).
pub open spec fn starts_with(s: Seq<char>, p: Seq<char>) -> bool {
    p.len() <= s.len() && s.subrange(0, p.len() as int) == p
}

/// `p` is a suffix of `s` (`str::ends_with`).
pub open spec fn ends_with(s: Seq<char>, p: Seq<char>) -> bool {
    p.len() <= s.len() && s.subrange(s.len() - p.len(), s.len() as int) == p
}

/// `p` occurs in `s` at position `i`.
pub open spec fn occurs_at(s: Seq<char>, p: Seq<char>, i: int) -> bool {
    0 <= i && i + p.len() <= s.len() && s.subrange(i, i + p.len()) == p
}

/// `p` occurs somewhere in `s` (`str::contains`).
pub open spec fn contains_seq(s: Seq<char>, p: Seq<char>) -> bool {
    exists|i: int| occurs_at(s, p, i)
}

/// Index of the first occurrence of `c` in `s`.
pub open spec fn find_char(s: Seq<char>, c: char) -> Option<int>
    decreases s.len(),
{
    if s.len() == 0 {
        None
    } else if s[0] == c {
        Some(0)
    } else {
        match find_char(s.drop_first(), c) {
            Some(i) => Some(i + 1),
            None => None,
        }
    }
}

/// What `find_char` finds is in range, equal to `c`, and the first such index.
pub proof fn lemma_find_char(s: Seq<char>, c: char)
    ensures
        match find_char(s, c) {
            Some(i) => 0 <= i < s.len() && s[i] == c && forall|k: int|
                0 <= k < i ==> s[k] != c,
            None => forall|k: int| 0 <= k < s.len() ==> s[k] != c,
        },
    decreases s.len(),
{
    if s.len() > 0 && s[0] != c {
        lemma_find_char(s.drop_first(), c);
        match find_char(s.drop_first(), c) {
            Some(i) => {
                assert forall|k: int| 0 <= k < i + 1 implies s[k] != c by {
                    if k > 0 {
                        assert(s[k] == s.drop_first()[k - 1]);
                    }
                }
            },
            None => {
                assert forall|k: int| 0 <= k < s.len() implies s[k] != c by {
                    if k > 0 {
                        assert(s[k] == s.drop_first()[k - 1]);
                    }
                }
            },
        }
    }
}

/// `str::split_once` with a single-character delimiter.
pub open spec fn split_once(s: Seq<char>, c: char) -> Option<(Seq<char>, Seq<char>)> {
    match find_char(s, c) {
        Some(i) => Some((s.subrange(0, i), s.subrange(i + 1, s.len() as int))),
        None => None,
    }
}

/// Removes every trailing character that is `\r` or `\n`
/// (`str::trim_end_matches(['\r', '\n'])`).
pub open spec fn trim_end_newlines(s: Seq<char>) -> Seq<char>
    decreases s.len(),
{
    if s.len() > 0 && (s.last() == '\r' || s.last() == '\n') {
        trim_end_newlines(s.drop_last())
    } else {
        s
    }
}

/// One line of `str::lines`: a trailing `\n`, and a `\r` before it, are removed.
pub open spec fn strip_line_ending(line: Seq<char>) -> Seq<char> {
    if line.len() > 0 && line.last() == '\n' {
        let l = line.drop_last();
        if l.len() > 0 && l.last() == '\r' {
            l.drop_last()
        } else {
            l
        }
    } else {
        line
    }
}

/// `s.split(c)`: the pieces between occurrences of `c`, always at least one.
pub open spec fn split_char(s: Seq<char>, c: char) -> Seq<Seq<char>>
    decreases s.len(),
{
    proof {
        lemma_find_char(s, c);
    }
    match find_char(s, c) {
        Some(i) => seq![s.subrange(0, i)] + split_char(s.subrange(i + 1, s.len() as int), c),
        None => seq![s],
    }
}

/// `str::lines`: lines separated by `\n`, each without its `\n` or `\r\n`
/// ending; a final line ending does not start an empty line.
pub open spec fn lines(s: Seq<char>) -> Seq<Seq<char>>
    decreases s.len(),
{
    if s.len() == 0 {
        Seq::empty()
    } else {
        proof {
            lemma_find_char(s, '\n');
        }
        match find_char(s, '\n') {
            Some(i) => seq![strip_line_ending(s.subrange(0, i + 1))] + lines(
                s.subrange(i + 1, s.len() as int),
            ),
            None => seq![s],
        }
    }
}

/// Concatenation of a sequence of strings (`[String]::concat`).
pub open spec fn concat_all(parts: Seq<Seq<char>>) -> Seq<char>
    decreases parts.len(),
{
    if parts.len() == 0 {
        Seq::empty()
    } else {
        concat_all(parts.drop_last()) + parts.last()
    }
}

/// Parts joined with a separator (`[String]::join`).
pub open spec fn join_with(parts: Seq<Seq<char>>, sep: Seq<char>) -> Seq<char>
    decreases parts.len(),
{
    if parts.len() == 0 {
        Seq::empty()
    } else if parts.len() == 1 {
        parts[0]
    } else {
        join_with(parts.drop_last(), sep) + sep + parts.last()
    }
}

/// The decimal digit for `d < 10`.
pub open spec fn digit(d: nat) -> char {
    (('0' as u32) + d) as char
}

/// Decimal representation of a natural number (no leading zeros).
pub open spec fn decimal(n: nat) -> Seq<char>
    decreases n,
{
    if n < 10 {
        seq![digit(n)]
    } else {
        decimal(n / 10).push(digit(n % 10))
    }
}

/// Decimal representation of an integer, with a leading `-` when negative
/// (what `to_string` gives for Rust integers).
pub open spec fn int_decimal(n: int) -> Seq<char> {
    if n < 0 {
        seq!['-'] + decimal((-n) as nat)
    } else {
        decimal(n as nat)
    }
}

/// `trim_start(s)` drops exactly the leading whitespace run of `s`.
pub proof fn lemma_trim_start_index(s: Seq<char>) -> (k: int)
    ensures
        0 <= k <= s.len(),
        trim_start(s) == s.skip(k),
        forall|j: int| 0 <= j < k ==> is_ws(#[trigger] s[j]),
        k < s.len() ==> !is_ws(s[k]),
    decreases s.len(),
{
    if s.len() > 0 && is_ws(s[0]) {
        let k1 = lemma_trim_start_index(s.drop_first());
        assert(s.drop_first().skip(k1) =~= s.skip(k1 + 1));
        assert forall|j: int| 0 <= j < k1 + 1 implies is_ws(#[trigger] s[j]) by {
            if j > 0 {
                assert(s[j] == s.drop_first()[j - 1]);
            }
        }
        k1 + 1
    } else {
        assert(s.skip(0) =~= s);
        0
    }
}

/// `trim_end(s)` drops exactly the trailing whitespace run of `s`.
pub proof fn lemma_trim_end_index(s: Seq<char>) -> (k: int)
    ensures
        0 <= k <= s.len(),
        trim_end(s) == s.take(k),
        forall|j: int| k <= j < s.len() ==> is_ws(#[trigger] s[j]),
        k > 0 ==> !is_ws(s[k - 1]),
    decreases s.len(),
{
    if s.len() > 0 && is_ws(s.last()) {
        let k1 = lemma_trim_end_index(s.drop_last());
        assert(s.drop_last().take(k1) =~= s.take(k1));
        assert forall|j: int| k1 <= j < s.len() implies is_ws(#[trigger] s[j]) by {
            if j < s.len() - 1 {
                assert(s[j] == s.drop_last()[j]);
            }
        }
        k1
    } else {
        assert(s.take(s.len() as int) =~= s);
        s.len() as int
    }
}

/// The trimmed text starts and ends with non-whitespace, when not empty.
pub proof fn lemma_trim_ends(s: Seq<char>)
    ensures
        trim(s).len() > 0 ==> !is_ws(trim(s)[0]) && !is_ws(trim(s).last()),
{
    let a = lemma_trim_start_index(s);
    let t = trim_start(s);
    let b = lemma_trim_end_index(t);
    if trim(s).len() > 0 {
        assert(trim(s)[0] == t[0]);
    }
}

/// Text that neither starts nor ends with whitespace is its own trim.
pub proof fn lemma_trim_fixed(s: Seq<char>)
    requires
        s.len() > 0 ==> !is_ws(s[0]) && !is_ws(s.last()),
    ensures
        trim_start(s) == s,
        trim_end(s) == s,
        trim(s) == s,
{
}

/// Trimming twice is trimming once.
pub proof fn lemma_trim_idempotent(s: Seq<char>)
    ensures
        trim(trim(s)) == trim(s),
{
    lemma_trim_ends(s);
    lemma_trim_fixed(trim(s));
}

/// The character sequences held by a vector of character vectors.
pub open spec fn seqs(v: Seq<Vec<char>>) -> Seq<Seq<char>> {
    v.map_values(|x: Vec<char>| x@)
}

/// The character sequences held by a vector of strings.
pub open spec fn strs(v: Seq<String>) -> Seq<Seq<char>> {
    v.map_values(|x: String| x@)
}

/// The characters of an optional string.
pub open spec fn opt_view(o: Option<String>) -> Option<Seq<char>> {
    match o {
        Some(s) => Some(s@),
        None => None,
    }
}

/// A list of string pairs as character pairs.
pub open spec fn pairs_view(v: Seq<(String, String)>) -> Seq<(Seq<char>, Seq<char>)> {
    v.map_values(|p: (String, String)| (p.0@, p.1@))
}

/// `find_char` finds the first occurrence.
pub proof fn lemma_find_char_is(s: Seq<char>, c: char, k: int)
    requires
        0 <= k < s.len(),
        s[k] == c,
        forall|j: int| 0 <= j < k ==> s[j] != c,
    ensures
        find_char(s, c) == Some(k),
    decreases k,
{
    if k > 0 {
        assert forall|j: int| 0 <= j < k - 1 implies s.drop_first()[j] != c by {
            assert(s.drop_first()[j] == s[j + 1]);
        }
        lemma_find_char_is(s.drop_first(), c, k - 1);
    }
}

/// `find_char` finds nothing when the character does not occur.
pub proof fn lemma_find_char_none(s: Seq<char>, c: char)
    requires
        forall|j: int| 0 <= j < s.len() ==> s[j] != c,
    ensures
        find_char(s, c) is None,
    decreases s.len(),
{
    if s.len() > 0 {
        assert forall|j: int| 0 <= j < s.len() - 1 implies s.drop_first()[j] != c by {
            assert(s.drop_first()[j] == s[j + 1]);
        }
        lemma_find_char_none(s.drop_first(), c);
    }
}

/// Index of the first whitespace character, or the length when there is none.
pub open spec fn first_ws(s: Seq<char>) -> int
    decreases s.len(),
{
    if s.len() == 0 {
        0
    } else if is_ws(s[0]) {
        0
    } else {
        1 + first_ws(s.drop_first())
    }
}

pub proof fn lemma_first_ws_bounds(s: Seq<char>)
    ensures
        0 <= first_ws(s) <= s.len(),
        s.len() > 0 && !is_ws(s[0]) ==> first_ws(s) >= 1,
    decreases s.len(),
{
    if s.len() > 0 && !is_ws(s[0]) {
        lemma_first_ws_bounds(s.drop_first());
    }
}

/// `str::split_whitespace`: the maximal runs of non-whitespace characters.
pub open spec fn words(s: Seq<char>) -> Seq<Seq<char>>
    decreases s.len(),
{
    let t = trim_start(s);
    if t.len() == 0 {
        Seq::empty()
    } else {
        let k = first_ws(t);
        proof {
            let a = lemma_trim_start_index(s);
            lemma_first_ws_bounds(t);
        }
        seq![t.subrange(0, k)] + words(t.subrange(k, t.len() as int))
    }
}

/// Text pieces joined with spaces, then with whitespace runs collapsed to
/// single spaces and the ends trimmed.
pub open spec fn collect_text(pieces: Seq<Seq<char>>) -> Seq<char> {
    join_with(words(join_with(pieces, " "@)), " "@)
}

/// Skipping a whitespace run at the front of `s[pos..]`.
pub proof fn lemma_trim_start_sub(s: Seq<char>, pos: int, a: int)
    requires
        0 <= pos <= a <= s.len(),
        forall|j: int| pos <= j < a ==> is_ws(s[j]),
        a == s.len() || !is_ws(s[a]),
    ensures
        trim_start(s.subrange(pos, s.len() as int)) == s.subrange(a, s.len() as int),
    decreases a - pos,
{
    let sub = s.subrange(pos, s.len() as int);
    if pos < a {
        assert(sub.drop_first() =~= s.subrange(pos + 1, s.len() as int));
        assert(sub[0] == s[pos]);
        lemma_trim_start_sub(s, pos + 1, a);
    } else if a < s.len() {
        assert(sub[0] == s[a]);
    }
}

/// The first whitespace of `t` is at `b`.
pub proof fn lemma_first_ws_at(t: Seq<char>, b: int)
    requires
        0 <= b <= t.len(),
        forall|j: int| 0 <= j < b ==> !is_ws(t[j]),
        b == t.len() || is_ws(t[b]),
    ensures
        first_ws(t) == b,
    decreases b,
{
    if b > 0 {
        assert forall|j: int| 0 <= j < b - 1 implies !is_ws(t.drop_first()[j]) by {
            assert(t.drop_first()[j] == t[j + 1]);
        }
        if b < t.len() {
            assert(t.drop_first()[b - 1] == t[b]);
        }
        lemma_first_ws_at(t.drop_first(), b - 1);
    }
}

// ---------------------------------------------------------------------------
// Conversions at the edges (std)
// ---------------------------------------------------------------------------

/// The characters of `s`, in order, read with `str::chars`.
pub(crate) fn chars_of(s: &str) -> (r: Vec<char>)
    ensures
        r@ == s@,
{
    broadcast use vstd::string::group_string_axioms;

    let mut iter = s.chars();
    let mut r: Vec<char> = Vec::new();
    loop
        invariant
            r@ + iter.remaining() == s@,
            iter.obeys_prophetic_iter_laws(),
            iter.decrease() is Some,
        ensures
            r@ == s@,
        decreases iter.decrease()->0,
    {
        match iter.next() {
            Some(c) => {
                r.push(c);
            },
            None => {
                assert(r@ + iter.remaining() =~= r@);
                break;
            },
        }
    }
    r
}

/// Collects characters into a `String` (`FromIterator<char> for String`),
/// which std documents as the string made of those characters in order.
#[verifier::external_body]
pub(crate) fn string_of(chars: &[char]) -> (r: String)
    ensures
        r@ == chars@,
{
    chars.iter().collect()
}

/// The text that `{:?}` gives for a string: the string in double quotes,
/// with quotes, backslashes and unprintable characters escaped.
pub uninterp spec fn debug_str_spec(s: Seq<char>) -> Seq<char>;

/// `<str as Debug>::fmt`, through `format!("{:?}")`.
///
/// Trusted: the result is `debug_str_spec(s)`; the escaping rules are std's
/// and are not restated here.
#[verifier::external_body]
pub(crate) fn debug_str(s: &str) -> (r: String)
    ensures
        r@ == debug_str_spec(s@),
{
    format!("{:?}", s)
}

/// The text that `{:?}` gives for an `Option<String>`.
pub open spec fn debug_opt(o: Option<Seq<char>>) -> Seq<char> {
    match o {
        None => "None"@,
        Some(s) => "Some("@ + debug_str_spec(s) + ")"@,
    }
}

// ---------------------------------------------------------------------------
// Executable helpers
// ---------------------------------------------------------------------------

/// `char::is_whitespace`.
pub fn is_whitespace(c: char) -> (r: bool)
    ensures
        r == is_ws(c),
{
    ('\u{9}' <= c && c <= '\u{d}') || c == ' ' || c == '\u{85}' || c == '\u{a0}' || c
        == '\u{1680}' || ('\u{2000}' <= c && c <= '\u{200a}') || c == '\u{2028}' || c
        == '\u{2029}' || c == '\u{202f}' || c == '\u{205f}' || c == '\u{3000}'
}

/// `char::to_ascii_lowercase`.
pub fn to_ascii_lower(c: char) -> (r: char)
    ensures
        r == ascii_lower(c),
{
    if 'A' <= c && c <= 'Z' {
        let v: u32 = (c as u32) + 32;
        assert(0x61 <= v <= 0x7a);
        char_from_ascii(v)
    } else {
        c
    }
}

/// Builds an ASCII character from its code point.
fn char_from_ascii(v: u32) -> (r: char)
    requires
        v < 0x80,
    ensures
        r == v as char,
{
    let b: u8 = v as u8;
    b as char
}

/// The characters `s[from..to]` as a new vector.
pub fn copy_range(s: &[char], from: usize, to: usize) -> (r: Vec<char>)
    requires
        from <= to <= s@.len(),
    ensures
        r@ == s@.subrange(from as int, to as int),
{
    let mut r: Vec<char> = Vec::new();
    let mut i = from;
    while i < to
        invariant
            from <= i <= to <= s@.len(),
            r@ == s@.subrange(from as int, i as int),
        decreases to - i,
    {
        r.push(s[i]);
        i = i + 1;
        assert(r@ =~= s@.subrange(from as int, i as int));
    }
    r
}

proof fn lemma_trim_start_skip(s: Seq<char>, i: int)
    requires
        0 <= i < s.len(),
        is_ws(s[i]),
    ensures
        trim_start(s.skip(i)) == trim_start(s.skip(i + 1)),
{
    assert(s.skip(i).drop_first() =~= s.skip(i + 1));
}

proof fn lemma_trim_end_sub(s: Seq<char>, i: int, j: int)
    requires
        0 <= i < j <= s.len(),
        is_ws(s[j - 1]),
    ensures
        trim_end(s.subrange(i, j)) == trim_end(s.subrange(i, j - 1)),
{
    assert(s.subrange(i, j).drop_last() =~= s.subrange(i, j - 1));
}

/// Bounds `(start, end)` of `trim(s)` inside `s`.
pub fn trim_bounds(s: &[char]) -> (r: (usize, usize))
    ensures
        r.0 <= r.1 <= s@.len(),
        trim(s@) == s@.subrange(r.0 as int, r.1 as int),
        trim_start(s@) == s@.subrange(r.0 as int, s@.len() as int),
        forall|k: int| 0 <= k < r.0 ==> is_ws(#[trigger] s@[k]),
        forall|k: int| r.1 <= k < s@.len() ==> is_ws(#[trigger] s@[k]),
        r.0 < r.1 ==> !is_ws(s@[r.0 as int]) && !is_ws(s@[r.1 - 1]),
{
    let n = s.len();
    let mut i: usize = 0;
    assert(s@.skip(0) =~= s@);
    while i < n && is_whitespace(s[i])
        invariant
            i <= n == s@.len(),
            trim_start(s@) == trim_start(s@.skip(i as int)),
            forall|k: int| 0 <= k < i ==> is_ws(#[trigger] s@[k]),
        decreases n - i,
    {
        proof {
            lemma_trim_start_skip(s@, i as int);
        }
        i = i + 1;
    }
    assert(trim_start(s@.skip(i as int)) == s@.skip(i as int)) by {
        if i < n {
            assert(s@.skip(i as int)[0] == s@[i as int]);
        }
    }
    assert(s@.skip(i as int) =~= s@.subrange(i as int, n as int));
    let mut j: usize = n;
    while j > i && is_whitespace(s[j - 1])
        invariant
            i <= j <= n == s@.len(),
            trim(s@) == trim_end(s@.subrange(i as int, j as int)),
            forall|k: int| j <= k < n ==> is_ws(#[trigger] s@[k]),
        decreases j,
    {
        proof {
            lemma_trim_end_sub(s@, i as int, j as int);
        }
        j = j - 1;
    }
    assert(trim_end(s@.subrange(i as int, j as int)) == s@.subrange(i as int, j as int)) by {
        if i < j {
            assert(s@.subrange(i as int, j as int).last() == s@[j - 1]);
        }
    }
    (i, j)
}

/// `s.trim()` as characters.
pub fn trim_chars(s: &[char]) -> (r: Vec<char>)
    ensures
        r@ == trim(s@),
{
    let (i, j) = trim_bounds(s);
    copy_range(s, i, j)
}

/// `s.trim_start()` as characters.
pub fn trim_start_chars(s: &[char]) -> (r: Vec<char>)
    ensures
        r@ == trim_start(s@),
{
    let (i, _j) = trim_bounds(s);
    copy_range(s, i, s.len())
}

/// Whether `s.trim().is_empty()`.
pub fn blank(s: &[char]) -> (r: bool)
    ensures
        r == is_blank(s@),
        r == (trim(s@).len() == 0),
{
    let (i, j) = trim_bounds(s);
    if i < j {
        assert(!is_ws(s@[i as int]));
    }
    i == j
}

/// Whether `s` holds a whitespace character.
pub fn contains_whitespace(s: &[char]) -> (r: bool)
    ensures
        r == has_ws(s@),
{
    let mut i: usize = 0;
    while i < s.len()
        invariant
            i <= s@.len(),
            forall|k: int| 0 <= k < i ==> !is_ws(#[trigger] s@[k]),
        decreases s@.len() - i,
    {
        if is_whitespace(s[i]) {
            assert(is_ws(s@[i as int]));
            return true;
        }
        i = i + 1;
    }
    false
}

/// `s.to_ascii_lowercase()` as characters.
pub fn lower_chars(s: &[char]) -> (r: Vec<char>)
    ensures
        r@ == lower(s@),
{
    let mut r: Vec<char> = Vec::new();
    let mut i: usize = 0;
    while i < s.len()
        invariant
            i <= s@.len(),
            r@ =~= Seq::new(i as nat, |k: int| ascii_lower(s@[k])),
        decreases s@.len() - i,
    {
        r.push(to_ascii_lower(s[i]));
        i = i + 1;
    }
    r
}

/// Whether `p` occurs in `s` at position `at`.
pub fn matches_at(s: &[char], p: &[char], at: usize) -> (r: bool)
    ensures
        r == occurs_at(s@, p@, at as int),
{
    if at > s.len() || p.len() > s.len() - at {
        return false;
    }
    let mut k: usize = 0;
    while k < p.len()
        invariant
            at + p@.len() <= s@.len(),
            s.len() == s@.len(),
            p.len() == p@.len(),
            k <= p@.len(),
            forall|m: int| 0 <= m < k ==> s@[at + m] == p@[m],
        decreases p@.len() - k,
    {
        if s[at + k] != p[k] {
            assert(s@.subrange(at as int, at + p@.len())[k as int] != p@[k as int]);
            return false;
        }
        k = k + 1;
    }
    assert(s@.subrange(at as int, at + p@.len()) =~= p@);
    true
}

/// `s.starts_with(p)`.
pub fn has_prefix(s: &[char], p: &[char]) -> (r: bool)
    ensures
        r == starts_with(s@, p@),
{
    let r = matches_at(s, p, 0);
    assert(r == starts_with(s@, p@)) by {
        if p@.len() <= s@.len() {
            assert(s@.subrange(0, p@.len() as int) == s@.subrange(0, 0 + p@.len() as int));
        }
    }
    r
}

/// `s.ends_with(p)`.
pub fn has_suffix(s: &[char], p: &[char]) -> (r: bool)
    ensures
        r == ends_with(s@, p@),
{
    if p.len() > s.len() {
        return false;
    }
    matches_at(s, p, s.len() - p.len())
}

/// `s.contains(p)`.
pub fn contains_chars(s: &[char], p: &[char]) -> (r: bool)
    ensures
        r == contains_seq(s@, p@),
{
    if p.len() > s.len() {
        assert forall|i: int| !occurs_at(s@, p@, i) by {}
        return false;
    }
    let last = s.len() - p.len();
    let mut i: usize = 0;
    while i < last
        invariant
            last + p@.len() == s@.len(),
            i <= last,
            forall|k: int| 0 <= k < i ==> !occurs_at(s@, p@, k),
        decreases last - i,
    {
        if matches_at(s, p, i) {
            return true;
        }
        i = i + 1;
    }
    if matches_at(s, p, last) {
        return true;
    }
    assert forall|k: int| !occurs_at(s@, p@, k) by {
        if 0 <= k && k + p@.len() <= s@.len() {
            assert(k <= last);
        }
    }
    false
}

/// Compares two character sequences.
pub fn chars_eq(a: &[char], b: &[char]) -> (r: bool)
    ensures
        r == (a@ == b@),
{
    if a.len() != b.len() {
        return false;
    }
    let r = matches_at(a, b, 0);
    assert(r == (a@ == b@)) by {
        assert(a@.subrange(0, 0 + b@.len() as int) =~= a@);
    }
    r
}

/// Decimal text of an unsigned integer.
pub fn u64_decimal(n: u64) -> (r: Vec<char>)
    ensures
        r@ == decimal(n as nat),
    decreases n,
{
    if n < 10 {
        let d = digit_char(n);
        let mut r: Vec<char> = Vec::new();
        r.push(d);
        assert(r@ =~= seq![digit(n as nat)]);
        r
    } else {
        let mut r = u64_decimal(n / 10);
        let d = digit_char(n % 10);
        r.push(d);
        r
    }
}

fn digit_char(d: u64) -> (r: char)
    requires
        d < 10,
    ensures
        r == digit(d as nat),
{
    let v: u32 = 48 + d as u32;
    char_from_ascii(v)
}

/// Decimal text of a signed integer, as `to_string` writes it.
pub fn i64_decimal(n: i64) -> (r: Vec<char>)
    ensures
        r@ == int_decimal(n as int),
{
    if n < 0 {
        let mag: u64 = if n == i64::MIN {
            9223372036854775808u64
        } else {
            (-n) as u64
        };
        let digits = u64_decimal(mag);
        let mut r: Vec<char> = Vec::new();
        r.push('-');
        let mut i: usize = 0;
        while i < digits.len()
            invariant
                i <= digits@.len(),
                r@ =~= seq!['-'] + digits@.subrange(0, i as int),
            decreases digits@.len() - i,
        {
            r.push(digits[i]);
            i = i + 1;
        }
        assert(digits@.subrange(0, digits@.len() as int) =~= digits@);
        r
    } else {
        u64_decimal(n as u64)
    }
}

/// Appends characters to a vector.
pub fn extend_chars(dst: &mut Vec<char>, src: &[char])
    ensures
        final(dst)@ == old(dst)@ + src@,
{
    let mut i: usize = 0;
    while i < src.len()
        invariant
            i <= src@.len(),
            dst@ == old(dst)@ + src@.subrange(0, i as int),
        decreases src@.len() - i,
    {
        dst.push(src[i]);
        i = i + 1;
        assert(dst@ =~= old(dst)@ + src@.subrange(0, i as int));
    }
    assert(src@.subrange(0, src@.len() as int) =~= src@);
}

/// Index of the first `c` at or after `from`.
pub fn find_char_from(s: &[char], c: char, from: usize) -> (r: Option<usize>)
    requires
        from <= s@.len(),
    ensures
        match r {
            Some(j) => from <= j < s@.len() && s@[j as int] == c && forall|k: int|
                from <= k < j ==> s@[k] != c,
            None => forall|k: int| from <= k < s@.len() ==> s@[k] != c,
        },
{
    let mut i = from;
    while i < s.len()
        invariant
            from <= i <= s@.len(),
            forall|k: int| from <= k < i ==> s@[k] != c,
        decreases s@.len() - i,
    {
        if s[i] == c {
            return Some(i);
        }
        i = i + 1;
    }
    None
}

/// Finding `c` in `s[from..]` through `find_char_from`.
pub proof fn lemma_find_in_suffix(s: Seq<char>, c: char, from: int, r: Option<usize>)
    requires
        0 <= from <= s.len(),
        match r {
            Some(j) => from <= j < s.len() && s[j as int] == c && forall|k: int|
                from <= k < j ==> s[k] != c,
            None => forall|k: int| from <= k < s.len() ==> s[k] != c,
        },
    ensures
        find_char(s.subrange(from, s.len() as int), c) == match r {
            Some(j) => Some(j - from),
            None => None::<int>,
        },
{
    let sub = s.subrange(from, s.len() as int);
    match r {
        Some(j) => {
            assert forall|k: int| 0 <= k < j - from implies sub[k] != c by {
                assert(sub[k] == s[from + k]);
            }
            lemma_find_char_is(sub, c, j - from);
        },
        None => {
            assert forall|k: int| 0 <= k < sub.len() implies sub[k] != c by {
                assert(sub[k] == s[from + k]);
            }
            lemma_find_char_none(sub, c);
        },
    }
}

/// `s.lines()`, each line as characters.
pub fn lines_of(s: &[char]) -> (r: Vec<Vec<char>>)
    ensures
        seqs(r@) == lines(s@),
{
    let n = s.len();
    let mut r: Vec<Vec<char>> = Vec::new();
    let mut pos: usize = 0;
    assert(s@.subrange(0, n as int) =~= s@);
    while pos < n
        invariant
            pos <= n == s@.len(),
            seqs(r@) + lines(s@.subrange(pos as int, n as int)) == lines(s@),
        decreases n - pos,
    {
        let found = find_char_from(s, '\n', pos);
        let ghost sub = s@.subrange(pos as int, n as int);
        proof {
            lemma_find_in_suffix(s@, '\n', pos as int, found);
        }
        match found {
            Some(j) => {
                let end = if j > pos && s[j - 1] == '\r' {
                    j - 1
                } else {
                    j
                };
                let line = copy_range(s, pos, end);
                proof {
                    let whole = sub.subrange(0, j - pos + 1);
                    assert(whole =~= s@.subrange(pos as int, j + 1));
                    assert(whole.drop_last() =~= s@.subrange(pos as int, j as int));
                    if j > pos && s@[j - 1] == '\r' {
                        assert(whole.drop_last().drop_last() =~= s@.subrange(
                            pos as int,
                            j - 1,
                        ));
                    }
                    assert(line@ == strip_line_ending(whole));
                    assert(sub.subrange(j - pos + 1, sub.len() as int) =~= s@.subrange(
                        j + 1,
                        n as int,
                    ));
                    assert(lines(sub) == seq![line@] + lines(s@.subrange(j + 1, n as int)));
                }
                let ghost before = r@;
                r.push(line);
                proof {
                    assert(seqs(r@) =~= seqs(before).push(line@));
                }
                pos = j + 1;
                proof {
                    assert(seqs(r@) + lines(s@.subrange(pos as int, n as int)) =~= lines(s@));
                }
            },
            None => {
                let line = copy_range(s, pos, n);
                let ghost before = r@;
                r.push(line);
                proof {
                    assert(lines(sub) == seq![sub]);
                    assert(seqs(r@) =~= seqs(before).push(line@));
                    assert(s@.subrange(n as int, n as int) =~= Seq::<char>::empty());
                    assert(lines(Seq::<char>::empty()) =~= Seq::<Seq<char>>::empty());
                }
                pos = n;
                proof {
                    assert(seqs(r@) + lines(s@.subrange(pos as int, n as int)) =~= lines(s@));
                }
            },
        }
    }
    assert(s@.subrange(n as int, n as int) =~= Seq::<char>::empty());
    assert(seqs(r@) + Seq::<Seq<char>>::empty() =~= seqs(r@));
    r
}

/// `s.split(c)`, each piece as characters.
pub fn split_of(s: &[char], c: char) -> (r: Vec<Vec<char>>)
    ensures
        seqs(r@) == split_char(s@, c),
{
    let n = s.len();
    let mut r: Vec<Vec<char>> = Vec::new();
    let mut pos: usize = 0;
    assert(s@.subrange(0, n as int) =~= s@);
    loop
        invariant_except_break
            pos <= n == s@.len(),
            seqs(r@) + split_char(s@.subrange(pos as int, n as int), c) == split_char(s@, c),
        ensures
            seqs(r@) == split_char(s@, c),
        decreases n - pos,
    {
        let found = find_char_from(s, c, pos);
        let ghost sub = s@.subrange(pos as int, n as int);
        proof {
            lemma_find_in_suffix(s@, c, pos as int, found);
        }
        match found {
            Some(j) => {
                let piece = copy_range(s, pos, j);
                proof {
                    assert(sub.subrange(0, j - pos) =~= s@.subrange(pos as int, j as int));
                    assert(sub.subrange(j - pos + 1, sub.len() as int) =~= s@.subrange(
                        j + 1,
                        n as int,
                    ));
                }
                let ghost before = r@;
                r.push(piece);
                proof {
                    assert(seqs(r@) =~= seqs(before).push(piece@));
                }
                pos = j + 1;
                proof {
                    assert(seqs(r@) + split_char(s@.subrange(pos as int, n as int), c) =~= split_char(s@, c));
                }
            },
            None => {
                let piece = copy_range(s, pos, n);
                let ghost before = r@;
                r.push(piece);
                proof {
                    assert(seqs(r@) =~= seqs(before).push(piece@));
                    assert(seqs(r@) =~= split_char(s@, c));
                }
                break;
            },
        }
    }
    r
}

/// `s.trim_end_matches(['\r', '\n'])`.
pub fn trim_end_newlines_chars(s: &[char]) -> (r: Vec<char>)
    ensures
        r@ == trim_end_newlines(s@),
{
    let mut j = s.len();
    assert(s@.subrange(0, j as int) =~= s@);
    while j > 0 && (s[j - 1] == '\r' || s[j - 1] == '\n')
        invariant
            j <= s@.len(),
            trim_end_newlines(s@) == trim_end_newlines(s@.subrange(0, j as int)),
        decreases j,
    {
        assert(s@.subrange(0, j as int).drop_last() =~= s@.subrange(0, j - 1));
        j = j - 1;
    }
    copy_range(s, 0, j)
}

/// Concatenation of a vector of character vectors.
pub fn concat_chars(parts: &Vec<Vec<char>>) -> (r: Vec<char>)
    ensures
        r@ == concat_all(seqs(parts@)),
{
    let mut r: Vec<char> = Vec::new();
    let mut i: usize = 0;
    while i < parts.len()
        invariant
            i <= parts@.len(),
            r@ == concat_all(seqs(parts@).take(i as int)),
        decreases parts@.len() - i,
    {
        extend_chars(&mut r, parts[i].as_slice());
        proof {
            assert(seqs(parts@).take(i + 1).drop_last() =~= seqs(parts@).take(i as int));
        }
        i = i + 1;
    }
    assert(seqs(parts@).take(parts@.len() as int) =~= seqs(parts@));
    r
}

/// Parts joined with a separator.
pub fn join_chars(parts: &Vec<Vec<char>>, sep: &[char]) -> (r: Vec<char>)
    ensures
        r@ == join_with(seqs(parts@), sep@),
{
    let mut r: Vec<char> = Vec::new();
    let mut i: usize = 0;
    while i < parts.len()
        invariant
            i <= parts@.len(),
            r@ == join_with(seqs(parts@).take(i as int), sep@),
        decreases parts@.len() - i,
    {
        if i > 0 {
            extend_chars(&mut r, sep);
        }
        extend_chars(&mut r, parts[i].as_slice());
        proof {
            assert(seqs(parts@).take(i + 1).drop_last() =~= seqs(parts@).take(i as int));
            if i == 0 {
                assert(seqs(parts@).take(1)[0] == parts@[0]@);
                assert(r@ =~= parts@[0]@);
            }
        }
        i = i + 1;
    }
    assert(seqs(parts@).take(parts@.len() as int) =~= seqs(parts@));
    r
}

/// Characters of a vector of strings.
pub fn chars_of_all(parts: &Vec<String>) -> (r: Vec<Vec<char>>)
    ensures
        seqs(r@) == strs(parts@),
{
    let mut r: Vec<Vec<char>> = Vec::new();
    let mut i: usize = 0;
    while i < parts.len()
        invariant
            i <= parts@.len(),
            seqs(r@) =~= strs(parts@).take(i as int),
        decreases parts@.len() - i,
    {
        let ghost before = r@;
        r.push(chars_of(parts[i].as_str()));
        assert(seqs(r@) =~= seqs(before).push(parts@[i as int]@));
        assert(strs(parts@).take(i + 1) =~= strs(parts@).take(i as int).push(parts@[i as int]@));
        i = i + 1;
    }
    assert(strs(parts@).take(parts@.len() as int) =~= strs(parts@));
    r
}

/// Strings of a vector of character vectors.
pub fn strings_of_all(parts: &Vec<Vec<char>>) -> (r: Vec<String>)
    ensures
        strs(r@) == seqs(parts@),
{
    let mut r: Vec<String> = Vec::new();
    let mut i: usize = 0;
    while i < parts.len()
        invariant
            i <= parts@.len(),
            strs(r@) =~= seqs(parts@).take(i as int),
        decreases parts@.len() - i,
    {
        let ghost before = r@;
        r.push(string_of(parts[i].as_slice()));
        assert(strs(r@) =~= strs(before).push(parts@[i as int]@));
        assert(seqs(parts@).take(i + 1) =~= seqs(parts@).take(i as int).push(parts@[i as int]@));
        i = i + 1;
    }
    assert(seqs(parts@).take(parts@.len() as int) =~= seqs(parts@));
    r
}

/// `s.split_whitespace()`, each word as characters.
pub fn words_of(s: &[char]) -> (r: Vec<Vec<char>>)
    ensures
        seqs(r@) == words(s@),
{
    let n = s.len();
    let mut r: Vec<Vec<char>> = Vec::new();
    let mut pos: usize = 0;
    assert(s@.subrange(0, n as int) =~= s@);
    loop
        invariant_except_break
            pos <= n == s@.len(),
            seqs(r@) + words(s@.subrange(pos as int, n as int)) == words(s@),
        ensures
            seqs(r@) == words(s@),
        decreases n - pos,
    {
        let mut a = pos;
        while a < n && is_whitespace(s[a])
            invariant
                pos <= a <= n == s@.len(),
                forall|j: int| pos <= j < a ==> is_ws(s@[j]),
            decreases n - a,
        {
            a = a + 1;
        }
        proof {
            lemma_trim_start_sub(s@, pos as int, a as int);
        }
        if a == n {
            proof {
                assert(s@.subrange(a as int, n as int).len() == 0);
                assert(words(s@.subrange(pos as int, n as int)) =~= Seq::<Seq<char>>::empty());
                assert(seqs(r@) + Seq::<Seq<char>>::empty() =~= seqs(r@));
            }
            break;
        }
        let mut b = a;
        while b < n && !is_whitespace(s[b])
            invariant
                a <= b <= n == s@.len(),
                forall|j: int| a <= j < b ==> !is_ws(s@[j]),
            decreases n - b,
        {
            b = b + 1;
        }
        let word = copy_range(s, a, b);
        proof {
            let t = s@.subrange(a as int, n as int);
            lemma_first_ws_at(t, b - a);
            assert(t.subrange(0, b - a) =~= s@.subrange(a as int, b as int));
            assert(t.subrange(b - a, t.len() as int) =~= s@.subrange(b as int, n as int));
            assert(words(s@.subrange(pos as int, n as int)) == seq![word@] + words(
                s@.subrange(b as int, n as int),
            ));
        }
        let ghost before = r@;
        r.push(word);
        proof {
            assert(seqs(r@) =~= seqs(before).push(word@));
            assert(seqs(r@) + words(s@.subrange(b as int, n as int)) =~= seqs(before) + (seq![word@] + words(
                s@.subrange(b as int, n as int),
            )));
        }
        pos = b;
    }
    r
}

/// The text of an element's text nodes, whitespace collapsed.
pub fn collect_text_of(pieces: &Vec<Vec<char>>) -> (r: Vec<char>)
    ensures
        r@ == collect_text(seqs(pieces@)),
{
    let space = chars_of(" ");
    let joined = join_chars(pieces, space.as_slice());
    let ws = words_of(joined.as_slice());
    join_chars(&ws, space.as_slice())
}

/// `{:?}` of an `Option<String>`: `None`, or `Some(` and the quoted string
/// and `)`.
pub fn debug_opt_of(o: &Option<String>) -> (r: String)
    ensures
        r@ == debug_opt(opt_view(*o)),
{
    match o {
        None => String::from_str("None"),
        Some(s) => {
            let q = debug_str(s.as_str());
            String::from_str("Some(").concat(q.as_str()).concat(")")
        },
    }
}

} // verus!
