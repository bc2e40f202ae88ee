//! Text handling shared by the views and the command layer: substring
//! search, Unicode lowercasing, UTF-8 safe truncation, decimal rendering,
//! joining, trimming and line splitting.

use vstd::prelude::*;
use vstd::string::StringSliceAdditionalSpecFns;
use vstd::utf8::*;

verus! {

broadcast use {vstd::utf8::encode_utf8_valid_utf8, vstd::utf8::encode_utf8_decode_utf8};

// ---------------------------------------------------------------------------
// Characters of a string
// ---------------------------------------------------------------------------

/// The characters of a string slice, in order.
pub fn chars_of(s: &str) -> (v: Vec<char>)
    ensures
        v@ == s@,
{
    let mut v: Vec<char> = Vec::new();
    for c in it: s.chars()
        invariant
            v@ == it.seq().take(it.index() as int),
            it.seq() == s@,
    {
        v.push(c);
    }
    v
}

// ---------------------------------------------------------------------------
// Substring search
// ---------------------------------------------------------------------------

/// `needle` occurs in `hay` starting at position `i`.
pub open spec fn occurs_at<T>(hay: Seq<T>, needle: Seq<T>, i: int) -> bool {
    &&& 0 <= i
    &&& i + needle.len() <= hay.len()
    &&& hay.subrange(i, i + needle.len()) == needle
}

/// `needle` occurs somewhere in `hay`.
pub open spec fn occurs_in<T>(hay: Seq<T>, needle: Seq<T>) -> bool {
    exists|i: int| occurs_at(hay, needle, i)
}

/// `i` is the first position at which `needle` occurs in `hay`.
pub open spec fn first_occurrence<T>(hay: Seq<T>, needle: Seq<T>, i: int) -> bool {
    &&& occurs_at(hay, needle, i)
    &&& forall|j: int| 0 <= j < i ==> !occurs_at(hay, needle, j)
}

fn chars_match_at(hay: &Vec<char>, needle: &Vec<char>, i: usize) -> (r: bool)
    requires
        i + needle@.len() <= hay@.len(),
    ensures
        r == occurs_at(hay@, needle@, i as int),
{
    let hay_len = hay.len();
    let mut j: usize = 0;
    while j < needle.len()
        invariant
            j <= needle@.len(),
            hay_len == hay@.len(),
            i + needle@.len() <= hay@.len(),
            forall|k: int| 0 <= k < j ==> hay@[i + k] == needle@[k],
        decreases needle@.len() - j,
    {
        if hay[i + j] != needle[j] {
            assert(hay@.subrange(i as int, i + needle@.len())[j as int] != needle@[j as int]);
            return false;
        }
        j += 1;
    }
    assert(hay@.subrange(i as int, i + needle@.len()) =~= needle@);
    true
}

/// Position of the first occurrence of `needle` in `hay`, counted in characters.
pub fn find_chars(hay: &Vec<char>, needle: &Vec<char>) -> (r: Option<usize>)
    ensures
        match r {
            Some(i) => first_occurrence(hay@, needle@, i as int),
            None => !occurs_in(hay@, needle@),
        },
{
    if needle.len() == 0 {
        assert(hay@.subrange(0, 0) =~= needle@);
        return Some(0);
    }
    if needle.len() > hay.len() {
        return None;
    }
    let hay_len = hay.len();
    let last = hay_len - needle.len();
    let mut i: usize = 0;
    while i <= last
        invariant
            hay_len == hay@.len(),
            last == hay@.len() - needle@.len(),
            0 < needle@.len() <= hay@.len(),
            i <= last + 1,
            forall|j: int| 0 <= j < i ==> !occurs_at(hay@, needle@, j),
        decreases last + 1 - i,
    {
        if chars_match_at(hay, needle, i) {
            return Some(i);
        }
        i += 1;
    }
    None
}

fn bytes_match_at(hay: &[u8], needle: &[u8], i: usize) -> (r: bool)
    requires
        i + needle@.len() <= hay@.len(),
    ensures
        r == occurs_at(hay@, needle@, i as int),
{
    let hay_len = hay.len();
    let mut j: usize = 0;
    while j < needle.len()
        invariant
            j <= needle@.len(),
            hay_len == hay@.len(),
            i + needle@.len() <= hay@.len(),
            forall|k: int| 0 <= k < j ==> hay@[i + k] == needle@[k],
        decreases needle@.len() - j,
    {
        if hay[i + j] != needle[j] {
            assert(hay@.subrange(i as int, i + needle@.len())[j as int] != needle@[j as int]);
            return false;
        }
        j += 1;
    }
    assert(hay@.subrange(i as int, i + needle@.len()) =~= needle@);
    true
}

/// Position of the first occurrence of `needle` in `hay`, counted in bytes.
pub fn find_bytes(hay: &[u8], needle: &[u8]) -> (r: Option<usize>)
    ensures
        match r {
            Some(i) => first_occurrence(hay@, needle@, i as int),
            None => !occurs_in(hay@, needle@),
        },
{
    if needle.len() == 0 {
        assert(hay@.subrange(0, 0) =~= needle@);
        return Some(0);
    }
    if needle.len() > hay.len() {
        return None;
    }
    let hay_len = hay.len();
    let last = hay_len - needle.len();
    let mut i: usize = 0;
    while i <= last
        invariant
            hay_len == hay@.len(),
            last == hay@.len() - needle@.len(),
            0 < needle@.len() <= hay@.len(),
            i <= last + 1,
            forall|j: int| 0 <= j < i ==> !occurs_at(hay@, needle@, j),
        decreases last + 1 - i,
    {
        if bytes_match_at(hay, needle, i) {
            return Some(i);
        }
        i += 1;
    }
    None
}

/// Whether `needle` occurs in `hay` (as `str::contains` with a string pattern).
pub fn contains_str(hay: &str, needle: &str) -> (r: bool)
    ensures
        r == occurs_in(hay@, needle@),
{
    let h = chars_of(hay);
    let n = chars_of(needle);
    match find_chars(&h, &n) {
        Some(_) => true,
        None => false,
    }
}

/// Whether `s` begins with `prefix`.
pub fn starts_with(s: &str, prefix: &str) -> (r: bool)
    ensures
        r == (prefix@.len() <= s@.len() && s@.take(prefix@.len() as int) == prefix@),
{
    let sv = chars_of(s);
    let pv = chars_of(prefix);
    if pv.len() > sv.len() {
        return false;
    }
    let r = chars_match_at(&sv, &pv, 0);
    assert(sv@.subrange(0, pv@.len() as int) =~= sv@.take(pv@.len() as int));
    r
}

// ---------------------------------------------------------------------------
// Unicode case and whitespace
// ---------------------------------------------------------------------------

/// The characters that `str::to_lowercase` produces for the characters `s`:
/// the Unicode lowercase mapping, a function of the characters alone.
pub uninterp spec fn lowercase_of(s: Seq<char>) -> Seq<char>;

/// An ASCII character.
pub open spec fn is_ascii(c: char) -> bool {
    (c as u32) < 128
}

/// The lowercase of an ASCII character: `A` to `Z` become `a` to `z`, the
/// others stay.
pub open spec fn ascii_lower_char(c: char) -> char {
    if 65 <= (c as u32) <= 90 {
        ((c as u32) + 32) as char
    } else {
        c
    }
}

/// Each character of `s` is ASCII.
pub open spec fn all_ascii(s: Seq<char>) -> bool {
    forall|i: int| 0 <= i < s.len() ==> #[trigger] is_ascii(s[i])
}

/// ASCII text with its letters lowercased, character by character.
pub open spec fn ascii_lowered(s: Seq<char>) -> Seq<char> {
    Seq::new(s.len(), |i: int| ascii_lower_char(s[i]))
}

/// Calls `str::to_lowercase` from std. Trusted: the result's characters are
/// `lowercase_of` of the argument's characters. Beyond that it states two
/// facts of the Unicode mapping that std documents: each character is
/// lowercased on its own, except the capital sigma `Σ`, whose lowercase
/// depends on the characters around it, so the lowercase of a beginning of
/// the text that holds no `Σ` is the beginning of the result; and ASCII
/// text lowercases letter by letter, `A` to `Z` becoming `a` to `z`. The
/// mapping of other characters is not stated.
#[verifier::external_body]
pub(crate) fn to_lowercase(s: &str) -> (r: String)
    ensures
        r@ == lowercase_of(s@),
        forall|k: int|
            0 <= k <= s@.len() && !(#[trigger] s@.take(k)).contains('Σ') ==> lowercase_of(
                s@.take(k),
            ).is_prefix_of(r@),
        all_ascii(s@) ==> r@ == ascii_lowered(s@),
{
    s.to_lowercase()
}

/// Whether a character has the Unicode `White_Space` property, which
/// `char::is_whitespace` tests: tab, line feed, vertical tab, form feed,
/// carriage return, space, next line, no-break space, ogham space mark,
/// the spaces U+2000 to U+200A, line and paragraph separator, narrow
/// no-break space, medium mathematical space and ideographic space.
pub open spec fn unicode_whitespace(c: char) -> bool {
    let u = c as u32;
    ||| 0x09 <= u <= 0x0D
    ||| u == 0x20
    ||| u == 0x85
    ||| u == 0xA0
    ||| u == 0x1680
    ||| 0x2000 <= u <= 0x200A
    ||| u == 0x2028
    ||| u == 0x2029
    ||| u == 0x202F
    ||| u == 0x205F
    ||| u == 0x3000
}

/// Whether a character is whitespace (as `char::is_whitespace`).
fn is_whitespace(c: char) -> (r: bool)
    ensures
        r == unicode_whitespace(c),
{
    match c {
        '\u{9}'..='\u{D}' | ' ' | '\u{85}' | '\u{A0}' | '\u{1680}' | '\u{2000}'..='\u{200A}'
        | '\u{2028}' | '\u{2029}' | '\u{202F}' | '\u{205F}' | '\u{3000}' => true,
        _ => false,
    }
}

/// `s` without its leading whitespace.
pub open spec fn trim_start_spec(s: Seq<char>) -> Seq<char>
    decreases s.len(),
{
    if s.len() > 0 && unicode_whitespace(s[0]) {
        trim_start_spec(s.drop_first())
    } else {
        s
    }
}

/// `s` without its trailing whitespace.
pub open spec fn trim_end_spec(s: Seq<char>) -> Seq<char>
    decreases s.len(),
{
    if s.len() > 0 && unicode_whitespace(s.last()) {
        trim_end_spec(s.drop_last())
    } else {
        s
    }
}

/// `s` without leading and trailing whitespace (as `str::trim`).
pub open spec fn trimmed(s: Seq<char>) -> Seq<char> {
    trim_end_spec(trim_start_spec(s))
}

/// Removes leading and trailing whitespace.
pub fn trim(s: &str) -> (r: String)
    ensures
        r@ == trimmed(s@),
{
    let v = chars_of(s);
    let n = v.len();
    let mut i: usize = 0;
    assert(s@.skip(0) =~= s@);
    while i < n && is_whitespace(v[i])
        invariant
            i <= n,
            n == v@.len(),
            v@ == s@,
            trim_start_spec(s@) == trim_start_spec(s@.skip(i as int)),
        decreases n - i,
    {
        assert(s@.skip(i as int).drop_first() =~= s@.skip(i + 1));
        i += 1;
    }
    assert(trim_start_spec(s@.skip(i as int)) == s@.skip(i as int));
    assert(s@.skip(i as int) =~= s@.subrange(i as int, n as int));
    let mut j: usize = n;
    while j > i && is_whitespace(v[j - 1])
        invariant
            i <= j <= n,
            n == v@.len(),
            v@ == s@,
            trimmed(s@) == trim_end_spec(s@.subrange(i as int, j as int)),
        decreases j,
    {
        assert(s@.subrange(i as int, j as int).drop_last() =~= s@.subrange(i as int, j - 1));
        j -= 1;
    }
    let sub = s.substring_char(i, j);
    sub.to_owned()
}

// ---------------------------------------------------------------------------
// UTF-8 safe truncation
// ---------------------------------------------------------------------------

/// The largest character boundary of `bytes` that is at most `limit`
/// (0 when `limit` is not positive).
pub open spec fn boundary_at_or_below(bytes: Seq<u8>, limit: int) -> int
    decreases limit,
{
    if limit <= 0 {
        0
    } else if is_char_boundary(bytes, limit) {
        limit
    } else {
        boundary_at_or_below(bytes, limit - 1)
    }
}

/// What `truncate_string(s, max_len)` gives: `s` itself when its UTF-8
/// encoding fits in `max_len` bytes; otherwise the longest prefix that ends
/// on a character boundary at most `max_len - 1` bytes in, followed by an
/// ellipsis, or nothing when that prefix is empty.
pub open spec fn truncated(s: Seq<char>, max_len: int) -> Seq<char> {
    let bytes = encode_utf8(s);
    if bytes.len() <= max_len {
        s
    } else {
        let end = boundary_at_or_below(bytes, max_len - 1);
        if end == 0 {
            Seq::empty()
        } else {
            decode_utf8(bytes.subrange(0, end)) + seq!['…']
        }
    }
}

/// Truncates a string at a UTF-8 character boundary, marking the cut with
/// an ellipsis; never splits a multi-byte character.
pub fn truncate_string(s: &str, max_len: usize) -> (r: String)
    ensures
        r@ == truncated(s@, max_len as int),
{
    let ghost bytes = s.spec_bytes();
    if s.as_bytes().len() <= max_len {
        return s.to_owned();
    }
    let mut end: usize = if max_len > 0 { max_len - 1 } else { 0 };
    while end > 0 && !s.is_char_boundary(end)
        invariant
            end < max_len || end == 0,
            bytes == s.spec_bytes(),
            boundary_at_or_below(bytes, max_len - 1) == boundary_at_or_below(bytes, end as int),
        decreases end,
    {
        end -= 1;
    }
    if end == 0 {
        String::new()
    } else {
        assert(end as int <= bytes.len());
        let (head, _) = s.split_at(end);
        proof {
            assert(head.spec_bytes() == encode_utf8(head@));
            assert(decode_utf8(bytes.subrange(0, end as int)) == head@);
            reveal_strlit("…");
        }
        let mut r = head.to_owned();
        r.append("…");
        r
    }
}

/// The cut point of a truncation is a character boundary no further than
/// the limit.
pub proof fn lemma_boundary_at_or_below(bytes: Seq<u8>, limit: int)
    requires
        valid_utf8(bytes),
    ensures
        0 <= boundary_at_or_below(bytes, limit),
        limit >= 0 ==> boundary_at_or_below(bytes, limit) <= limit,
        is_char_boundary(bytes, boundary_at_or_below(bytes, limit)),
        forall|k: int|
            boundary_at_or_below(bytes, limit) < k <= limit ==> !is_char_boundary(bytes, k),
    decreases limit,
{
    if limit > 0 && !is_char_boundary(bytes, limit) {
        lemma_boundary_at_or_below(bytes, limit - 1);
    }
}

/// Truncation keeps a prefix of the string: the result is the whole string
/// when it fits, and otherwise a prefix of it (followed by an ellipsis when
/// the prefix is not empty) whose UTF-8 encoding is shorter than `max_len`.
pub proof fn lemma_truncated_is_prefix(s: Seq<char>, max_len: int)
    ensures
        encode_utf8(s).len() <= max_len ==> truncated(s, max_len) == s,
        encode_utf8(s).len() > max_len ==> {
            let r = truncated(s, max_len);
            ||| r.len() == 0
            ||| {
                &&& r.len() >= 1
                &&& r.last() == '…'
                &&& s.take(r.len() - 1) == r.drop_last()
                &&& encode_utf8(r.drop_last()).len() < max_len
            }
        },
{
    let bytes = encode_utf8(s);
    if bytes.len() > max_len {
        let end = boundary_at_or_below(bytes, max_len - 1);
        lemma_boundary_at_or_below(bytes, max_len - 1);
        if end != 0 {
            let head = decode_utf8(bytes.subrange(0, end));
            let tail = decode_utf8(bytes.subrange(end, bytes.len() as int));
            decode_utf8_split(bytes, end);
            valid_utf8_split(bytes, end);
            decode_utf8_encode_utf8(bytes.subrange(0, end));
            let r = truncated(s, max_len);
            assert(r.drop_last() =~= head);
            assert(s == head + tail);
            assert(s.take(head.len() as int) =~= head);
        }
    }
}

/// The encoding of joined characters is the joined encodings.
proof fn lemma_encode_concat(a: Seq<char>, b: Seq<char>)
    ensures
        encode_utf8(a + b) == encode_utf8(a) + encode_utf8(b),
    decreases a.len(),
{
    if a.len() == 0 {
        assert(a + b =~= b);
        assert(encode_utf8(a) + encode_utf8(b) =~= encode_utf8(b));
    } else {
        assert((a + b).drop_first() =~= a.drop_first() + b);
        lemma_encode_concat(a.drop_first(), b);
        assert((a + b)[0] == a[0]);
        assert(encode_utf8(a + b) =~= encode_scalar(a[0] as u32) + (encode_utf8(a.drop_first())
            + encode_utf8(b)));
    }
}

/// The end of the encoding of the first `j` characters is a character
/// boundary of the whole encoding.
proof fn lemma_prefix_boundary(s: Seq<char>, j: int)
    requires
        0 <= j <= s.len(),
    ensures
        is_char_boundary(encode_utf8(s), encode_utf8(s.take(j)).len() as int),
    decreases j,
{
    if j == 0 {
        assert(s.take(0) =~= Seq::<char>::empty());
    } else {
        let bytes = encode_utf8(s);
        encode_utf8_first_scalar(s);
        assert(pop_first_scalar(bytes) =~= encode_utf8(s.drop_first()));
        lemma_prefix_boundary(s.drop_first(), j - 1);
        assert(s.take(j).drop_first() =~= s.drop_first().take(j - 1));
        assert(s.take(j)[0] == s[0]);
        let w = encode_scalar(s[0] as u32).len();
        assert(w > 0);
        assert(encode_utf8(s.take(j)).len() == w + encode_utf8(s.drop_first().take(j - 1)).len());
    }
}

/// Truncation keeps every character that fits: unless the whole string
/// fits, the next character after what is kept would take the kept part's
/// encoding to `max_len - 1` bytes or more, so no longer prefix fits in
/// the room left beside the ellipsis.
pub proof fn lemma_truncation_keeps_all_that_fits(s: Seq<char>, max_len: int)
    requires
        0 <= max_len < encode_utf8(s).len(),
    ensures
        ({
            let r = truncated(s, max_len);
            let kept = if r.len() == 0 {
                0
            } else {
                r.len() - 1
            };
            &&& kept < s.len()
            &&& encode_utf8(s.take(kept + 1)).len() > max_len - 1
        }),
{
    let bytes = encode_utf8(s);
    let end = boundary_at_or_below(bytes, max_len - 1);
    lemma_boundary_at_or_below(bytes, max_len - 1);
    lemma_truncated_is_prefix(s, max_len);
    let head = decode_utf8(bytes.subrange(0, end));
    let tail = decode_utf8(bytes.subrange(end, bytes.len() as int));
    decode_utf8_split(bytes, end);
    valid_utf8_split(bytes, end);
    decode_utf8_encode_utf8(bytes.subrange(0, end));
    assert(s == head + tail);
    let k = head.len() as int;
    assert(s.take(k) =~= head);
    let r = truncated(s, max_len);
    if end == 0 {
        assert(bytes.subrange(0, 0) =~= Seq::<u8>::empty());
        assert(head.len() == 0);
    } else {
        assert(r.drop_last() =~= head);
    }
    assert(encode_utf8(s.take(k)) == bytes.subrange(0, end));
    if k == s.len() {
        assert(s.take(k) =~= s);
        assert(bytes.subrange(0, end).len() == end);
    }
    assert(k < s.len());
    assert(s.take(k + 1) =~= s.take(k) + seq![s[k]]);
    lemma_encode_concat(s.take(k), seq![s[k]]);
    assert(seq![s[k]].drop_first() =~= Seq::<char>::empty());
    assert(encode_utf8(seq![s[k]]).len() > 0);
    lemma_prefix_boundary(s, k + 1);
}

// ---------------------------------------------------------------------------
// Decimal numbers
// ---------------------------------------------------------------------------

/// The decimal digit character for `d` (for `d < 10`).
pub open spec fn digit_char(d: nat) -> char {
    (48 + d) as char
}

/// The decimal representation of `n`, without leading zeros.
pub open spec fn decimal(n: nat) -> Seq<char>
    decreases n,
{
    if n < 10 {
        seq![digit_char(n)]
    } else {
        decimal(n / 10).push(digit_char(n % 10))
    }
}

fn digit_str(d: usize) -> (r: &'static str)
    requires
        d < 10,
    ensures
        r@ == seq![digit_char(d as nat)],
{
    proof {
        reveal_strlit("0");
        reveal_strlit("1");
        reveal_strlit("2");
        reveal_strlit("3");
        reveal_strlit("4");
        reveal_strlit("5");
        reveal_strlit("6");
        reveal_strlit("7");
        reveal_strlit("8");
        reveal_strlit("9");
    }
    if d == 0 {
        "0"
    } else if d == 1 {
        "1"
    } else if d == 2 {
        "2"
    } else if d == 3 {
        "3"
    } else if d == 4 {
        "4"
    } else if d == 5 {
        "5"
    } else if d == 6 {
        "6"
    } else if d == 7 {
        "7"
    } else if d == 8 {
        "8"
    } else {
        "9"
    }
}

/// The decimal representation of a number, as `to_string` writes it.
pub fn decimal_string(n: usize) -> (r: String)
    ensures
        r@ == decimal(n as nat),
    decreases n,
{
    if n < 10 {
        digit_str(n).to_owned()
    } else {
        let mut r = decimal_string(n / 10);
        r.append(digit_str(n % 10));
        r
    }
}

// ---------------------------------------------------------------------------
// Joining
// ---------------------------------------------------------------------------

/// The character views of a list of strings.
pub open spec fn views(items: Seq<String>) -> Seq<Seq<char>> {
    items.map_values(|s: String| s@)
}

/// The items joined with `sep` between neighbours.
pub open spec fn joined(items: Seq<Seq<char>>, sep: Seq<char>) -> Seq<char>
    decreases items.len(),
{
    if items.len() == 0 {
        Seq::empty()
    } else if items.len() == 1 {
        items[0]
    } else {
        joined(items.drop_last(), sep) + sep + items.last()
    }
}

/// Joins strings with a separator (as `[String]::join`).
pub fn join(items: &Vec<String>, sep: &str) -> (r: String)
    ensures
        r@ == joined(views(items@), sep@),
{
    let mut r = String::new();
    let mut i: usize = 0;
    while i < items.len()
        invariant
            i <= items@.len(),
            r@ == joined(views(items@).take(i as int), sep@),
        decreases items@.len() - i,
    {
        assert(views(items@).take(i + 1).drop_last() =~= views(items@).take(i as int));
        if i > 0 {
            r.append(sep);
        } else {
            assert(r@ =~= Seq::<char>::empty());
        }
        r.append(items[i].as_str());
        i += 1;
    }
    assert(views(items@).take(items@.len() as int) =~= views(items@));
    r
}

// ---------------------------------------------------------------------------
// Lines
// ---------------------------------------------------------------------------

/// Index of the first line feed in `s`, or its length when there is none.
pub open spec fn first_newline(s: Seq<char>) -> nat
    decreases s.len(),
{
    if s.len() == 0 {
        0
    } else if s[0] == '\n' {
        0
    } else {
        1 + first_newline(s.drop_first())
    }
}

/// A line as `str::lines` yields it: a carriage return right before the
/// line feed is dropped.
pub open spec fn strip_cr(line: Seq<char>) -> Seq<char> {
    if line.len() > 0 && line.last() == '\r' {
        line.drop_last()
    } else {
        line
    }
}

/// The lines of `s` (as `str::lines`): split at line feeds, with `\r\n`
/// counted as one line ending and no empty line after a final line ending.
pub open spec fn lines_of(s: Seq<char>) -> Seq<Seq<char>>
    decreases s.len(),
{
    if s.len() == 0 {
        Seq::empty()
    } else {
        let k = first_newline(s);
        if k < s.len() {
            seq![strip_cr(s.take(k as int))] + lines_of(s.skip(k as int + 1))
        } else {
            seq![s]
        }
    }
}

proof fn lemma_first_newline(s: Seq<char>, k: int)
    requires
        0 <= k <= s.len(),
        forall|i: int| 0 <= i < k ==> s[i] != '\n',
        k == s.len() || s[k] == '\n',
    ensures
        first_newline(s) == k,
    decreases k,
{
    if k > 0 {
        lemma_first_newline(s.drop_first(), k - 1);
    }
}

/// How text is split into lines: empty text has none; text without a line
/// feed is one line; otherwise the first line runs up to the first line
/// feed, without a carriage return right before it, and the rest of the
/// text gives the remaining lines.
pub proof fn lemma_lines_rules(a: Seq<char>, b: Seq<char>)
    requires
        !a.contains('\n'),
    ensures
        lines_of(Seq::<char>::empty()) == Seq::<Seq<char>>::empty(),
        a.len() > 0 ==> lines_of(a) == seq![a],
        lines_of(a + seq!['\n'] + b) == seq![strip_cr(a)] + lines_of(b),
        strip_cr(a.push('\r')) == a,
        (a.len() == 0 || a.last() != '\r') ==> strip_cr(a) == a,
{
    assert forall|i: int| 0 <= i < a.len() implies a[i] != '\n' by {
        if a[i] == '\n' {
            assert(a.contains('\n'));
        }
    }
    if a.len() > 0 {
        lemma_first_newline(a, a.len() as int);
    }
    let t = a + seq!['\n'] + b;
    lemma_first_newline(t, a.len() as int);
    assert(t.take(a.len() as int) =~= a);
    assert(t.skip(a.len() as int + 1) =~= b);
    assert(a.push('\r').drop_last() =~= a);
}

/// Decimal digits: a number below ten is its one digit, and a larger
/// number is the digits of its tenth followed by its last digit.
pub proof fn lemma_decimal_rules(n: nat, d: nat)
    requires
        d < 10,
    ensures
        decimal(d) == seq![digit_char(d)],
        n > 0 ==> decimal(10 * n + d) == decimal(n).push(digit_char(d)),
        digit_char(0) == '0' && digit_char(9) == '9',
{
    if n > 0 {
        assert((10 * n + d) / 10 == n) by (nonlinear_arith)
            requires
                d < 10,
        ;
        assert((10 * n + d) % 10 == d) by (nonlinear_arith)
            requires
                d < 10,
        ;
    }
}

/// The lines of a text, each as its own string.
pub fn output_lines(s: &str) -> (r: Vec<String>)
    ensures
        views(r@) == lines_of(s@),
{
    let v = chars_of(s);
    let n = v.len();
    let mut r: Vec<String> = Vec::new();
    let mut start: usize = 0;
    assert(s@.skip(0) =~= s@);
    assert(views(r@) =~= Seq::<Seq<char>>::empty());
    while start < n
        invariant
            start <= n,
            n == v@.len(),
            v@ == s@,
            views(r@) + lines_of(s@.skip(start as int)) == lines_of(s@),
        decreases n - start,
    {
        let mut pos: usize = start;
        while pos < n && v[pos] != '\n'
            invariant
                start <= pos <= n,
                n == v@.len(),
                v@ == s@,
                forall|i: int| start <= i < pos ==> s@[i] != '\n',
            decreases n - pos,
        {
            pos += 1;
        }
        let ghost rest = s@.skip(start as int);
        proof {
            lemma_first_newline(rest, pos - start);
        }
        let ghost old_views = views(r@);
        if pos < n {
            let line_end: usize = if pos > start && v[pos - 1] == '\r' {
                pos - 1
            } else {
                pos
            };
            let line = s.substring_char(start, line_end).to_owned();
            proof {
                let raw = rest.take(pos - start);
                assert(raw =~= s@.subrange(start as int, pos as int));
                if pos > start && v@[pos - 1] == '\r' {
                    assert(strip_cr(raw) =~= s@.subrange(start as int, line_end as int));
                } else {
                    assert(strip_cr(raw) =~= s@.subrange(start as int, line_end as int));
                }
                assert(rest.skip(pos - start + 1) =~= s@.skip(pos + 1));
            }
            r.push(line);
            assert(views(r@) =~= old_views.push(line@));
            start = pos + 1;
        } else {
            let line = s.substring_char(start, n).to_owned();
            proof {
                assert(rest =~= s@.subrange(start as int, n as int));
                assert(s@.skip(n as int) =~= Seq::<char>::empty());
            }
            r.push(line);
            assert(views(r@) =~= old_views.push(line@));
            start = n;
        }
    }
    assert(s@.skip(n as int) =~= Seq::<char>::empty());
    assert(views(r@) + Seq::<Seq<char>>::empty() =~= views(r@));
    r
}

/// Whether one of the lines of `text` equals `line`.
pub fn has_line(text: &str, line: &str) -> (r: bool)
    ensures
        r == lines_of(text@).contains(line@),
{
    let lines = output_lines(text);
    let target = line.to_owned();
    let mut i: usize = 0;
    while i < lines.len()
        invariant
            i <= lines@.len(),
            views(lines@) == lines_of(text@),
            target@ == line@,
            forall|j: int| 0 <= j < i ==> lines@[j]@ != line@,
        decreases lines@.len() - i,
    {
        if lines[i] == target {
            assert(lines_of(text@)[i as int] == line@);
            return true;
        }
        i += 1;
    }
    proof {
        if lines_of(text@).contains(line@) {
            let k = choose|k: int| 0 <= k < lines_of(text@).len() && lines_of(text@)[k] == line@;
            assert(views(lines@)[k] == lines@[k]@);
        }
    }
    false
}

} // verus!

verus! {

// ---------------------------------------------------------------------------
// Search highlighting
// ---------------------------------------------------------------------------

/// How a table cell shows the part of its text that matches the search.
pub enum Highlight {
    /// No search, no match, or a match that cannot be cut out of the text:
    /// the text is shown as it is.
    Plain,
    /// The text cut into the part before the match, the match and the part
    /// after it (either outer part may be empty).
    Parts { before: String, matched: String, after: String },
}

/// The first occurrence is the one that `choose` picks.
proof fn lemma_first_occurrence_unique<T>(hay: Seq<T>, needle: Seq<T>, i: int)
    requires
        first_occurrence(hay, needle, i),
    ensures
        (choose|j: int| first_occurrence(hay, needle, j)) == i,
{
    let j = choose|j: int| first_occurrence(hay, needle, j);
    assert(first_occurrence(hay, needle, j));
    if j < i {
        assert(!occurs_at(hay, needle, j));
    } else if i < j {
        assert(!occurs_at(hay, needle, i));
    }
}

/// A prefix of a valid encoding that ends on a boundary keeps the
/// boundaries that lie inside it.
proof fn lemma_boundary_in_prefix(bytes: Seq<u8>, s: int, e: int)
    requires
        valid_utf8(bytes),
        0 <= s <= e,
        is_char_boundary(bytes, s),
        is_char_boundary(bytes, e),
    ensures
        valid_utf8(bytes.subrange(0, e)),
        is_char_boundary(bytes.subrange(0, e), s),
{
    valid_utf8_split(bytes, e);
    let head = bytes.subrange(0, e);
    if s == 0 {
    } else if s == e {
        is_char_boundary_start_end_of_seq(head);
    } else {
        is_char_boundary_iff_not_is_continuation_byte(bytes, s);
        is_char_boundary_iff_not_is_continuation_byte(head, s);
    }
}

/// A highlight with the text as characters.
pub enum HighlightView {
    Plain,
    Parts { before: Seq<char>, matched: Seq<char>, after: Seq<char> },
}

impl View for Highlight {
    type V = HighlightView;

    open spec fn view(&self) -> HighlightView {
        match self {
            Highlight::Plain => HighlightView::Plain,
            Highlight::Parts { before, matched, after } => HighlightView::Parts {
                before: before@,
                matched: matched@,
                after: after@,
            },
        }
    }
}

/// How `text` is highlighted, given its lowercased form `text_lower` and the
/// lowercase search text `filter_lower`: plain without search text or
/// without a match; otherwise cut at the first match of the search text in
/// `text_lower`, positions counted in bytes, when both cut points fall on
/// character boundaries of `text`. Lowercasing can change the length of a
/// character, so the match may not line up with `text`; the text is then
/// shown plain.
pub open spec fn highlight_with(text: Seq<char>, text_lower: Seq<char>, filter_lower: Seq<char>) -> HighlightView {
    let bytes = encode_utf8(text);
    let hay = encode_utf8(text_lower);
    let needle = encode_utf8(filter_lower);
    if filter_lower.len() == 0 || !occurs_in(hay, needle) {
        HighlightView::Plain
    } else {
        let start = choose|i: int| first_occurrence(hay, needle, i);
        let end = start + needle.len();
        if is_char_boundary(bytes, start) && is_char_boundary(bytes, end) {
            HighlightView::Parts {
                before: decode_utf8(bytes.subrange(0, start)),
                matched: decode_utf8(bytes.subrange(start, end)),
                after: decode_utf8(bytes.subrange(end, bytes.len() as int)),
            }
        } else {
            HighlightView::Plain
        }
    }
}

/// How `text` is highlighted for the lowercase search text `filter_lower`,
/// the match being looked for in the lowercased `text`.
pub open spec fn highlight_of(text: Seq<char>, filter_lower: Seq<char>) -> HighlightView {
    highlight_with(text, lowercase_of(text), filter_lower)
}

/// The parts of a highlight always put the whole text back together,
/// whatever the lowercased text is.
pub proof fn lemma_highlight_parts_rebuild(text: Seq<char>, text_lower: Seq<char>, filter_lower: Seq<char>)
    ensures
        highlight_with(text, text_lower, filter_lower) matches HighlightView::Parts {
            before,
            matched,
            after,
        } ==> before + matched + after == text,
{
    let bytes = encode_utf8(text);
    let hay = encode_utf8(text_lower);
    let needle = encode_utf8(filter_lower);
    if filter_lower.len() != 0 && occurs_in(hay, needle) {
        let start = choose|i: int| first_occurrence(hay, needle, i);
        let end = start + needle.len();
        if is_char_boundary(bytes, start) && is_char_boundary(bytes, end) {
            lemma_boundary_in_prefix(bytes, start, end);
            decode_utf8_split(bytes, end);
            let head = bytes.subrange(0, end);
            decode_utf8_split(head, start);
            assert(head.subrange(0, start) =~= bytes.subrange(0, start));
            assert(head.subrange(start, head.len() as int) =~= bytes.subrange(start, end));
        }
    }
}

/// Where a sequence occurs, it has a first occurrence.
proof fn lemma_first_occurrence_exists<T>(hay: Seq<T>, needle: Seq<T>, j: int)
    requires
        occurs_at(hay, needle, j),
    ensures
        exists|i: int| first_occurrence(hay, needle, i),
    decreases j,
{
    if forall|k: int| 0 <= k < j ==> !occurs_at(hay, needle, k) {
        assert(first_occurrence(hay, needle, j));
    } else {
        let k = choose|k: int| 0 <= k < j && occurs_at(hay, needle, k);
        lemma_first_occurrence_exists(hay, needle, k);
    }
}

/// In ASCII text that is already lowercase, a non-empty ASCII search text
/// that occurs in it is cut out: the match shown is the search text itself,
/// between the text before it and the text after it.
pub proof fn lemma_highlight_finds_ascii_match(text: Seq<char>, filter_lower: Seq<char>)
    requires
        is_ascii_chars(text),
        is_ascii_chars(filter_lower),
        filter_lower.len() > 0,
        occurs_in(text, filter_lower),
    ensures
        highlight_with(text, text, filter_lower) matches HighlightView::Parts {
            before,
            matched,
            after,
        } && matched == filter_lower && before + matched + after == text,
{
    let bytes = encode_utf8(text);
    let needle = encode_utf8(filter_lower);
    is_ascii_chars_encode_utf8(text);
    is_ascii_chars_encode_utf8(filter_lower);
    let j = choose|j: int| occurs_at(text, filter_lower, j);
    assert(bytes.subrange(j, j + needle.len()) =~= needle) by {
        assert forall|k: int| 0 <= k < needle.len() implies bytes.subrange(j, j + needle.len())[k]
            == needle[k] by {
            assert(text.subrange(j, j + filter_lower.len())[k] == filter_lower[k]);
            assert(text[j + k] == filter_lower[k]);
        }
    }
    assert(occurs_at(bytes, needle, j));
    lemma_first_occurrence_exists(bytes, needle, j);
    let start = choose|i: int| first_occurrence(bytes, needle, i);
    let end = start + needle.len();
    assert(first_occurrence(bytes, needle, start));
    is_char_boundary_start_end_of_seq(bytes);
    assert forall|i: int| 0 <= i < bytes.len() implies #[trigger] is_char_boundary(bytes, i) by {
        is_char_boundary_iff_not_is_continuation_byte(bytes, i);
        assert(text[i] as u8 == bytes[i]);
        assert('\0' <= text[i] <= '\u{7f}');
    }
    assert(is_char_boundary(bytes, start));
    assert(is_char_boundary(bytes, end));
    assert(bytes.subrange(start, end) == needle);
    lemma_highlight_parts_rebuild(text, text, filter_lower);
}

/// Splits `text` around the first match of the lowercase search text in
/// `text_lower`, the lowercased `text`, with positions counted in bytes of
/// `text_lower` (as `str::find` counts them).
pub fn highlight_lowered(text: &str, text_lower: &str, filter_lower: &str) -> (r: Highlight)
    ensures
        r@ == highlight_with(text@, text_lower@, filter_lower@),
{
    if filter_lower.is_empty() {
        return Highlight::Plain;
    }
    let hay = text_lower.as_bytes();
    let needle = filter_lower.as_bytes();
    let hay_len = hay.len();
    match find_bytes(hay, needle) {
        None => Highlight::Plain,
        Some(start) => {
            assert(start + needle@.len() <= hay_len);
            let end = start + needle.len();
            if text.is_char_boundary(start) && text.is_char_boundary(end) {
                let ghost bytes = text.spec_bytes();
                proof {
                    lemma_boundary_in_prefix(bytes, start as int, end as int);
                }
                let (head, rest) = text.split_at(end);
                let (first, middle) = head.split_at(start);
                proof {
                    assert(first.spec_bytes() =~= bytes.subrange(0, start as int));
                    assert(middle.spec_bytes() =~= bytes.subrange(start as int, end as int));
                    lemma_first_occurrence_unique(hay@, needle@, start as int);
                    assert(decode_utf8(encode_utf8(first@)) == first@);
                    assert(decode_utf8(encode_utf8(middle@)) == middle@);
                    assert(decode_utf8(encode_utf8(rest@)) == rest@);
                }
                Highlight::Parts {
                    before: first.to_owned(),
                    matched: middle.to_owned(),
                    after: rest.to_owned(),
                }
            } else {
                proof {
                    lemma_first_occurrence_unique(hay@, needle@, start as int);
                }
                Highlight::Plain
            }
        },
    }
}

/// Splits `text` around the first match of the lowercase search text in the
/// lowercased `text`.
pub fn highlight_match(text: &str, filter_lower: &str) -> (r: Highlight)
    ensures
        r@ == highlight_of(text@, filter_lower@),
{
    if filter_lower.is_empty() {
        return Highlight::Plain;
    }
    let text_lower = to_lowercase(text);
    highlight_lowered(text, text_lower.as_str(), filter_lower)
}

} // verus!
