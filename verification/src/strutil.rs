//! Verified text utilities: case folding, substring search, trimming,
//! splitting, and integer/text conversions used by the probes and the
//! classification engine.

use vstd::prelude::*;

verus! {

/// ASCII lower-casing of a single character; characters outside `A..=Z`
/// are unchanged.
pub open spec fn lower_char(c: char) -> char {
    if 'A' <= c && c <= 'Z' {
        (((c as u32) + 32) as u32) as char
    } else {
        c
    }
}

/// ASCII lower-casing of a whole character sequence.
pub open spec fn lower(s: Seq<char>) -> Seq<char> {
    Seq::new(s.len(), |i: int| lower_char(s[i]))
}

/// Executable ASCII lower-casing of a single character.
pub fn lower_char_exec(c: char) -> (r: char)
    ensures
        r == lower_char(c),
{
    if 'A' <= c && c <= 'Z' {
        ((c as u8) + 32) as char
    } else {
        c
    }
}

/// `needle` occurs at offset `i` of `hay`.
pub open spec fn matches_at(hay: Seq<char>, needle: Seq<char>, i: int) -> bool {
    0 <= i && i + needle.len() <= hay.len() && hay.subrange(i, i + needle.len()) == needle
}

/// `needle` occurs somewhere in `hay`.
pub open spec fn has_substring(hay: Seq<char>, needle: Seq<char>) -> bool {
    exists|i: int| matches_at(hay, needle, i)
}

pub fn matches_at_exec(hay: &str, needle: &str, i: usize) -> (r: bool)
    requires
        i + needle@.len() <= hay@.len(),
    ensures
        r == matches_at(hay@, needle@, i as int),
{
    let hl = hay.unicode_len();
    let nl = needle.unicode_len();
    let mut j: usize = 0;
    while j < nl
        invariant
            hl == hay@.len(),
            nl == needle@.len(),
            i + nl <= hl,
            0 <= j <= nl,
            forall|t: int| 0 <= t < j ==> hay@[i + t] == needle@[t],
        decreases nl - j,
    {
        if hay.get_char(i + j) != needle.get_char(j) {
            assert(hay@.subrange(i as int, i + nl) != needle@) by {
                assert(hay@.subrange(i as int, i + nl)[j as int] == hay@[i + j]);
            }
            return false;
        }
        j = j + 1;
    }
    assert(hay@.subrange(i as int, i + nl) =~= needle@);
    true
}

/// Case-sensitive substring test.
pub fn contains_sub(hay: &str, needle: &str) -> (r: bool)
    ensures
        r == has_substring(hay@, needle@),
{
    let hl = hay.unicode_len();
    let nl = needle.unicode_len();
    if nl > hl {
        assert(forall|i: int| !matches_at(hay@, needle@, i));
        return false;
    }
    if nl == 0 {
        assert(matches_at(hay@, needle@, 0)) by {
            assert(hay@.subrange(0, 0) =~= needle@);
        }
        return true;
    }
    let mut i: usize = 0;
    while i <= hl - nl
        invariant
            1 <= nl <= hl,
            hl == hay@.len(),
            nl == needle@.len(),
            0 <= i <= hl - nl + 1,
            forall|k: int| 0 <= k < i ==> !matches_at(hay@, needle@, k),
        decreases hl - nl + 1 - i,
    {
        if matches_at_exec(hay, needle, i) {
            return true;
        }
        i = i + 1;
    }
    assert(forall|k: int| !matches_at(hay@, needle@, k));
    false
}

fn matches_at_lower_exec(hay: &str, needle: &str, i: usize) -> (r: bool)
    requires
        i + needle@.len() <= hay@.len(),
    ensures
        r == matches_at(lower(hay@), needle@, i as int),
{
    let hl = hay.unicode_len();
    let nl = needle.unicode_len();
    let mut j: usize = 0;
    while j < nl
        invariant
            hl == hay@.len(),
            nl == needle@.len(),
            i + nl <= hl,
            0 <= j <= nl,
            forall|t: int| 0 <= t < j ==> lower(hay@)[i + t] == needle@[t],
        decreases nl - j,
    {
        if lower_char_exec(hay.get_char(i + j)) != needle.get_char(j) {
            assert(lower(hay@).subrange(i as int, i + nl) != needle@) by {
                assert(lower(hay@).subrange(i as int, i + nl)[j as int] == lower(hay@)[i + j]);
            }
            return false;
        }
        j = j + 1;
    }
    assert(lower(hay@).subrange(i as int, i + nl) =~= needle@);
    true
}

/// Substring test against the lower-cased form of `hay`; the needle is
/// compared as given, so a lower-case needle makes the test
/// case-insensitive in the haystack.
pub fn contains_lower(hay: &str, needle: &str) -> (r: bool)
    ensures
        r == has_substring(lower(hay@), needle@),
{
    let hl = hay.unicode_len();
    let nl = needle.unicode_len();
    if nl > hl {
        assert(forall|i: int| !matches_at(lower(hay@), needle@, i));
        return false;
    }
    if nl == 0 {
        assert(matches_at(lower(hay@), needle@, 0)) by {
            assert(lower(hay@).subrange(0, 0) =~= needle@);
        }
        return true;
    }
    let mut i: usize = 0;
    while i <= hl - nl
        invariant
            1 <= nl <= hl,
            hl == hay@.len(),
            nl == needle@.len(),
            0 <= i <= hl - nl + 1,
            forall|k: int| 0 <= k < i ==> !matches_at(lower(hay@), needle@, k),
        decreases hl - nl + 1 - i,
    {
        if matches_at_lower_exec(hay, needle, i) {
            return true;
        }
        i = i + 1;
    }
    assert(forall|k: int| !matches_at(lower(hay@), needle@, k));
    false
}

/// Prefix test.
pub fn str_starts_with(s: &str, prefix: &str) -> (r: bool)
    ensures
        r == prefix@.is_prefix_of(s@),
{
    let sl = s.unicode_len();
    let pl = prefix.unicode_len();
    if pl > sl {
        return false;
    }
    if matches_at_exec(s, prefix, 0) {
        assert(s@.subrange(0, pl as int) == prefix@);
        true
    } else {
        false
    }
}

/// Character-wise string equality.
pub fn str_eq(a: &str, b: &str) -> (r: bool)
    ensures
        r == (a@ == b@),
{
    let al = a.unicode_len();
    let bl = b.unicode_len();
    if al != bl {
        return false;
    }
    let mut i: usize = 0;
    while i < al
        invariant
            al == a@.len(),
            al == b@.len(),
            0 <= i <= al,
            forall|t: int| 0 <= t < i ==> a@[t] == b@[t],
        decreases al - i,
    {
        if a.get_char(i) != b.get_char(i) {
            return false;
        }
        i = i + 1;
    }
    assert(a@ =~= b@);
    true
}

/// ASCII whitespace, the only kind that appears in the text this library
/// reads.
pub open spec fn is_space(c: char) -> bool {
    c == ' ' || c == '\t' || c == '\n' || c == '\r'
}

pub open spec fn spec_trim_start(s: Seq<char>) -> Seq<char>
    decreases s.len(),
{
    if s.len() > 0 && is_space(s[0]) {
        spec_trim_start(s.drop_first())
    } else {
        s
    }
}

pub open spec fn spec_trim_end(s: Seq<char>) -> Seq<char>
    decreases s.len(),
{
    if s.len() > 0 && is_space(s.last()) {
        spec_trim_end(s.drop_last())
    } else {
        s
    }
}

/// The sequence with leading and trailing whitespace removed.
pub open spec fn spec_trim(s: Seq<char>) -> Seq<char> {
    spec_trim_end(spec_trim_start(s))
}

proof fn lemma_trim_start_at(s: Seq<char>, a: int)
    requires
        0 <= a <= s.len(),
        forall|k: int| 0 <= k < a ==> is_space(s[k]),
        a < s.len() ==> !is_space(s[a]),
    ensures
        spec_trim_start(s) == s.subrange(a, s.len() as int),
    decreases a,
{
    if a == 0 {
        if s.len() > 0 && is_space(s[0]) {
            assert(false);
        }
        assert(s.subrange(0, s.len() as int) =~= s);
    } else {
        let t = s.drop_first();
        lemma_trim_start_at(t, a - 1);
        assert(t.subrange(a - 1, t.len() as int) =~= s.subrange(a, s.len() as int));
    }
}

proof fn lemma_trim_end_at(s: Seq<char>, b: int)
    requires
        0 <= b <= s.len(),
        forall|k: int| b <= k < s.len() ==> is_space(s[k]),
        b > 0 ==> !is_space(s[b - 1]),
    ensures
        spec_trim_end(s) == s.subrange(0, b),
    decreases s.len() - b,
{
    if b == s.len() {
        if s.len() > 0 && is_space(s.last()) {
            let t = s.drop_last();
            lemma_trim_end_at(t, b - 1);
            assert(t.subrange(0, b - 1) =~= s.subrange(0, b - 1));
            assert(false);
        }
        assert(s.subrange(0, b) =~= s);
    } else {
        let t = s.drop_last();
        lemma_trim_end_at(t, b);
        assert(t.subrange(0, b) =~= s.subrange(0, b));
    }
}

/// Leading and trailing whitespace removed, as `str::trim` does for the
/// ASCII-only text this library reads.
pub fn trim(s: &str) -> (r: &str)
    ensures
        r@ == spec_trim(s@),
{
    let len = s.unicode_len();
    let mut a: usize = 0;
    while a < len && is_space_exec(s.get_char(a))
        invariant
            len == s@.len(),
            0 <= a <= len,
            forall|k: int| 0 <= k < a ==> is_space(s@[k]),
        decreases len - a,
    {
        a = a + 1;
    }
    let mut b: usize = len;
    while b > a && is_space_exec(s.get_char(b - 1))
        invariant
            len == s@.len(),
            0 <= a <= b <= len,
            forall|k: int| b <= k < len ==> is_space(s@[k]),
        decreases b,
    {
        b = b - 1;
    }
    proof {
        lemma_trim_start_at(s@, a as int);
        let t = s@.subrange(a as int, s@.len() as int);
        lemma_trim_end_at(t, b - a);
        assert(t.subrange(0, b - a) =~= s@.subrange(a as int, b as int));
    }
    s.substring_char(a, b)
}

/// Executable decimal-digit test.
pub fn is_digit_exec(c: char) -> (r: bool)
    ensures
        r == is_digit(c),
{
    '0' <= c && c <= '9'
}

pub fn is_space_exec(c: char) -> (r: bool)
    ensures
        r == is_space(c),
{
    c == ' ' || c == '\t' || c == '\n' || c == '\r'
}

/// Index of the first occurrence of `c` in `s`, or `s.len()` if `c` does
/// not occur.
pub open spec fn index_of_first(s: Seq<char>, c: char) -> nat
    decreases s.len(),
{
    if s.len() == 0 {
        0
    } else if s[0] == c {
        0
    } else {
        1 + index_of_first(s.drop_first(), c)
    }
}

proof fn lemma_index_of_first_found(s: Seq<char>, c: char, i: int)
    requires
        0 <= i < s.len(),
        s[i] == c,
        forall|k: int| 0 <= k < i ==> s[k] != c,
    ensures
        index_of_first(s, c) == i,
    decreases i,
{
    if i == 0 {
    } else {
        lemma_index_of_first_found(s.drop_first(), c, i - 1);
    }
}

proof fn lemma_index_of_first_none(s: Seq<char>, c: char)
    requires
        forall|k: int| 0 <= k < s.len() ==> s[k] != c,
    ensures
        index_of_first(s, c) == s.len(),
    decreases s.len(),
{
    if s.len() > 0 {
        lemma_index_of_first_none(s.drop_first(), c);
    }
}

/// The segments of `s` between occurrences of the separator `c`,
/// separators excluded; an empty input yields one empty segment.
pub open spec fn spec_split(s: Seq<char>, c: char) -> Seq<Seq<char>>
    decreases s.len(),
{
    let i = index_of_first(s, c);
    if i < s.len() {
        seq![s.subrange(0, i as int)] + spec_split(s.subrange(i as int + 1, s.len() as int), c)
    } else {
        seq![s]
    }
}

/// Splits `s` at each occurrence of `sep`.
pub fn split_char(s: &str, sep: char) -> (r: Vec<String>)
    ensures
        r.deep_view() == spec_split(s@, sep),
    decreases s@.len(),
{
    let len = s.unicode_len();
    let mut i: usize = 0;
    while i < len && s.get_char(i) != sep
        invariant
            len == s@.len(),
            0 <= i <= len,
            forall|k: int| 0 <= k < i ==> s@[k] != sep,
        decreases len - i,
    {
        i = i + 1;
    }
    if i < len {
        proof {
            lemma_index_of_first_found(s@, sep, i as int);
        }
        let head = s.substring_char(0, i);
        let tail = s.substring_char(i + 1, len);
        let mut r = split_char(tail, sep);
        r.insert(0, String::from_str(head));
        proof {
            assert(r.deep_view() =~= spec_split(s@, sep));
        }
        r
    } else {
        proof {
            lemma_index_of_first_none(s@, sep);
        }
        let mut r: Vec<String> = Vec::new();
        r.push(String::from_str(s));
        proof {
            assert(r.deep_view() =~= spec_split(s@, sep));
        }
        r
    }
}

/// Finds the first occurrence of the character `c`, or the length of
/// `s` when `c` does not occur.
pub fn find_char(s: &str, c: char) -> (r: usize)
    ensures
        r == index_of_first(s@, c),
        r <= s@.len(),
        r < s@.len() ==> s@[r as int] == c,
        forall|k: int| 0 <= k < r ==> s@[k] != c,
{
    let len = s.unicode_len();
    let mut i: usize = 0;
    while i < len && s.get_char(i) != c
        invariant
            len == s@.len(),
            0 <= i <= len,
            forall|k: int| 0 <= k < i ==> s@[k] != c,
        decreases len - i,
    {
        i = i + 1;
    }
    proof {
        if i < len {
            lemma_index_of_first_found(s@, c, i as int);
        } else {
            lemma_index_of_first_none(s@, c);
        }
    }
    i
}

pub open spec fn strip_cr(seg: Seq<char>) -> Seq<char> {
    if seg.len() > 0 && seg.last() == '\r' {
        seg.drop_last()
    } else {
        seg
    }
}

/// The lines of `s`, as `str::lines` yields them: split at `'\n'`, a
/// trailing `'\r'` removed from each line, and a final empty segment
/// (from a terminating newline) dropped.
pub open spec fn spec_lines(s: Seq<char>) -> Seq<Seq<char>> {
    let parts = spec_split(s, '\n');
    let kept = if parts.len() > 0 && parts.last().len() == 0 {
        parts.drop_last()
    } else {
        parts
    };
    kept.map_values(|seg: Seq<char>| strip_cr(seg))
}

/// Splits `s` into lines as `str::lines` does.
pub fn lines_of(s: &str) -> (r: Vec<String>)
    ensures
        r.deep_view() == spec_lines(s@),
{
    let mut parts = split_char(s, '\n');
    if parts.len() > 0 && parts[parts.len() - 1].unicode_len() == 0 {
        let ghost pre = parts.deep_view();
        parts.pop();
        proof {
            assert(parts.deep_view() =~= pre.drop_last());
        }
    }
    let ghost kept = parts.deep_view();
    let mut r: Vec<String> = Vec::new();
    let n = parts.len();
    let mut i: usize = 0;
    while i < n
        invariant
            n == parts.len(),
            parts.deep_view() == kept,
            0 <= i <= n,
            r.deep_view() =~= kept.subrange(0, i as int).map_values(
                |seg: Seq<char>| strip_cr(seg),
            ),
        decreases n - i,
    {
        let seg = &parts[i];
        let sl = seg.as_str().unicode_len();
        if sl > 0 && seg.as_str().get_char(sl - 1) == '\r' {
            let stripped = seg.as_str().substring_char(0, sl - 1);
            proof {
                assert(stripped@ =~= strip_cr(kept[i as int]));
            }
            r.push(String::from_str(stripped));
        } else {
            r.push(seg.clone());
        }
        proof {
            assert(kept.subrange(0, i + 1).map_values(|seg: Seq<char>| strip_cr(seg))
                =~= kept.subrange(0, i as int).map_values(|seg: Seq<char>| strip_cr(seg)).push(
                strip_cr(kept[i as int]),
            ));
        }
        i = i + 1;
    }
    proof {
        assert(kept.subrange(0, n as int) =~= kept);
    }
    r
}

/// The trimmed text between the first occurrence of `marker` and the
/// end of that line, when it is non-empty.
pub open spec fn spec_capture_after(text: Seq<char>, marker: Seq<char>) -> Option<Seq<char>> {
    let p = first_match_from(text, marker, 0);
    if p >= 0 {
        let rest = text.subrange(p + marker.len(), text.len() as int);
        let e = index_of_first(rest, '\n');
        if e >= 1 {
            Some(spec_trim(rest.subrange(0, e as int)))
        } else {
            None
        }
    } else {
        None
    }
}

/// Captures the trimmed remainder of the line after the first
/// occurrence of `marker`.
pub fn capture_after(text: &str, marker: &str) -> (r: Option<String>)
    ensures
        r is Some <==> spec_capture_after(text@, marker@) is Some,
        r is Some ==> r.unwrap()@ == spec_capture_after(text@, marker@).unwrap(),
{
    match find_first(text, marker) {
        Some(p) => {
            proof {
                lemma_first_match_from(text@, marker@, 0);
            }
            let len = text.unicode_len();
            let ml = marker.unicode_len();
            let rest = text.substring_char(p + ml, len);
            let e = find_char(rest, '\n');
            if e >= 1 {
                let captured = trim(rest.substring_char(0, e));
                Some(String::from_str(captured))
            } else {
                None
            }
        },
        None => None,
    }
}

pub open spec fn is_digit(c: char) -> bool {
    '0' <= c && c <= '9'
}

pub open spec fn digit_val(c: char) -> int {
    c as u32 - '0' as u32
}

pub open spec fn all_digits(s: Seq<char>) -> bool {
    forall|k: int| 0 <= k < s.len() ==> is_digit(#[trigger] s[k])
}

/// Numeric value of a decimal digit string (most significant digit first).
pub open spec fn dec_val(s: Seq<char>) -> int
    decreases s.len(),
{
    if s.len() == 0 {
        0
    } else {
        dec_val(s.drop_last()) * 10 + digit_val(s.last())
    }
}

/// The text behind an optional leading `'+'` sign.
pub open spec fn parse_body(s: Seq<char>) -> Seq<char> {
    if s.len() > 0 && s[0] == '+' {
        s.drop_first()
    } else {
        s
    }
}

/// The value `str::parse` for an unsigned integer type gives to `s`,
/// before any range check: an optional leading `'+'`, then one or more
/// decimal digits, and nothing else.
pub open spec fn spec_parse_dec(s: Seq<char>) -> Option<int> {
    let body = parse_body(s);
    if body.len() > 0 && all_digits(body) {
        Some(dec_val(body))
    } else {
        None
    }
}

pub proof fn lemma_dec_val_nonneg(s: Seq<char>)
    requires
        all_digits(s),
    ensures
        dec_val(s) >= 0,
    decreases s.len(),
{
    if s.len() > 0 {
        assert(all_digits(s.drop_last()));
        lemma_dec_val_nonneg(s.drop_last());
    }
}

fn digit_of(c: char) -> (r: u64)
    requires
        is_digit(c),
    ensures
        r == digit_val(c),
        r < 10,
{
    (c as u32 - '0' as u32) as u64
}

/// Parses the digits of `body` (no sign, already checked to be all
/// digits) into a `u64`, or `None` on overflow.
pub fn parse_digits_u64(body: &str) -> (r: Option<u64>)
    requires
        body@.len() > 0,
        all_digits(body@),
    ensures
        dec_val(body@) <= u64::MAX ==> r == Some((dec_val(body@)) as u64),
        dec_val(body@) > u64::MAX ==> r is None,
{
    let len = body.unicode_len();
    let mut v: u64 = 0;
    let mut i: usize = 0;
    while i < len
        invariant
            len == body@.len(),
            all_digits(body@),
            0 <= i <= len,
            v == dec_val(body@.subrange(0, i as int)),
        decreases len - i,
    {
        let c = body.get_char(i);
        let d = digit_of(c);
        let ghost pre = body@.subrange(0, i as int);
        let ghost cur = body@.subrange(0, i + 1);
        proof {
            assert(cur.drop_last() =~= pre);
            assert(cur.last() == body@[i as int]);
        }
        if v > (u64::MAX - d) / 10 {
            proof {
                assert(dec_val(cur) == v * 10 + d);
                assert(dec_val(cur) > u64::MAX);
                lemma_dec_val_grows(body@, i + 1);
            }
            return None;
        }
        v = v * 10 + d;
        i = i + 1;
    }
    proof {
        assert(body@.subrange(0, len as int) =~= body@);
    }
    Some(v)
}

proof fn lemma_dec_val_grows(s: Seq<char>, i: int)
    requires
        all_digits(s),
        0 <= i <= s.len(),
    ensures
        dec_val(s) >= dec_val(s.subrange(0, i)),
    decreases s.len() - i,
{
    if i < s.len() {
        lemma_dec_val_grows(s, i + 1);
        let a = s.subrange(0, i);
        let b = s.subrange(0, i + 1);
        assert(b.drop_last() =~= a);
        assert(all_digits(a)) by {
            assert(forall|k: int| 0 <= k < a.len() ==> a[k] == s[k]);
        }
        lemma_dec_val_nonneg(a);
        assert(dec_val(b) == dec_val(a) * 10 + digit_val(b.last()));
        assert(dec_val(a) * 10 >= dec_val(a)) by (nonlinear_arith)
            requires
                dec_val(a) >= 0,
        ;
    } else {
        assert(s.subrange(0, i) =~= s);
    }
}

/// Parses `s` as `str::parse::<u64>` does: an optional leading `'+'`,
/// then decimal digits; `None` on any other shape or on overflow.
pub fn parse_u64_dec(s: &str) -> (r: Option<u64>)
    ensures
        r is Some <==> (spec_parse_dec(s@) is Some && spec_parse_dec(s@).unwrap() <= u64::MAX),
        r is Some ==> r.unwrap() == spec_parse_dec(s@).unwrap(),
{
    let len = s.unicode_len();
    let body = if len > 0 && s.get_char(0) == '+' {
        proof {
            assert(s@.subrange(1, len as int) =~= s@.drop_first());
        }
        s.substring_char(1, len)
    } else {
        proof {
            assert(s@.subrange(0, len as int) =~= s@);
        }
        s.substring_char(0, len)
    };
    let blen = body.unicode_len();
    if blen == 0 {
        return None;
    }
    let mut k: usize = 0;
    while k < blen
        invariant
            blen == body@.len(),
            blen > 0,
            body@ == parse_body(s@),
            0 <= k <= blen,
            forall|t: int| 0 <= t < k ==> is_digit(#[trigger] body@[t]),
        decreases blen - k,
    {
        let c = body.get_char(k);
        if !('0' <= c && c <= '9') {
            proof {
                assert(!is_digit(body@[k as int]));
                assert(!all_digits(body@));
            }
            return None;
        }
        k = k + 1;
    }
    assert(all_digits(body@));
    assert(spec_parse_dec(s@) == Some(dec_val(body@)));
    proof {
        lemma_dec_val_nonneg(body@);
    }
    parse_digits_u64(body)
}

/// Parses `s` as `str::parse::<u32>` does.
pub fn parse_u32_dec(s: &str) -> (r: Option<u32>)
    ensures
        r is Some <==> (spec_parse_dec(s@) is Some && spec_parse_dec(s@).unwrap() <= u32::MAX),
        r is Some ==> r.unwrap() == spec_parse_dec(s@).unwrap(),
{
    match parse_u64_dec(s) {
        Some(v) => {
            if v <= u32::MAX as u64 {
                Some(v as u32)
            } else {
                None
            }
        },
        None => {
            proof {
                if spec_parse_dec(s@) is Some {
                    let body = if s@.len() > 0 && s@[0] == '+' {
                        s@.drop_first()
                    } else {
                        s@
                    };
                    lemma_dec_val_nonneg(body);
                }
            }
            None
        },
    }
}

pub open spec fn is_hex_digit(c: char) -> bool {
    ('0' <= c && c <= '9') || ('a' <= c && c <= 'f') || ('A' <= c && c <= 'F')
}

pub open spec fn hex_digit_val(c: char) -> int {
    if '0' <= c && c <= '9' {
        c as u32 - '0' as u32
    } else if 'a' <= c && c <= 'f' {
        c as u32 - 'a' as u32 + 10
    } else {
        c as u32 - 'A' as u32 + 10
    }
}

pub open spec fn all_hex_digits(s: Seq<char>) -> bool {
    forall|k: int| 0 <= k < s.len() ==> is_hex_digit(#[trigger] s[k])
}

/// Numeric value of a hexadecimal digit string (most significant first).
pub open spec fn hex_val(s: Seq<char>) -> int
    decreases s.len(),
{
    if s.len() == 0 {
        0
    } else {
        hex_val(s.drop_last()) * 16 + hex_digit_val(s.last())
    }
}

/// The value `u64::from_str_radix(s, 16)` gives to `s`, before any range
/// check: an optional leading `'+'`, then one or more hex digits.
pub open spec fn spec_parse_hex(s: Seq<char>) -> Option<int> {
    let body = parse_body(s);
    if body.len() > 0 && all_hex_digits(body) {
        Some(hex_val(body))
    } else {
        None
    }
}

proof fn lemma_hex_val_nonneg(s: Seq<char>)
    requires
        all_hex_digits(s),
    ensures
        hex_val(s) >= 0,
    decreases s.len(),
{
    if s.len() > 0 {
        assert(all_hex_digits(s.drop_last()));
        lemma_hex_val_nonneg(s.drop_last());
    }
}

proof fn lemma_hex_val_grows(s: Seq<char>, i: int)
    requires
        all_hex_digits(s),
        0 <= i <= s.len(),
    ensures
        hex_val(s) >= hex_val(s.subrange(0, i)),
    decreases s.len() - i,
{
    if i < s.len() {
        lemma_hex_val_grows(s, i + 1);
        let a = s.subrange(0, i);
        let b = s.subrange(0, i + 1);
        assert(b.drop_last() =~= a);
        assert(all_hex_digits(a)) by {
            assert(forall|k: int| 0 <= k < a.len() ==> a[k] == s[k]);
        }
        lemma_hex_val_nonneg(a);
        assert(hex_val(b) == hex_val(a) * 16 + hex_digit_val(b.last()));
        assert(hex_val(a) * 16 >= hex_val(a)) by (nonlinear_arith)
            requires
                hex_val(a) >= 0,
        ;
    } else {
        assert(s.subrange(0, i) =~= s);
    }
}

fn hex_digit_of(c: char) -> (r: u64)
    requires
        is_hex_digit(c),
    ensures
        r == hex_digit_val(c),
        r < 16,
{
    if '0' <= c && c <= '9' {
        (c as u32 - '0' as u32) as u64
    } else if 'a' <= c && c <= 'f' {
        (c as u32 - 'a' as u32 + 10) as u64
    } else {
        (c as u32 - 'A' as u32 + 10) as u64
    }
}

pub fn is_hex_digit_exec(c: char) -> (r: bool)
    ensures
        r == is_hex_digit(c),
{
    ('0' <= c && c <= '9') || ('a' <= c && c <= 'f') || ('A' <= c && c <= 'F')
}

/// Parses `s` as `u64::from_str_radix(s, 16)` does: an optional leading
/// `'+'`, then hex digits; `None` on any other shape or on overflow.
pub fn parse_u64_hex(s: &str) -> (r: Option<u64>)
    ensures
        r is Some <==> (spec_parse_hex(s@) is Some && spec_parse_hex(s@).unwrap() <= u64::MAX),
        r is Some ==> r.unwrap() == spec_parse_hex(s@).unwrap(),
{
    let len = s.unicode_len();
    let body = if len > 0 && s.get_char(0) == '+' {
        proof {
            assert(s@.subrange(1, len as int) =~= s@.drop_first());
        }
        s.substring_char(1, len)
    } else {
        proof {
            assert(s@.subrange(0, len as int) =~= s@);
        }
        s.substring_char(0, len)
    };
    let blen = body.unicode_len();
    if blen == 0 {
        return None;
    }
    let mut v: u64 = 0;
    let mut i: usize = 0;
    while i < blen
        invariant
            blen == body@.len(),
            blen > 0,
            body@ == parse_body(s@),
            0 <= i <= blen,
            forall|t: int| 0 <= t < i ==> is_hex_digit(#[trigger] body@[t]),
            v == hex_val(body@.subrange(0, i as int)),
        decreases blen - i,
    {
        let c = body.get_char(i);
        if !is_hex_digit_exec(c) {
            proof {
                assert(!all_hex_digits(body@));
            }
            return None;
        }
        let d = hex_digit_of(c);
        let ghost pre = body@.subrange(0, i as int);
        let ghost cur = body@.subrange(0, i + 1);
        proof {
            assert(cur.drop_last() =~= pre);
            assert(cur.last() == body@[i as int]);
            assert(all_hex_digits(cur)) by {
                assert(forall|k: int| 0 <= k < cur.len() ==> cur[k] == body@[k]);
            }
        }
        if v > (u64::MAX - d) / 16 {
            proof {
                assert(hex_val(cur) == v * 16 + d);
                assert(hex_val(cur) > u64::MAX);
                if all_hex_digits(body@) {
                    lemma_hex_val_grows(body@, i + 1);
                }
            }
            return None;
        }
        v = v * 16 + d;
        i = i + 1;
    }
    proof {
        assert(body@.subrange(0, blen as int) =~= body@);
        lemma_hex_val_nonneg(body@);
    }
    Some(v)
}

/// Parses `s` as `u16::from_str_radix(s, 16)` does.
pub fn parse_u16_hex(s: &str) -> (r: Option<u16>)
    ensures
        r is Some <==> (spec_parse_hex(s@) is Some && spec_parse_hex(s@).unwrap() <= u16::MAX),
        r is Some ==> r.unwrap() == spec_parse_hex(s@).unwrap(),
{
    match parse_u64_hex(s) {
        Some(v) => {
            if v <= u16::MAX as u64 {
                Some(v as u16)
            } else {
                None
            }
        },
        None => {
            proof {
                if spec_parse_hex(s@) is Some {
                    lemma_hex_val_nonneg(parse_body(s@));
                }
            }
            None
        },
    }
}

/// A parsed hexadecimal value is never negative.
pub proof fn lemma_parse_hex_nonneg(s: Seq<char>)
    ensures
        spec_parse_hex(s) is Some ==> spec_parse_hex(s).unwrap() >= 0,
{
    if spec_parse_hex(s) is Some {
        lemma_hex_val_nonneg(parse_body(s));
    }
}

/// `s` with every repetition of a leading `"0x"` removed, as
/// `str::trim_start_matches("0x")` leaves it.
pub open spec fn strip_0x(s: Seq<char>) -> Seq<char>
    decreases s.len(),
{
    if s.len() >= 2 && s[0] == '0' && s[1] == 'x' {
        strip_0x(s.subrange(2, s.len() as int))
    } else {
        s
    }
}

pub fn strip_0x_exec(s: &str) -> (r: &str)
    ensures
        r@ == strip_0x(s@),
    decreases s@.len(),
{
    let len = s.unicode_len();
    if len >= 2 && s.get_char(0) == '0' && s.get_char(1) == 'x' {
        strip_0x_exec(s.substring_char(2, len))
    } else {
        s
    }
}

/// Trims `hex`, removes every leading `"0x"` repetition, and reads the
/// rest as a hexadecimal `u64`.
pub fn hex_to_u64(hex: &str) -> (r: Option<u64>)
    ensures
        ({
            let t = strip_0x(spec_trim(hex@));
            &&& r is Some <==> (spec_parse_hex(t) is Some && spec_parse_hex(t).unwrap()
                <= u64::MAX)
            &&& r is Some ==> r.unwrap() == spec_parse_hex(t).unwrap()
        }),
{
    let t = trim(hex);
    let stripped = strip_0x_exec(t);
    parse_u64_hex(stripped)
}

/// The decimal digits of `n`, most significant first, no sign and no
/// leading zero (a single `'0'` for zero).
pub open spec fn dec_digits_of(n: nat) -> Seq<char>
    decreases n,
{
    if n < 10 {
        seq![digit_char(n)]
    } else {
        dec_digits_of(n / 10) + seq![digit_char(n % 10)]
    }
}

pub open spec fn digit_char(d: nat) -> char {
    if d == 0 {
        '0'
    } else if d == 1 {
        '1'
    } else if d == 2 {
        '2'
    } else if d == 3 {
        '3'
    } else if d == 4 {
        '4'
    } else if d == 5 {
        '5'
    } else if d == 6 {
        '6'
    } else if d == 7 {
        '7'
    } else if d == 8 {
        '8'
    } else {
        '9'
    }
}

pub fn digit_str(d: u64) -> (r: &'static str)
    requires
        d < 10,
    ensures
        r@ == seq![digit_char(d as nat)],
{
    proof {
        reveal_strlit("0");
        reveal_strlit("1");
        reveal_strlit("2");
        reveal_strlit("3");
        reveal_strlit("4");
        reveal_strlit("5");
        reveal_strlit("6");
        reveal_strlit("7");
        reveal_strlit("8");
        reveal_strlit("9");
    }
    if d == 0 {
        "0"
    } else if d == 1 {
        "1"
    } else if d == 2 {
        "2"
    } else if d == 3 {
        "3"
    } else if d == 4 {
        "4"
    } else if d == 5 {
        "5"
    } else if d == 6 {
        "6"
    } else if d == 7 {
        "7"
    } else if d == 8 {
        "8"
    } else {
        "9"
    }
}

/// Renders `n` in decimal, as `u64` formatting does.
pub fn u64_to_string(n: u64) -> (r: String)
    ensures
        r@ == dec_digits_of(n as nat),
    decreases n,
{
    if n < 10 {
        String::from_str(digit_str(n))
    } else {
        let head = u64_to_string(n / 10);
        head.concat(digit_str(n % 10))
    }
}

/// Renders `n` in decimal, as `u32` formatting does.
pub fn u32_to_string(n: u32) -> (r: String)
    ensures
        r@ == dec_digits_of(n as nat),
{
    u64_to_string(n as u64)
}

pub open spec fn hex_digit_char(d: nat) -> char {
    if d < 10 {
        digit_char(d)
    } else if d == 10 {
        'a'
    } else if d == 11 {
        'b'
    } else if d == 12 {
        'c'
    } else if d == 13 {
        'd'
    } else if d == 14 {
        'e'
    } else {
        'f'
    }
}

/// The four-digit zero-padded lower-case hexadecimal form of `n`, as
/// formatting a `u16` with width four and zero padding gives it.
pub open spec fn hex4_of(n: u16) -> Seq<char> {
    seq![
        hex_digit_char((n as nat / 4096) % 16),
        hex_digit_char((n as nat / 256) % 16),
        hex_digit_char((n as nat / 16) % 16),
        hex_digit_char(n as nat % 16),
    ]
}

fn hex_digit_str(d: u16) -> (r: &'static str)
    requires
        d < 16,
    ensures
        r@ == seq![hex_digit_char(d as nat)],
{
    proof {
        reveal_strlit("a");
        reveal_strlit("b");
        reveal_strlit("c");
        reveal_strlit("d");
        reveal_strlit("e");
        reveal_strlit("f");
    }
    if d < 10 {
        digit_str(d as u64)
    } else if d == 10 {
        "a"
    } else if d == 11 {
        "b"
    } else if d == 12 {
        "c"
    } else if d == 13 {
        "d"
    } else if d == 14 {
        "e"
    } else {
        "f"
    }
}

/// `num / den` rounded to the nearest integer, an exact half going to
/// the even neighbour, as decimal formatting of an exactly represented
/// quotient rounds.
pub open spec fn round_half_even(num: int, den: int) -> int {
    let q = num / den;
    let r = num % den;
    if 2 * r > den {
        q + 1
    } else if 2 * r == den {
        q + (q % 2)
    } else {
        q
    }
}

/// Executable rounding of `num / den` to nearest, ties to even.
pub fn round_half_even_u64(num: u64, den: u64) -> (r: u64)
    requires
        2 <= den <= u64::MAX / 2,
    ensures
        r == round_half_even(num as int, den as int),
        r <= num / den + 1,
{
    let q = num / den;
    proof {
        vstd::arithmetic::div_mod::lemma_div_is_ordered_by_denominator(
            num as int,
            2,
            den as int,
        );
    }
    let rem = num % den;
    if 2 * rem > den {
        q + 1
    } else if 2 * rem == den {
        q + (q % 2)
    } else {
        q
    }
}

/// Renders `n` as four zero-padded lower-case hex digits.
pub fn u16_to_hex4(n: u16) -> (r: String)
    ensures
        r@ == hex4_of(n),
{
    let a = hex_digit_str((n / 4096) % 16);
    let b = hex_digit_str((n / 256) % 16);
    let c = hex_digit_str((n / 16) % 16);
    let d = hex_digit_str(n % 16);
    let r = String::from_str(a).concat(b).concat(c).concat(d);
    proof {
        assert(r@ =~= hex4_of(n));
    }
    r
}

/// End (exclusive) of the run of decimal digits starting at `p`: the
/// least index at or after `p` holding a non-digit, or `s.len()`.
pub open spec fn digit_run_end(s: Seq<char>, p: int) -> int
    decreases s.len() - p,
{
    if 0 <= p < s.len() && is_digit(s[p]) {
        digit_run_end(s, p + 1)
    } else {
        p
    }
}

pub proof fn lemma_digit_run_end(s: Seq<char>, p: int)
    requires
        0 <= p <= s.len(),
    ensures
        p <= digit_run_end(s, p) <= s.len(),
        forall|k: int| p <= k < digit_run_end(s, p) ==> is_digit(#[trigger] s[k]),
        digit_run_end(s, p) < s.len() ==> !is_digit(s[digit_run_end(s, p)]),
    decreases s.len() - p,
{
    if p < s.len() && is_digit(s[p]) {
        lemma_digit_run_end(s, p + 1);
    }
}

/// Executable scan for the end of the digit run starting at `p`.
pub fn digit_run_end_exec(s: &str, p: usize) -> (r: usize)
    requires
        p <= s@.len(),
    ensures
        r == digit_run_end(s@, p as int),
{
    let len = s.unicode_len();
    let mut m = p;
    while m < len && is_digit_exec(s.get_char(m))
        invariant
            p <= m <= len,
            len == s@.len(),
            digit_run_end(s@, p as int) == digit_run_end(s@, m as int),
        decreases len - m,
    {
        m = m + 1;
    }
    m
}

/// The least index at or after `p` where `pat` occurs in `s`, or `-1` if
/// it does not occur there.
pub open spec fn first_match_from(s: Seq<char>, pat: Seq<char>, p: int) -> int
    decreases s.len() - p + 1,
{
    if p + pat.len() > s.len() {
        -1
    } else if matches_at(s, pat, p) {
        p
    } else {
        first_match_from(s, pat, p + 1)
    }
}

pub proof fn lemma_first_match_from(s: Seq<char>, pat: Seq<char>, p: int)
    requires
        0 <= p,
    ensures
        ({
            let q = first_match_from(s, pat, p);
            &&& q == -1 ==> forall|k: int| k >= p ==> !matches_at(s, pat, k)
            &&& q != -1 ==> p <= q && matches_at(s, pat, q) && (forall|k: int|
                p <= k < q ==> !matches_at(s, pat, k))
        }),
    decreases s.len() - p + 1,
{
    if p + pat.len() > s.len() {
    } else if matches_at(s, pat, p) {
    } else {
        lemma_first_match_from(s, pat, p + 1);
    }
}

/// Finds the first occurrence of `pat` in `s`.
pub fn find_first(s: &str, pat: &str) -> (r: Option<usize>)
    ensures
        ({
            let q = first_match_from(s@, pat@, 0);
            match r {
                Some(i) => q == i,
                None => q == -1,
            }
        }),
{
    proof {
        lemma_first_match_from(s@, pat@, 0);
    }
    let len = s.unicode_len();
    let pl = pat.unicode_len();
    if pl > len {
        return None;
    }
    if pl == 0 {
        proof {
            assert(s@.subrange(0, 0) =~= pat@);
            assert(matches_at(s@, pat@, 0));
        }
        return Some(0);
    }
    let mut i: usize = 0;
    while i <= len - pl
        invariant
            1 <= pl <= len,
            len == s@.len(),
            pl == pat@.len(),
            0 <= i <= len - pl + 1,
            forall|k: int| 0 <= k < i ==> !matches_at(s@, pat@, k),
        decreases len - pl + 1 - i,
    {
        if matches_at_exec(s, pat, i) {
            proof {
                lemma_first_match_from(s@, pat@, 0);
                let q = first_match_from(s@, pat@, 0);
                assert(q != -1 && q <= i && i <= q);
            }
            return Some(i);
        }
        i = i + 1;
    }
    assert(forall|k: int| k >= 0 ==> !matches_at(s@, pat@, k));
    None
}

} // verus!
