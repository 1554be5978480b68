//! Operations on text as sequences of characters.
//!
//! Every function here works on `&[char]` and is stated over `Seq<char>`, so
//! that the field rules of the extractor and of quality control can be
//! written, and proved, without reference to any byte encoding.

use vstd::prelude::*;

verus! {

/// The characters that carry the Unicode `White_Space` property.
pub open spec fn is_whitespace_spec(c: char) -> bool {
    let u = c as u32;
    ||| (0x09 <= u && u <= 0x0D)
    ||| u == 0x20
    ||| u == 0x85
    ||| u == 0xA0
    ||| u == 0x1680
    ||| (0x2000 <= u && u <= 0x200A)
    ||| u == 0x2028
    ||| u == 0x2029
    ||| u == 0x202F
    ||| u == 0x205F
    ||| u == 0x3000
}

#[verifier::when_used_as_spec(is_whitespace_spec)]
pub fn is_whitespace(c: char) -> (b: bool)
    ensures
        b == is_whitespace_spec(c),
{
    let u: u32 = c as u32;
    (0x09 <= u && u <= 0x0D) || u == 0x20 || u == 0x85 || u == 0xA0 || u == 0x1680 || (0x2000 <= u
        && u <= 0x200A) || u == 0x2028 || u == 0x2029 || u == 0x202F || u == 0x205F || u == 0x3000
}

/// `s` without its leading whitespace.
pub open spec fn skip_whitespace(s: Seq<char>) -> Seq<char>
    decreases s.len(),
{
    if s.len() > 0 && is_whitespace_spec(s[0]) {
        skip_whitespace(s.drop_first())
    } else {
        s
    }
}

/// `s` without its trailing whitespace.
pub open spec fn drop_trailing_whitespace(s: Seq<char>) -> Seq<char>
    decreases s.len(),
{
    if s.len() > 0 && is_whitespace_spec(s.last()) {
        drop_trailing_whitespace(s.drop_last())
    } else {
        s
    }
}

/// `s` without leading and trailing whitespace.
pub open spec fn trimmed(s: Seq<char>) -> Seq<char> {
    drop_trailing_whitespace(skip_whitespace(s))
}

/// Whether `pat` stands in `s` at index `i`.
pub open spec fn occurs_at(s: Seq<char>, pat: Seq<char>, i: int) -> bool {
    0 <= i && i + pat.len() <= s.len() && s.subrange(i, i + pat.len()) == pat
}

/// The least index at or after `i` where `pat` stands in `s`.
pub open spec fn first_occurrence_from(s: Seq<char>, pat: Seq<char>, i: int) -> Option<int>
    decreases s.len() - i,
{
    if i < 0 || i + pat.len() > s.len() {
        None
    } else if occurs_at(s, pat, i) {
        Some(i)
    } else if i >= s.len() {
        None
    } else {
        first_occurrence_from(s, pat, i + 1)
    }
}

/// The least index where `pat` stands in `s`.
pub open spec fn first_occurrence(s: Seq<char>, pat: Seq<char>) -> Option<int> {
    first_occurrence_from(s, pat, 0)
}

/// Whether `pat` stands anywhere in `s`.
pub open spec fn contains_text(s: Seq<char>, pat: Seq<char>) -> bool {
    first_occurrence(s, pat) is Some
}

/// The part of `s` before the first `pat`; all of `s` where there is none.
pub open spec fn before_first(s: Seq<char>, pat: Seq<char>) -> Seq<char> {
    match first_occurrence(s, pat) {
        Some(i) => s.take(i),
        None => s,
    }
}

/// The part of `s` after the first `pat`.
pub open spec fn after_first(s: Seq<char>, pat: Seq<char>) -> Option<Seq<char>> {
    match first_occurrence(s, pat) {
        Some(i) => Some(s.skip(i + pat.len())),
        None => None,
    }
}

/// What lies between the first `pat` in `s` and the next one after it, or
/// the end of `s`.
pub open spec fn second_segment(s: Seq<char>, pat: Seq<char>) -> Option<Seq<char>> {
    match after_first(s, pat) {
        Some(rest) => Some(before_first(rest, pat)),
        None => None,
    }
}

/// What is left of `s` after every `pat`, found from left to right without
/// overlap, has been passed; all of `s` where there is none.
pub open spec fn last_segment(s: Seq<char>, pat: Seq<char>) -> Seq<char>
    decreases s.len(),
{
    match first_occurrence(s, pat) {
        Some(i) => if pat.len() > 0 && 0 <= i && i + pat.len() <= s.len() {
            last_segment(s.skip(i + pat.len()), pat)
        } else {
            s
        },
        None => s,
    }
}

/// The greatest index of `c` in `s`.
pub open spec fn last_index_of(s: Seq<char>, c: char) -> Option<int>
    decreases s.len(),
{
    if s.len() == 0 {
        None
    } else if s.last() == c {
        Some(s.len() - 1)
    } else {
        last_index_of(s.drop_last(), c)
    }
}

/// Whether `s` begins with `pat`.
pub open spec fn starts_with(s: Seq<char>, pat: Seq<char>) -> bool {
    occurs_at(s, pat, 0)
}

/// The first line of `s`: what stands before the first line feed, less a
/// carriage return directly before that line feed.
pub open spec fn first_line(s: Seq<char>) -> Seq<char> {
    match first_occurrence(s, seq!['\n']) {
        Some(i) => if i > 0 && s[i - 1] == '\r' {
            s.take(i - 1)
        } else {
            s.take(i)
        },
        None => s,
    }
}

/// Whether `s` holds more than one line: a line feed with text after it.
pub open spec fn is_multiline(s: Seq<char>) -> bool {
    exists|i: int| 0 <= i && i + 1 < s.len() && #[trigger] s[i] == '\n'
}

/// Whether two whitespace characters stand side by side in `s`.
pub open spec fn has_adjacent_whitespace(s: Seq<char>) -> bool {
    exists|i: int|
        0 <= i && i + 1 < s.len() && is_whitespace_spec(#[trigger] s[i]) && is_whitespace_spec(
            s[i + 1],
        )
}

/// The words of `s`, joined by single spaces: each run of whitespace inside
/// becomes one space, and whitespace at either end is dropped.
pub open spec fn collapsed(s: Seq<char>) -> Seq<char>
    decreases s.len(),
{
    if s.len() == 0 {
        Seq::empty()
    } else {
        let before = collapsed(s.drop_last());
        if is_whitespace_spec(s.last()) {
            before
        } else if s.len() > 1 && is_whitespace_spec(s[s.len() - 2]) && before.len() > 0 {
            before.push(' ').push(s.last())
        } else {
            before.push(s.last())
        }
    }
}

/// `c`, in lower case where it is an ASCII capital.
pub open spec fn ascii_lower(c: char) -> char {
    if 'A' <= c && c <= 'Z' {
        ((c as u8) + 32) as char
    } else {
        c
    }
}

/// Whether `s` and `pat` are equal but for the case of ASCII letters.
pub open spec fn eq_ignore_ascii_case(s: Seq<char>, pat: Seq<char>) -> bool {
    s.len() == pat.len() && forall|i: int|
        0 <= i < s.len() ==> ascii_lower(#[trigger] s[i]) == ascii_lower(pat[i])
}

/// A copy of `s[from..to]`.
pub fn copy_range(s: &[char], from: usize, to: usize) -> (r: Vec<char>)
    requires
        from <= to <= s.len(),
    ensures
        r@ == s@.subrange(from as int, to as int),
{
    let mut r: Vec<char> = Vec::new();
    let mut i: usize = from;
    while i < to
        invariant
            from <= i <= to <= s.len(),
            r@ == s@.subrange(from as int, i as int),
        decreases to - i,
    {
        r.push(s[i]);
        i += 1;
    }
    r
}

/// The index of the first character of `s` that is no whitespace.
pub fn leading_whitespace(s: &[char]) -> (i: usize)
    ensures
        i <= s.len(),
        skip_whitespace(s@) == s@.skip(i as int),
        forall|k: int| 0 <= k < i ==> is_whitespace_spec(#[trigger] s[k]),
        i < s.len() ==> !is_whitespace_spec(s[i as int]),
{
    let mut i: usize = 0;
    assert(s@.skip(0) == s@);
    while i < s.len() && is_whitespace(s[i])
        invariant
            i <= s.len(),
            skip_whitespace(s@) == skip_whitespace(s@.skip(i as int)),
            forall|k: int| 0 <= k < i ==> is_whitespace_spec(#[trigger] s[k]),
        decreases s.len() - i,
    {
        assert(s@.skip(i as int).drop_first() == s@.skip(i as int + 1));
        i += 1;
    }
    i
}

/// The index just after the last character of `s` that is no whitespace.
pub fn trailing_whitespace(s: &[char]) -> (j: usize)
    ensures
        j <= s.len(),
        drop_trailing_whitespace(s@) == s@.take(j as int),
        forall|k: int| j <= k < s.len() ==> is_whitespace_spec(#[trigger] s[k]),
        j > 0 ==> !is_whitespace_spec(s[j as int - 1]),
{
    let mut j: usize = s.len();
    assert(s@.take(j as int) == s@);
    while j > 0 && is_whitespace(s[j - 1])
        invariant
            j <= s.len(),
            drop_trailing_whitespace(s@) == drop_trailing_whitespace(s@.take(j as int)),
            forall|k: int| j <= k < s.len() ==> is_whitespace_spec(#[trigger] s[k]),
        decreases j,
    {
        assert(s@.take(j as int).drop_last() == s@.take(j as int - 1));
        j -= 1;
    }
    j
}

/// `s` without leading and trailing whitespace.
pub fn trim(s: &[char]) -> (r: Vec<char>)
    ensures
        r@ == trimmed(s@),
{
    let i = leading_whitespace(s);
    let rest = copy_range(s, i, s.len());
    assert(rest@ == s@.skip(i as int));
    let j = trailing_whitespace(rest.as_slice());
    let r = copy_range(rest.as_slice(), 0, j);
    assert(r@ == rest@.take(j as int));
    r
}

/// Whether `pat` stands in `s` at index `i`.
pub fn matches_at(s: &[char], pat: &[char], i: usize) -> (b: bool)
    ensures
        b == occurs_at(s@, pat@, i as int),
{
    if pat.len() > s.len() || i > s.len() - pat.len() {
        return false;
    }
    let mut k: usize = 0;
    while k < pat.len()
        invariant
            k <= pat.len(),
            i + pat.len() <= s.len(),
            forall|j: int| 0 <= j < k ==> s[i + j] == pat[j],
        decreases pat.len() - k,
    {
        if s[i + k] != pat[k] {
            assert(s@.subrange(i as int, i + pat.len())[k as int] != pat@[k as int]);
            return false;
        }
        k += 1;
    }
    assert(s@.subrange(i as int, i + pat.len()) =~= pat@);
    true
}

/// The least index where `pat` stands in `s`.
pub fn find(s: &[char], pat: &[char]) -> (r: Option<usize>)
    ensures
        r is Some <==> first_occurrence(s@, pat@) is Some,
        r matches Some(i) ==> first_occurrence(s@, pat@) == Some(i as int) && occurs_at(
            s@,
            pat@,
            i as int,
        ),
        forall|j: int|
            0 <= j && (r matches Some(i) ==> j < i) ==> !#[trigger] occurs_at(s@, pat@, j),
{
    if pat.len() > s.len() {
        return None;
    }
    let last: usize = s.len() - pat.len();
    let mut i: usize = 0;
    loop
        invariant
            i <= last,
            last == s.len() - pat.len(),
            first_occurrence(s@, pat@) == first_occurrence_from(s@, pat@, i as int),
            forall|j: int| 0 <= j < i ==> !#[trigger] occurs_at(s@, pat@, j),
        decreases last - i,
    {
        if matches_at(s, pat, i) {
            return Some(i);
        }
        if i == last {
            assert(first_occurrence_from(s@, pat@, i + 1) is None);
            return None;
        }
        i += 1;
    }
}

/// Whether `pat` stands anywhere in `s`.
pub fn contains(s: &[char], pat: &[char]) -> (b: bool)
    ensures
        b == contains_text(s@, pat@),
{
    find(s, pat).is_some()
}

/// The part of `s` before the first `pat`; all of `s` where there is none.
pub fn take_before(s: &[char], pat: &[char]) -> (r: Vec<char>)
    ensures
        r@ == before_first(s@, pat@),
{
    match find(s, pat) {
        Some(i) => copy_range(s, 0, i),
        None => {
            let r = copy_range(s, 0, s.len());
            assert(r@ == s@);
            r
        },
    }
}

/// The part of `s` after the first `pat`.
pub fn take_after(s: &[char], pat: &[char]) -> (r: Option<Vec<char>>)
    ensures
        r.deep_view() == after_first(s@, pat@),
{
    match find(s, pat) {
        Some(i) => {
            let n = s.len();
            let r = copy_range(s, i + pat.len(), n);
            assert(r.deep_view() =~= r@);
            Some(r)
        },
        None => None,
    }
}

/// What lies between the first `pat` in `s` and the next one after it, or
/// the end of `s`.
pub fn take_second_segment(s: &[char], pat: &[char]) -> (r: Option<Vec<char>>)
    ensures
        r.deep_view() == second_segment(s@, pat@),
{
    match take_after(s, pat) {
        Some(rest) => {
            assert(rest.deep_view() =~= rest@);
            let r = take_before(rest.as_slice(), pat);
            assert(r.deep_view() =~= r@);
            Some(r)
        },
        None => None,
    }
}

/// What is left of `s` after every `pat`, found from left to right without
/// overlap, has been passed.
pub fn take_last_segment(s: &[char], pat: &[char]) -> (r: Vec<char>)
    ensures
        r@ == last_segment(s@, pat@),
{
    let mut rest = copy_range(s, 0, s.len());
    assert(rest@ == s@);
    if pat.len() == 0 {
        return rest;
    }
    loop
        invariant
            pat.len() > 0,
            last_segment(s@, pat@) == last_segment(rest@, pat@),
        ensures
            rest@ == last_segment(s@, pat@),
        decreases rest.len(),
    {
        match find(rest.as_slice(), pat) {
            Some(i) => {
                let n = rest.len();
                rest = copy_range(rest.as_slice(), i + pat.len(), n);
            },
            None => {
                break ;
            },
        }
    }
    rest
}

/// Whether `s` begins with `pat`.
pub fn has_prefix(s: &[char], pat: &[char]) -> (b: bool)
    ensures
        b == starts_with(s@, pat@),
{
    matches_at(s, pat, 0)
}

/// The greatest index of `c` in `s`.
pub fn rfind_char(s: &[char], c: char) -> (r: Option<usize>)
    ensures
        r is Some <==> last_index_of(s@, c) is Some,
        r matches Some(i) ==> last_index_of(s@, c) == Some(i as int) && i < s.len() && s[i as int]
            == c,
{
    let mut j: usize = s.len();
    assert(s@.take(j as int) == s@);
    while j > 0
        invariant
            j <= s.len(),
            last_index_of(s@, c) == last_index_of(s@.take(j as int), c),
        decreases j,
    {
        if s[j - 1] == c {
            return Some(j - 1);
        }
        assert(s@.take(j as int).drop_last() == s@.take(j as int - 1));
        j -= 1;
    }
    None
}

/// The first line of `s`.
pub fn take_first_line(s: &[char]) -> (r: Vec<char>)
    ensures
        r@ == first_line(s@),
{
    let newline: Vec<char> = vec!['\n'];
    assert(newline@ == seq!['\n']);
    match find(s, newline.as_slice()) {
        Some(i) => {
            if i > 0 && s[i - 1] == '\r' {
                copy_range(s, 0, i - 1)
            } else {
                copy_range(s, 0, i)
            }
        },
        None => {
            let r = copy_range(s, 0, s.len());
            assert(r@ == s@);
            r
        },
    }
}

/// Whether `s` holds more than one line.
pub fn has_several_lines(s: &[char]) -> (b: bool)
    ensures
        b == is_multiline(s@),
{
    if s.len() == 0 {
        return false;
    }
    let last: usize = s.len() - 1;
    let mut i: usize = 0;
    while i < last
        invariant
            i <= last,
            last + 1 == s.len(),
            forall|k: int| 0 <= k < i ==> #[trigger] s[k] != '\n',
        decreases last - i,
    {
        if s[i] == '\n' {
            return true;
        }
        i += 1;
    }
    false
}

/// Whether two whitespace characters stand side by side in `s`.
pub fn has_multiple_whitespaces(s: &[char]) -> (b: bool)
    ensures
        b == has_adjacent_whitespace(s@),
{
    let mut prev_whitespace = false;
    let mut i: usize = 0;
    while i < s.len()
        invariant
            i <= s.len(),
            prev_whitespace == (i > 0 && is_whitespace_spec(s[i as int - 1])),
            forall|k: int|
                0 <= k && k + 1 < i ==> !(is_whitespace_spec(#[trigger] s[k]) && is_whitespace_spec(
                    s[k + 1],
                )),
        decreases s.len() - i,
    {
        if is_whitespace(s[i]) {
            if prev_whitespace {
                assert(is_whitespace_spec(s[i as int - 1]) && is_whitespace_spec(s[i as int - 1 + 1]));
                return true;
            }
            prev_whitespace = true;
        } else {
            prev_whitespace = false;
        }
        i += 1;
    }
    false
}

/// The words of `s`, joined by single spaces.
pub fn collapse_whitespace(s: &[char]) -> (r: Vec<char>)
    ensures
        r@ == collapsed(s@),
{
    let mut r: Vec<char> = Vec::new();
    let mut i: usize = 0;
    assert(s@.take(0) == Seq::<char>::empty());
    while i < s.len()
        invariant
            i <= s.len(),
            r@ == collapsed(s@.take(i as int)),
        decreases s.len() - i,
    {
        let c = s[i];
        proof {
            let t = s@.take(i as int + 1);
            assert(t.drop_last() == s@.take(i as int));
            assert(t.last() == c);
            if i > 0 {
                assert(t[t.len() - 2] == s[i as int - 1]);
            }
        }
        if !is_whitespace(c) {
            if i > 0 && is_whitespace(s[i - 1]) && r.len() > 0 {
                r.push(' ');
            }
            r.push(c);
        }
        i += 1;
    }
    assert(s@.take(s.len() as int) == s@);
    r
}

/// `c`, in lower case where it is an ASCII capital.
pub fn to_ascii_lower(c: char) -> (r: char)
    ensures
        r == ascii_lower(c),
{
    if 'A' <= c && c <= 'Z' {
        ((c as u8) + 32) as char
    } else {
        c
    }
}

/// Whether `s` and `pat` are equal but for the case of ASCII letters.
pub fn equals_ignoring_case(s: &[char], pat: &[char]) -> (b: bool)
    ensures
        b == eq_ignore_ascii_case(s@, pat@),
{
    if s.len() != pat.len() {
        return false;
    }
    let mut i: usize = 0;
    while i < s.len()
        invariant
            i <= s.len(),
            s.len() == pat.len(),
            forall|k: int| 0 <= k < i ==> ascii_lower(#[trigger] s[k]) == ascii_lower(pat[k]),
        decreases s.len() - i,
    {
        if to_ascii_lower(s[i]) != to_ascii_lower(pat[i]) {
            return false;
        }
        i += 1;
    }
    true
}

/// The characters of `s`.
pub fn chars_of(s: &str) -> (v: Vec<char>)
    ensures
        v@ == s@,
{
    let mut v: Vec<char> = Vec::new();
    for c in it: s.chars()
        invariant
            v@ == it.seq().take(it.index() as int),
    {
        v.push(c);
    }
    v
}

/// `String::from_iter` on the characters of a slice: the string that holds
/// exactly these characters, in this order.
#[verifier::external_body]
pub(crate) fn string_of(chars: &[char]) -> (s: String)
    ensures
        s@ == chars@,
{
    String::from_iter(chars.iter())
}

/// Whether `s` is tidy: no whitespace at either end, none side by side,
/// and none but the space.
pub open spec fn is_tidy(s: Seq<char>) -> bool {
    &&& !has_adjacent_whitespace(s)
    &&& s.len() > 0 ==> !is_whitespace_spec(s[0]) && !is_whitespace_spec(s.last())
    &&& forall|i: int| 0 <= i < s.len() && is_whitespace_spec(#[trigger] s[i]) ==> s[i] == ' '
}

/// Collapsed text is tidy.
pub proof fn lemma_collapsed_is_tidy(s: Seq<char>)
    ensures
        is_tidy(collapsed(s)),
    decreases s.len(),
{
    if s.len() > 0 {
        let front = collapsed(s.drop_last());
        lemma_collapsed_is_tidy(s.drop_last());
        let c = collapsed(s);
        if !is_whitespace_spec(s.last()) {
            assert forall|i: int| 0 <= i && i + 1 < c.len() implies !(is_whitespace_spec(
                #[trigger] c[i],
            ) && is_whitespace_spec(c[i + 1])) by {
                if i + 1 < front.len() {
                    assert(c[i] == front[i] && c[i + 1] == front[i + 1]);
                    assert(!(is_whitespace_spec(front[i]) && is_whitespace_spec(front[i + 1])));
                } else if i + 1 == front.len() {
                    assert(c[i] == front.last());
                }
            }
            assert forall|i: int| 0 <= i < c.len() && is_whitespace_spec(
                #[trigger] c[i],
            ) implies c[i] == ' ' by {
                if i < front.len() {
                    assert(c[i] == front[i]);
                }
            }
            if front.len() > 0 {
                assert(c[0] == front[0]);
            }
        }
    }
}

/// Tidy text holds one line at most.
pub proof fn lemma_tidy_is_one_line(s: Seq<char>)
    requires
        is_tidy(s),
    ensures
        !is_multiline(s),
{
    assert forall|i: int| 0 <= i && i + 1 < s.len() implies #[trigger] s[i] != '\n' by {
        if s[i] == '\n' {
            assert(is_whitespace_spec(s[i]));
        }
    }
}

/// Trimmed text is a stretch of the text it was trimmed from, and has no
/// whitespace at either end.
pub proof fn lemma_trimmed_is_stretch(s: Seq<char>)
    ensures
        exists|from: int, to: int|
            0 <= from <= to <= s.len() && trimmed(s) == #[trigger] s.subrange(from, to),
        trimmed(s).len() > 0 ==> !is_whitespace_spec(trimmed(s)[0]) && !is_whitespace_spec(
            trimmed(s).last(),
        ),
{
    lemma_skip_whitespace(s);
    let from = choose|from: int| 0 <= from <= s.len() && skip_whitespace(s) == s.skip(from);
    let rest = s.skip(from);
    lemma_drop_trailing_whitespace(rest);
    let to = choose|to: int| 0 <= to <= rest.len() && drop_trailing_whitespace(rest) == rest.take(to);
    assert(rest.take(to) =~= s.subrange(from, from + to));
    if trimmed(s).len() > 0 {
        assert(trimmed(s)[0] == rest[0]);
    }
}

/// Text without its leading whitespace is the text from some place on, and
/// begins with no whitespace.
pub proof fn lemma_skip_whitespace(s: Seq<char>)
    ensures
        exists|from: int| 0 <= from <= s.len() && skip_whitespace(s) == #[trigger] s.skip(from),
        skip_whitespace(s).len() > 0 ==> !is_whitespace_spec(skip_whitespace(s)[0]),
    decreases s.len(),
{
    if s.len() > 0 && is_whitespace_spec(s[0]) {
        let rest = s.drop_first();
        lemma_skip_whitespace(rest);
        let from = choose|from: int| 0 <= from <= rest.len() && skip_whitespace(rest) == rest.skip(from);
        assert(rest.skip(from) =~= s.skip(from + 1));
    } else {
        assert(s.skip(0) =~= s);
    }
}

/// Text without its trailing whitespace is the text up to some place, and
/// ends with no whitespace.
pub proof fn lemma_drop_trailing_whitespace(s: Seq<char>)
    ensures
        exists|to: int| 0 <= to <= s.len() && drop_trailing_whitespace(s) == #[trigger] s.take(to),
        drop_trailing_whitespace(s).len() > 0 ==> !is_whitespace_spec(
            drop_trailing_whitespace(s).last(),
        ),
    decreases s.len(),
{
    if s.len() > 0 && is_whitespace_spec(s.last()) {
        let rest = s.drop_last();
        lemma_drop_trailing_whitespace(rest);
        let to = choose|to: int| 0 <= to <= rest.len() && drop_trailing_whitespace(rest) == rest.take(to);
        assert(rest.take(to) =~= s.take(to));
    } else {
        assert(s.take(s.len() as int) =~= s);
    }
}

/// A stretch of text without whitespace side by side has none side by side,
/// and no whitespace but what the text has.
pub proof fn lemma_stretch_of_tidy(s: Seq<char>, from: int, to: int)
    requires
        0 <= from <= to <= s.len(),
        !has_adjacent_whitespace(s),
        forall|i: int| 0 <= i < s.len() && is_whitespace_spec(#[trigger] s[i]) ==> s[i] == ' ',
    ensures
        !has_adjacent_whitespace(s.subrange(from, to)),
        forall|i: int|
            0 <= i < to - from && is_whitespace_spec(#[trigger] s.subrange(from, to)[i])
                ==> s.subrange(from, to)[i] == ' ',
{
    let t = s.subrange(from, to);
    assert forall|i: int| 0 <= i && i + 1 < t.len() implies !(is_whitespace_spec(#[trigger] t[i])
        && is_whitespace_spec(t[i + 1])) by {
        assert(t[i] == s[from + i] && t[i + 1] == s[from + i + 1]);
        assert(!(is_whitespace_spec(s[from + i]) && is_whitespace_spec(s[from + i + 1])));
    }
    assert forall|i: int| 0 <= i < to - from && is_whitespace_spec(#[trigger] t[i]) implies t[i]
        == ' ' by {
        assert(t[i] == s[from + i]);
    }
}

/// What `first_occurrence` finds is a place where the pattern stands, and
/// the first such place.
pub proof fn lemma_first_occurrence(s: Seq<char>, pat: Seq<char>)
    ensures
        match first_occurrence(s, pat) {
            Some(i) => occurs_at(s, pat, i) && forall|j: int|
                0 <= j < i ==> !#[trigger] occurs_at(s, pat, j),
            None => forall|j: int| !#[trigger] occurs_at(s, pat, j),
        },
{
    lemma_first_occurrence_from(s, pat, 0);
}

proof fn lemma_first_occurrence_from(s: Seq<char>, pat: Seq<char>, from: int)
    requires
        0 <= from,
    ensures
        match first_occurrence_from(s, pat, from) {
            Some(i) => from <= i && occurs_at(s, pat, i) && forall|j: int|
                from <= j < i ==> !#[trigger] occurs_at(s, pat, j),
            None => forall|j: int| from <= j ==> !#[trigger] occurs_at(s, pat, j),
        },
    decreases s.len() - from,
{
    if from + pat.len() <= s.len() && !occurs_at(s, pat, from) && from < s.len() {
        lemma_first_occurrence_from(s, pat, from + 1);
    }
}

} // verus!
