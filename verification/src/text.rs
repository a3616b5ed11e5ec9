//! Character-sequence helpers with the meaning that the standard string
//! methods give them, stated over `Seq<char>`.
use vstd::prelude::*;

verus! {

/// Unicode `White_Space`, the property that `char::is_whitespace` and
/// `str::trim` go by.
pub open spec fn is_white_space(c: char) -> bool {
    let u = c as u32;
    ||| 9 <= u <= 13
    ||| u == 32
    ||| u == 0x85
    ||| u == 0xa0
    ||| u == 0x1680
    ||| 0x2000 <= u <= 0x200a
    ||| u == 0x2028
    ||| u == 0x2029
    ||| u == 0x202f
    ||| u == 0x205f
    ||| u == 0x3000
}

pub fn char_is_white_space(c: char) -> (r: bool)
    ensures
        r == is_white_space(c),
{
    let u = c as u32;
    (9 <= u && u <= 13) || u == 32 || u == 0x85 || u == 0xa0 || u == 0x1680 || (0x2000 <= u
        && u <= 0x200a) || u == 0x2028 || u == 0x2029 || u == 0x202f || u == 0x205f || u == 0x3000
}

/// `s` with its leading white space removed.
pub open spec fn trim_start(s: Seq<char>) -> Seq<char>
    decreases s.len(),
{
    if s.len() > 0 && is_white_space(s[0]) {
        trim_start(s.drop_first())
    } else {
        s
    }
}

/// `s` with its trailing white space removed.
pub open spec fn trim_end(s: Seq<char>) -> Seq<char>
    decreases s.len(),
{
    if s.len() > 0 && is_white_space(s.last()) {
        trim_end(s.drop_last())
    } else {
        s
    }
}

/// What `str::trim` gives back.
pub open spec fn trim(s: Seq<char>) -> Seq<char> {
    trim_end(trim_start(s))
}

pub open spec fn starts_with(s: Seq<char>, p: Seq<char>) -> bool {
    p.len() <= s.len() && s.subrange(0, p.len() as int) == p
}

/// A string that starts with `p` has `p`'s character at each of its indices.
pub proof fn lemma_starts_with_char(s: Seq<char>, p: Seq<char>, n: int)
    requires
        starts_with(s, p),
        0 <= n < p.len(),
    ensures
        s[n] == p[n],
{
    assert(s.subrange(0, p.len() as int)[n] == s[n]);
}

pub open spec fn ends_with(s: Seq<char>, p: Seq<char>) -> bool {
    p.len() <= s.len() && s.subrange(s.len() - p.len(), s.len() as int) == p
}

/// `needle` occurs in `hay` starting at `i`.
pub open spec fn occurs_at(hay: Seq<char>, needle: Seq<char>, i: int) -> bool {
    0 <= i && i + needle.len() <= hay.len() && hay.subrange(i, i + needle.len()) == needle
}

/// What `str::contains` with a string pattern gives back.
pub open spec fn contains(hay: Seq<char>, needle: Seq<char>) -> bool {
    exists|i: int| occurs_at(hay, needle, i)
}

/// What `s.splitn(2, c).nth(1).unwrap_or("")` gives back: the text after the
/// first `c`, or nothing when `c` does not occur.
pub open spec fn after_first(s: Seq<char>, c: char) -> Seq<char>
    decreases s.len(),
{
    if s.len() == 0 {
        Seq::empty()
    } else if s[0] == c {
        s.drop_first()
    } else {
        after_first(s.drop_first(), c)
    }
}

/// What `s.split(c).next().unwrap_or("")` gives back: the text before the
/// first `c`, or all of `s` when `c` does not occur.
pub open spec fn before_first(s: Seq<char>, c: char) -> Seq<char>
    decreases s.len(),
{
    if s.len() == 0 {
        Seq::empty()
    } else if s[0] == c {
        Seq::empty()
    } else {
        seq![s[0]] + before_first(s.drop_first(), c)
    }
}

/// The pieces of `s` between the occurrences of `c`, as `str::split(c)`
/// yields them; there is always at least one piece.
pub open spec fn split_on(s: Seq<char>, c: char) -> Seq<Seq<char>>
    decreases s.len(),
{
    if s.len() == 0 {
        seq![Seq::empty()]
    } else {
        let p = split_on(s.drop_last(), c);
        if s.last() == c {
            p.push(Seq::empty())
        } else {
            p.update(p.len() - 1, p.last().push(s.last()))
        }
    }
}

/// `s` without one trailing carriage return.
pub open spec fn strip_cr(s: Seq<char>) -> Seq<char> {
    if s.len() > 0 && s.last() == '\r' {
        s.drop_last()
    } else {
        s
    }
}

/// What `str::lines` yields: the pieces between line feeds, a carriage return
/// before a line feed dropped, and no final empty piece.
pub open spec fn lines(s: Seq<char>) -> Seq<Seq<char>> {
    let parts = split_on(s, '\n');
    let body = parts.drop_last().map_values(|p: Seq<char>| strip_cr(p));
    if parts.last().len() == 0 {
        body
    } else {
        body.push(parts.last())
    }
}


/// The views of a sequence of character vectors.
pub open spec fn views(v: Seq<Vec<char>>) -> Seq<Seq<char>> {
    v.map_values(|x: Vec<char>| x@)
}

pub fn chars_of(s: &str) -> (r: Vec<char>)
    ensures
        r@ == s@,
{
    broadcast use vstd::string::group_string_axioms;

    let mut v: Vec<char> = Vec::new();
    for c in it: s.chars()
        invariant
            v@ == it.seq().take(it.index() as int),
    {
        v.push(c);
    }
    v
}


/// Collects characters into a `String` (`FromIterator<char>` for `String`),
/// which keeps them as they are and in their order.
#[verifier::external_body]
pub(crate) fn string_of(v: &Vec<char>) -> (r: String)
    ensures
        r@ == v@,
{
    v.iter().collect()
}

/// The characters `s[lo..hi]`.
pub fn sub_vec(s: &Vec<char>, lo: usize, hi: usize) -> (r: Vec<char>)
    requires
        lo <= hi <= s.len(),
    ensures
        r@ == s@.subrange(lo as int, hi as int),
{
    let mut r: Vec<char> = Vec::new();
    let mut i: usize = lo;
    while i < hi
        invariant
            lo <= i <= hi <= s.len(),
            r@ == s@.subrange(lo as int, i as int),
        decreases hi - i,
    {
        r.push(s[i]);
        i += 1;
    }
    r
}

/// `a` followed by `b`.
pub fn concat_vec(a: &Vec<char>, b: &Vec<char>) -> (r: Vec<char>)
    ensures
        r@ == a@ + b@,
{
    let mut r = a.clone();
    let mut i: usize = 0;
    while i < b.len()
        invariant
            i <= b.len(),
            r@ == a@ + b@.subrange(0, i as int),
        decreases b.len() - i,
    {
        r.push(b[i]);
        i += 1;
        assert(b@.subrange(0, i as int) == b@.subrange(0, i - 1).push(b@[i - 1]));
    }
    assert(b@.subrange(0, b.len() as int) == b@);
    r
}

/// Appends `b` to `a`.
pub fn append_vec(a: &mut Vec<char>, b: &Vec<char>)
    ensures
        final(a)@ == old(a)@ + b@,
{
    let mut i: usize = 0;
    while i < b.len()
        invariant
            i <= b.len(),
            a@ == old(a)@ + b@.subrange(0, i as int),
        decreases b.len() - i,
    {
        a.push(b[i]);
        i += 1;
        assert(b@.subrange(0, i as int) == b@.subrange(0, i - 1).push(b@[i - 1]));
    }
    assert(b@.subrange(0, b.len() as int) == b@);
}

/// Appends the characters of `b` to `a`.
pub fn append_str(a: &mut Vec<char>, b: &str)
    ensures
        final(a)@ == old(a)@ + b@,
{
    let bv = chars_of(b);
    append_vec(a, &bv);
}

proof fn lemma_trim_start_step(s: Seq<char>, i: int)
    requires
        0 <= i < s.len(),
        is_white_space(s[i]),
    ensures
        trim_start(s.subrange(i, s.len() as int)) == trim_start(s.subrange(i + 1, s.len() as int)),
{
    let t = s.subrange(i, s.len() as int);
    assert(t.drop_first() == s.subrange(i + 1, s.len() as int));
}

proof fn lemma_trim_end_step(s: Seq<char>, j: int)
    requires
        0 < j <= s.len(),
        is_white_space(s[j - 1]),
    ensures
        trim_end(s.subrange(0, j)) == trim_end(s.subrange(0, j - 1)),
{
    let t = s.subrange(0, j);
    assert(t.drop_last() == s.subrange(0, j - 1));
}

/// What `str::trim` gives back.
pub fn trim_vec(s: &Vec<char>) -> (r: Vec<char>)
    ensures
        r@ == trim(s@),
{
    let n: usize = s.len();
    let mut lo: usize = 0;
    assert(s@.subrange(0, n as int) == s@);
    while lo < n && char_is_white_space(s[lo])
        invariant
            lo <= n == s.len(),
            trim_start(s@) == trim_start(s@.subrange(lo as int, n as int)),
        decreases n - lo,
    {
        proof {
            lemma_trim_start_step(s@, lo as int);
        }
        lo += 1;
    }
    let ghost t = s@.subrange(lo as int, n as int);
    assert(trim_start(s@) == t);
    let mut hi: usize = n;
    assert(t.subrange(0, (hi - lo) as int) == t);
    while hi > lo && char_is_white_space(s[hi - 1])
        invariant
            lo <= hi <= n == s.len(),
            t == s@.subrange(lo as int, n as int),
            trim_end(t) == trim_end(t.subrange(0, (hi - lo) as int)),
        decreases hi - lo,
    {
        proof {
            lemma_trim_end_step(t, (hi - lo) as int);
        }
        hi -= 1;
    }
    let r = sub_vec(s, lo, hi);
    assert(r@ == t.subrange(0, (hi - lo) as int));
    r
}

/// Whether `s` starts with `p`.
pub fn starts_with_vec(s: &Vec<char>, p: &Vec<char>) -> (r: bool)
    ensures
        r == starts_with(s@, p@),
{
    if p.len() > s.len() {
        return false;
    }
    let mut i: usize = 0;
    while i < p.len()
        invariant
            p.len() <= s.len(),
            i <= p.len(),
            s@.subrange(0, i as int) == p@.subrange(0, i as int),
        decreases p.len() - i,
    {
        if s[i] != p[i] {
            assert(s@.subrange(0, p.len() as int)[i as int] != p@[i as int]);
            return false;
        }
        i += 1;
        assert(s@.subrange(0, i as int) == s@.subrange(0, i - 1).push(s@[i - 1]));
        assert(p@.subrange(0, i as int) == p@.subrange(0, i - 1).push(p@[i - 1]));
    }
    assert(p@.subrange(0, p.len() as int) == p@);
    true
}

/// Whether `s` starts with the characters of `p`.
pub fn starts_with_str(s: &Vec<char>, p: &str) -> (r: bool)
    ensures
        r == starts_with(s@, p@),
{
    let pv = chars_of(p);
    starts_with_vec(s, &pv)
}

/// Whether `needle` occurs in `hay` at `i`.
fn occurs_at_vec(hay: &Vec<char>, needle: &Vec<char>, i: usize) -> (r: bool)
    ensures
        r == occurs_at(hay@, needle@, i as int),
{
    if i > hay.len() || needle.len() > hay.len() - i {
        return false;
    }
    let mut k: usize = 0;
    while k < needle.len()
        invariant
            i + needle.len() <= hay.len(),
            k <= needle.len(),
            hay@.subrange(i as int, i + k) == needle@.subrange(0, k as int),
        decreases needle.len() - k,
    {
        if hay[i + k] != needle[k] {
            assert(hay@.subrange(i as int, i + needle.len())[k as int] != needle@[k as int]);
            return false;
        }
        k += 1;
        assert(hay@.subrange(i as int, i + k) == hay@.subrange(i as int, i + k - 1).push(
            hay@[i + k - 1],
        ));
        assert(needle@.subrange(0, k as int) == needle@.subrange(0, k - 1).push(needle@[k - 1]));
    }
    assert(needle@.subrange(0, needle.len() as int) == needle@);
    true
}

/// Whether `s` ends with `p`.
pub fn ends_with_vec(s: &Vec<char>, p: &Vec<char>) -> (r: bool)
    ensures
        r == ends_with(s@, p@),
{
    if p.len() > s.len() {
        return false;
    }
    occurs_at_vec(s, p, s.len() - p.len())
}

/// Whether `needle` occurs in `hay`.
pub fn contains_vec(hay: &Vec<char>, needle: &Vec<char>) -> (r: bool)
    ensures
        r == contains(hay@, needle@),
{
    if needle.len() > hay.len() {
        assert forall|i: int| !occurs_at(hay@, needle@, i) by {}
        return false;
    }
    let last: usize = hay.len() - needle.len();
    let mut i: usize = 0;
    loop
        invariant
            last + needle.len() == hay.len(),
            i <= last,
            forall|j: int| 0 <= j < i ==> !occurs_at(hay@, needle@, j),
        ensures
            forall|j: int| 0 <= j <= last ==> !occurs_at(hay@, needle@, j),
        decreases last - i,
    {
        if occurs_at_vec(hay, needle, i) {
            return true;
        }
        if i == last {
            break;
        }
        i += 1;
    }
    assert forall|j: int| !occurs_at(hay@, needle@, j) by {
        if j > last {
        }
    }
    false
}

/// Whether the characters of `needle` occur in `hay`.
pub fn contains_str(hay: &Vec<char>, needle: &str) -> (r: bool)
    ensures
        r == contains(hay@, needle@),
{
    let nv = chars_of(needle);
    contains_vec(hay, &nv)
}

/// Whether `needle` occurs in `hay`, both taken as text.
pub fn str_contains(hay: &str, needle: &str) -> (r: bool)
    ensures
        r == contains(hay@, needle@),
{
    let hv = chars_of(hay);
    contains_str(&hv, needle)
}

/// The text after the first `c` in `s`, or nothing.
pub fn after_first_vec(s: &Vec<char>, c: char) -> (r: Vec<char>)
    ensures
        r@ == after_first(s@, c),
{
    let n: usize = s.len();
    let mut i: usize = 0;
    assert(s@.subrange(0, n as int) == s@);
    while i < n
        invariant
            i <= n == s.len(),
            after_first(s@, c) == after_first(s@.subrange(i as int, n as int), c),
        decreases n - i,
    {
        if s[i] == c {
            let r = sub_vec(s, i + 1, n);
            assert(s@.subrange(i as int, n as int).drop_first() == r@);
            return r;
        }
        assert(s@.subrange(i as int, n as int).drop_first() == s@.subrange(i + 1, n as int));
        i += 1;
    }
    Vec::new()
}


proof fn lemma_split_on_nonempty(s: Seq<char>, c: char)
    ensures
        split_on(s, c).len() >= 1,
    decreases s.len(),
{
    if s.len() > 0 {
        lemma_split_on_nonempty(s.drop_last(), c);
    }
}

/// The pieces of `s` between the occurrences of `c`.
pub fn split_on_vec(s: &Vec<char>, c: char) -> (r: Vec<Vec<char>>)
    ensures
        views(r@) == split_on(s@, c),
        r@.len() >= 1,
{
    let mut parts: Vec<Vec<char>> = Vec::new();
    let mut cur: Vec<char> = Vec::new();
    let mut i: usize = 0;
    assert(s@.subrange(0, 0) == Seq::<char>::empty());
    assert(views(parts@).push(cur@) == seq![Seq::<char>::empty()]);
    while i < s.len()
        invariant
            i <= s.len(),
            views(parts@).push(cur@) == split_on(s@.subrange(0, i as int), c),
        decreases s.len() - i,
    {
        let ch = s[i];
        let ghost t = s@.subrange(0, i + 1);
        assert(t.drop_last() == s@.subrange(0, i as int));
        assert(t.last() == ch);
        let ghost old_parts = views(parts@);
        let ghost old_cur = cur@;
        if ch == c {
            parts.push(cur);
            cur = Vec::new();
            assert(views(parts@) == old_parts.push(old_cur));
        } else {
            cur.push(ch);
            assert(views(parts@) == old_parts);
            assert(old_parts.push(old_cur).update(old_parts.len() as int, old_cur.push(ch))
                == old_parts.push(old_cur.push(ch)));
        }
        i += 1;
    }
    let ghost before = views(parts@);
    let ghost last = cur@;
    parts.push(cur);
    assert(views(parts@) == before.push(last));
    assert(s@.subrange(0, s.len() as int) == s@);
    parts
}

/// `s` without one trailing carriage return.
pub fn strip_cr_vec(s: &Vec<char>) -> (r: Vec<char>)
    ensures
        r@ == strip_cr(s@),
{
    if s.len() > 0 && s[s.len() - 1] == '\r' {
        sub_vec(s, 0, s.len() - 1)
    } else {
        sub_vec(s, 0, s.len())
    }
}

/// The lines of `s`, as `str::lines` yields them.
pub fn lines_vec(s: &Vec<char>) -> (r: Vec<Vec<char>>)
    ensures
        views(r@) == lines(s@),
{
    let parts = split_on_vec(s, '\n');
    let ghost ps = views(parts@);
    let n: usize = parts.len();
    let mut out: Vec<Vec<char>> = Vec::new();
    let mut i: usize = 0;
    while i < n - 1
        invariant
            n == parts.len() >= 1,
            ps == views(parts@),
            i <= n - 1,
            views(out@) == ps.drop_last().take(i as int).map_values(|p: Seq<char>| strip_cr(p)),
        decreases n - 1 - i,
    {
        let piece = strip_cr_vec(&parts[i]);
        let ghost prev = views(out@);
        out.push(piece);
        assert(views(out@) == prev.push(piece@));
        assert(ps.drop_last().take(i + 1) == ps.drop_last().take(i as int).push(ps[i as int]));
        i += 1;
    }
    assert(ps.drop_last().take((n - 1) as int) == ps.drop_last());
    if parts[n - 1].len() != 0 {
        let last = sub_vec(&parts[n - 1], 0, parts[n - 1].len());
        let ghost prev = views(out@);
        assert(last@ == ps.last());
        out.push(last);
        assert(views(out@) == prev.push(last@));
    }
    out
}

/// The text before the first `c` in `s`, or all of `s`.
pub fn before_first_vec(s: &Vec<char>, c: char) -> (r: Vec<char>)
    ensures
        r@ == before_first(s@, c),
{
    let n: usize = s.len();
    let mut i: usize = 0;
    assert(s@.subrange(0, n as int) == s@);
    while i < n && s[i] != c
        invariant
            i <= n == s.len(),
            before_first(s@, c) == s@.subrange(0, i as int) + before_first(
                s@.subrange(i as int, n as int),
                c,
            ),
        decreases n - i,
    {
        let ghost t = s@.subrange(i as int, n as int);
        assert(t.drop_first() == s@.subrange(i + 1, n as int));
        assert(s@.subrange(0, i + 1) == s@.subrange(0, i as int) + seq![s@[i as int]]);
        i += 1;
    }
    sub_vec(s, 0, i)
}


/// What `str::to_lowercase` gives back (Unicode lowercase mapping).
pub uninterp spec fn lowercase(s: Seq<char>) -> Seq<char>;

/// `str::to_lowercase`; its result is named `lowercase` of the argument's
/// characters. What the Unicode tables map each character to is not stated.
#[verifier::external_body]
pub(crate) fn to_lowercase(s: &str) -> (r: String)
    ensures
        r@ == lowercase(s@),
{
    s.to_lowercase()
}

/// What `char::is_uppercase` answers (Unicode `Uppercase` property).
pub uninterp spec fn is_uppercase(c: char) -> bool;

/// `char::is_uppercase`; its answer is named `is_uppercase` of the argument.
/// Which characters have the Unicode `Uppercase` property is not stated.
#[verifier::external_body]
pub(crate) fn char_is_uppercase(c: char) -> (r: bool)
    ensures
        r == is_uppercase(c),
{
    c.is_uppercase()
}

/// Whether text, lowercased as `str::to_lowercase` does, contains `needle`.
pub fn lowercase_contains(hay: &str, needle: &str) -> (r: bool)
    ensures
        r == contains(lowercase(hay@), needle@),
{
    let low = to_lowercase(hay);
    str_contains(low.as_str(), needle)
}

/// `c` mapped by `char::to_ascii_lowercase`.
pub open spec fn ascii_lower(c: char) -> char {
    if 'A' <= c && c <= 'Z' {
        ((c as u8) + 32) as char
    } else {
        c
    }
}

/// What `str::eq_ignore_ascii_case` answers.
pub open spec fn eq_ignore_ascii_case(a: Seq<char>, b: Seq<char>) -> bool {
    a.len() == b.len() && forall|i: int| 0 <= i < a.len() ==> ascii_lower(a[i]) == ascii_lower(b[i])
}

fn char_ascii_lower(c: char) -> (r: char)
    ensures
        r == ascii_lower(c),
{
    if 'A' <= c && c <= 'Z' {
        let b = c as u8;
        (b + 32) as char
    } else {
        c
    }
}

pub fn eq_ignore_ascii_case_str(a: &Vec<char>, b: &str) -> (r: bool)
    ensures
        r == eq_ignore_ascii_case(a@, b@),
{
    let bv = chars_of(b);
    if a.len() != bv.len() {
        return false;
    }
    let mut i: usize = 0;
    while i < a.len()
        invariant
            a.len() == bv.len(),
            bv@ == b@,
            i <= a.len(),
            forall|j: int| 0 <= j < i ==> ascii_lower(a@[j]) == ascii_lower(bv@[j]),
        decreases a.len() - i,
    {
        if char_ascii_lower(a[i]) != char_ascii_lower(bv[i]) {
            return false;
        }
        i += 1;
    }
    true
}

/// The number of bytes that UTF-8 takes for `c`.
pub open spec fn char_utf8_len(c: char) -> nat {
    let u = c as u32;
    if u < 0x80 {
        1
    } else if u < 0x800 {
        2
    } else if u < 0x10000 {
        3
    } else {
        4
    }
}

/// The number of bytes that UTF-8 takes for `s`: what `str::len` answers.
pub open spec fn utf8_len(s: Seq<char>) -> nat
    decreases s.len(),
{
    if s.len() == 0 {
        0
    } else {
        utf8_len(s.drop_last()) + char_utf8_len(s.last())
    }
}

proof fn lemma_utf8_len_prefix(s: Seq<char>, i: int)
    requires
        0 <= i <= s.len(),
    ensures
        utf8_len(s.subrange(0, i)) <= utf8_len(s),
    decreases s.len() - i,
{
    if i < s.len() {
        lemma_utf8_len_prefix(s, i + 1);
        assert(s.subrange(0, i + 1).drop_last() == s.subrange(0, i));
    } else {
        assert(s.subrange(0, i) == s);
    }
}

/// Whether `s` takes fewer than `limit` bytes in UTF-8.
pub fn utf8_len_below(s: &Vec<char>, limit: usize) -> (r: bool)
    ensures
        r == (utf8_len(s@) < limit),
{
    if limit == 0 {
        return false;
    }
    let mut total: usize = 0;
    let mut i: usize = 0;
    assert(s@.subrange(0, 0) == Seq::<char>::empty());
    while i < s.len()
        invariant
            i <= s.len(),
            total == utf8_len(s@.subrange(0, i as int)),
            total < limit,
        decreases s.len() - i,
    {
        let u = s[i] as u32;
        let w: usize = if u < 0x80 {
            1
        } else if u < 0x800 {
            2
        } else if u < 0x10000 {
            3
        } else {
            4
        };
        assert(s@.subrange(0, i + 1).drop_last() == s@.subrange(0, i as int));
        if w >= limit - total {
            proof {
                lemma_utf8_len_prefix(s@, i + 1);
            }
            return false;
        }
        total = total + w;
        i += 1;
    }
    assert(s@.subrange(0, s.len() as int) == s@);
    true
}


/// The decimal digit character for `d`.
pub open spec fn digit_char(d: nat) -> char {
    ((d + 48) as u8) as char
}

/// The decimal rendering of `n`, as `{}` prints an unsigned integer.
pub open spec fn decimal(n: nat) -> Seq<char>
    decreases n,
{
    if n < 10 {
        seq![digit_char(n)]
    } else {
        decimal(n / 10).push(digit_char(n % 10))
    }
}

/// The decimal rendering of `n`, as `{}` prints a signed integer.
pub open spec fn signed_decimal(n: int) -> Seq<char> {
    if n < 0 {
        seq!['-'] + decimal((-n) as nat)
    } else {
        decimal(n as nat)
    }
}

/// Renders `n` in decimal.
pub fn decimal_vec(n: u128) -> (r: Vec<char>)
    ensures
        r@ == decimal(n as nat),
    decreases n,
{
    if n < 10 {
        let mut v: Vec<char> = Vec::new();
        v.push(((n as u8) + 48) as char);
        v
    } else {
        let mut v = decimal_vec(n / 10);
        v.push((((n % 10) as u8) + 48) as char);
        v
    }
}

/// Renders `n` in decimal, with a leading minus sign when it is negative.
pub fn signed_decimal_vec(n: i64) -> (r: Vec<char>)
    ensures
        r@ == signed_decimal(n as int),
{
    if n < 0 {
        let m: u64 = if n == i64::MIN {
            9223372036854775808u64
        } else {
            (-n) as u64
        };
        let d = decimal_vec(m as u128);
        let mut v: Vec<char> = Vec::new();
        v.push('-');
        append_vec(&mut v, &d);
        v
    } else {
        decimal_vec(n as u128)
    }
}

/// Whether every character of `s` is an ASCII digit.
pub open spec fn all_digits(s: Seq<char>) -> bool {
    forall|i: int| 0 <= i < s.len() ==> '0' <= #[trigger] s[i] && s[i] <= '9'
}

/// The number that the ASCII digits `s` spell.
pub open spec fn digits_value(s: Seq<char>) -> nat
    decreases s.len(),
{
    if s.len() == 0 {
        0
    } else {
        digits_value(s.drop_last()) * 10 + ((s.last() as u32) - 48) as nat
    }
}

/// What `str::parse::<u64>` gives back: an optional `+`, then one or more
/// ASCII digits whose value fits in 64 bits.
pub open spec fn parse_u64(s: Seq<char>) -> Option<u64> {
    let d = if s.len() > 0 && s[0] == '+' {
        s.drop_first()
    } else {
        s
    };
    if d.len() > 0 && all_digits(d) && digits_value(d) <= u64::MAX {
        Some(digits_value(d) as u64)
    } else {
        None
    }
}

proof fn lemma_digits_value_prefix(s: Seq<char>, i: int)
    requires
        0 <= i <= s.len(),
        all_digits(s),
    ensures
        digits_value(s.subrange(0, i)) <= digits_value(s),
    decreases s.len() - i,
{
    if i < s.len() {
        lemma_digits_value_prefix(s, i + 1);
        assert(s.subrange(0, i + 1).drop_last() == s.subrange(0, i));
        assert('0' <= s[i]);
    } else {
        assert(s.subrange(0, i) == s);
    }
}

/// Parses text as `str::parse::<u64>` does.
pub fn parse_u64_vec(s: &Vec<char>) -> (r: Option<u64>)
    ensures
        r == parse_u64(s@),
{
    let start: usize = if s.len() > 0 && s[0] == '+' {
        1
    } else {
        0
    };
    let ghost d = if s@.len() > 0 && s@[0] == '+' {
        s@.drop_first()
    } else {
        s@
    };
    assert(d == s@.subrange(start as int, s.len() as int));
    if start == s.len() {
        return None;
    }
    let mut val: u64 = 0;
    let mut i: usize = start;
    assert(d.subrange(0, 0) == Seq::<char>::empty());
    while i < s.len()
        invariant
            start <= i <= s.len(),
            start < s.len(),
            d == s@.subrange(start as int, s.len() as int),
            d == (if s@.len() > 0 && s@[0] == '+' {
                s@.drop_first()
            } else {
                s@
            }),
            all_digits(d.subrange(0, i - start)),
            val == digits_value(d.subrange(0, i - start)),
        decreases s.len() - i,
    {
        let c = s[i];
        if c < '0' || c > '9' {
            assert(d[i - start] == c);
            assert(!all_digits(d));
            return None;
        }
        let k = i - start;
        assert(d.subrange(0, k + 1).drop_last() == d.subrange(0, k as int));
        assert(d.subrange(0, k + 1).last() == c);
        let dig = (c as u32 - 48) as u64;
        assert(digits_value(d.subrange(0, k + 1)) == val * 10 + dig);
        match val.checked_mul(10) {
            Some(m) => match m.checked_add(dig) {
                Some(v2) => {
                    val = v2;
                },
                None => {
                    proof {
                        if all_digits(d) {
                            lemma_digits_value_prefix(d, k + 1);
                        }
                    }
                    return None;
                },
            },
            None => {
                proof {
                    if all_digits(d) {
                        lemma_digits_value_prefix(d, k + 1);
                    }
                }
                return None;
            },
        }
        i += 1;
    }
    assert(d.subrange(0, (s.len() - start) as int) == d);
    Some(val)
}

/// The pieces of `parts` with `sep` between them, as `join` builds them.
pub open spec fn join(parts: Seq<Seq<char>>, sep: Seq<char>) -> Seq<char>
    decreases parts.len(),
{
    if parts.len() == 0 {
        Seq::empty()
    } else if parts.len() == 1 {
        parts[0]
    } else {
        join(parts.drop_last(), sep) + sep + parts.last()
    }
}

/// Joins `parts` with `sep` between them.
pub fn join_vec(parts: &Vec<Vec<char>>, sep: &str) -> (r: Vec<char>)
    ensures
        r@ == join(views(parts@), sep@),
{
    let mut out: Vec<char> = Vec::new();
    let mut i: usize = 0;
    let ghost ps = views(parts@);
    while i < parts.len()
        invariant
            i <= parts.len(),
            ps == views(parts@),
            out@ == join(ps.take(i as int), sep@),
        decreases parts.len() - i,
    {
        assert(ps.take(i + 1).drop_last() == ps.take(i as int));
        if i > 0 {
            append_str(&mut out, sep);
        }
        append_vec(&mut out, &parts[i]);
        i += 1;
    }
    assert(ps.take(parts.len() as int) == ps);
    out
}

/// `s` with each occurrence of `from`, taken left to right without overlap,
/// changed into `to`: what `str::replace` gives back for a non-empty pattern.
pub open spec fn replace_all(s: Seq<char>, from: Seq<char>, to: Seq<char>) -> Seq<char>
    decreases s.len(),
{
    if from.len() == 0 || s.len() == 0 {
        s
    } else if starts_with(s, from) {
        to + replace_all(s.subrange(from.len() as int, s.len() as int), from, to)
    } else {
        seq![s[0]] + replace_all(s.drop_first(), from, to)
    }
}

/// Replaces each occurrence of `from` in `s` by `to`.
pub fn replace_all_vec(s: &Vec<char>, from: &str, to: &str) -> (r: Vec<char>)
    requires
        from@.len() > 0,
    ensures
        r@ == replace_all(s@, from@, to@),
{
    let fv = chars_of(from);
    let tv = chars_of(to);
    let n = s.len();
    let mut out: Vec<char> = Vec::new();
    let mut i: usize = 0;
    assert(s@.subrange(0, n as int) == s@);
    while i < n
        invariant
            i <= n == s.len(),
            fv@ == from@,
            tv@ == to@,
            fv@.len() > 0,
            replace_all(s@, from@, to@) == out@ + replace_all(
                s@.subrange(i as int, n as int),
                from@,
                to@,
            ),
        decreases n - i,
    {
        let ghost rest = s@.subrange(i as int, n as int);
        if occurs_at_vec(s, &fv, i) {
            assert(rest.subrange(0, fv@.len() as int) == s@.subrange(i as int, i + fv@.len()));
            assert(rest.subrange(fv@.len() as int, rest.len() as int) == s@.subrange(
                i + fv@.len(),
                n as int,
            ));
            append_vec(&mut out, &tv);
            i = i + fv.len();
        } else {
            assert(!starts_with(rest, from@)) by {
                if starts_with(rest, from@) {
                    assert(rest.subrange(0, fv@.len() as int) == s@.subrange(
                        i as int,
                        i + fv@.len(),
                    ));
                }
            }
            assert(rest.drop_first() == s@.subrange(i + 1, n as int));
            out.push(s[i]);
            i += 1;
        }
    }
    assert(s@.subrange(n as int, n as int) == Seq::<char>::empty());
    out
}


/// The views of a sequence of strings.
pub open spec fn string_views(v: Seq<String>) -> Seq<Seq<char>> {
    v.map_values(|x: String| x@)
}

/// An owned copy of `s`.
pub fn str_owned(s: &str) -> (r: String)
    ensures
        r@ == s@,
{
    let v = chars_of(s);
    string_of(&v)
}

/// A copy of each string of `v`.
pub fn clone_strings(v: &Vec<String>) -> (r: Vec<String>)
    ensures
        string_views(r@) == string_views(v@),
{
    let mut out: Vec<String> = Vec::new();
    let mut i: usize = 0;
    while i < v.len()
        invariant
            i <= v.len(),
            string_views(out@) == string_views(v@).take(i as int),
        decreases v.len() - i,
    {
        let c = str_owned(v[i].as_str());
        let ghost prev = string_views(out@);
        out.push(c);
        assert(string_views(out@) == prev.push(c@));
        assert(string_views(v@).take(i + 1) == string_views(v@).take(i as int).push(v@[i as int]@));
        i += 1;
    }
    assert(string_views(v@).take(v.len() as int) == string_views(v@));
    out
}

/// The characters of each string of `v`.
pub fn chars_of_strings(v: &Vec<String>) -> (r: Vec<Vec<char>>)
    ensures
        views(r@) == string_views(v@),
{
    let mut out: Vec<Vec<char>> = Vec::new();
    let mut i: usize = 0;
    while i < v.len()
        invariant
            i <= v.len(),
            views(out@) == string_views(v@).take(i as int),
        decreases v.len() - i,
    {
        let c = chars_of(v[i].as_str());
        let ghost prev = views(out@);
        out.push(c);
        assert(views(out@) == prev.push(c@));
        assert(string_views(v@).take(i + 1) == string_views(v@).take(i as int).push(v@[i as int]@));
        i += 1;
    }
    assert(string_views(v@).take(v.len() as int) == string_views(v@));
    out
}

/// `a` followed by `b`, as a string.
pub fn cat2(a: &str, b: &str) -> (r: String)
    ensures
        r@ == a@ + b@,
{
    let mut v = chars_of(a);
    append_str(&mut v, b);
    string_of(&v)
}

/// `a`, `b` and `c` one after the other, as a string.
pub fn cat3(a: &str, b: &str, c: &str) -> (r: String)
    ensures
        r@ == a@ + b@ + c@,
{
    let mut v = chars_of(a);
    append_str(&mut v, b);
    append_str(&mut v, c);
    string_of(&v)
}

/// Four pieces one after the other, as a string.
pub fn cat4(a: &str, b: &str, c: &str, d: &str) -> (r: String)
    ensures
        r@ == a@ + b@ + c@ + d@,
{
    let mut v = chars_of(a);
    append_str(&mut v, b);
    append_str(&mut v, c);
    append_str(&mut v, d);
    string_of(&v)
}

/// Five pieces one after the other, as a string.
pub fn cat5(a: &str, b: &str, c: &str, d: &str, e: &str) -> (r: String)
    ensures
        r@ == a@ + b@ + c@ + d@ + e@,
{
    let mut v = chars_of(a);
    append_str(&mut v, b);
    append_str(&mut v, c);
    append_str(&mut v, d);
    append_str(&mut v, e);
    string_of(&v)
}

/// Joins strings with `sep` between them.
pub fn join_strings(parts: &Vec<String>, sep: &str) -> (r: String)
    ensures
        r@ == join(string_views(parts@), sep@),
{
    let cs = chars_of_strings(parts);
    let j = join_vec(&cs, sep);
    string_of(&j)
}

/// The decimal text of `n`.
pub fn usize_text(n: usize) -> (r: String)
    ensures
        r@ == decimal(n as nat),
{
    let v = decimal_vec(n as u128);
    string_of(&v)
}

/// What `{}` prints for an exit code.
pub fn i32_text(n: i32) -> (r: String)
    ensures
        r@ == signed_decimal(n as int),
{
    let v = signed_decimal_vec(n as i64);
    string_of(&v)
}

/// What `{:?}` prints for an optional exit code: `Some(n)` or `None`.
pub open spec fn debug_code(c: Option<i32>) -> Seq<char> {
    match c {
        Some(n) => seq!['S', 'o', 'm', 'e', '('] + signed_decimal(n as int) + seq![')'],
        None => seq!['N', 'o', 'n', 'e'],
    }
}

pub fn debug_code_text(c: Option<i32>) -> (r: String)
    ensures
        r@ == debug_code(c),
{
    let mut v: Vec<char> = Vec::new();
    match c {
        Some(n) => {
            v.push('S');
            v.push('o');
            v.push('m');
            v.push('e');
            v.push('(');
            let d = signed_decimal_vec(n as i64);
            append_vec(&mut v, &d);
            v.push(')');
            assert(v@ =~= seq!['S', 'o', 'm', 'e', '('] + signed_decimal(n as int) + seq![')']);
        },
        None => {
            v.push('N');
            v.push('o');
            v.push('n');
            v.push('e');
            assert(v@ =~= seq!['N', 'o', 'n', 'e']);
        },
    }
    string_of(&v)
}


/// Appends `b` to the string `a`.
pub fn string_append(a: &mut String, b: &str)
    ensures
        final(a)@ == old(a)@ + b@,
{
    let mut v = chars_of(a.as_str());
    append_str(&mut v, b);
    *a = string_of(&v);
}

/// `b` after `a`, with a line feed between them when `a` is not empty.
pub open spec fn after_newline(a: Seq<char>, b: Seq<char>) -> Seq<char> {
    if a.len() == 0 {
        b
    } else {
        a + seq!['\n'] + b
    }
}

/// Appends `b` to `a` on a new line when `a` is not empty.
pub fn append_on_new_line(a: &mut String, b: &str)
    ensures
        final(a)@ == after_newline(old(a)@, b@),
{
    let mut v = chars_of(a.as_str());
    if v.len() > 0 {
        v.push('\n');
    }
    append_str(&mut v, b);
    *a = string_of(&v);
}

/// What `String::trim` leaves of a string.
pub fn trim_text(s: &str) -> (r: String)
    ensures
        r@ == trim(s@),
{
    let v = chars_of(s);
    let t = trim_vec(&v);
    string_of(&t)
}

/// Whether two texts are the same.
pub fn same_text(a: &Vec<char>, b: &Vec<char>) -> (r: bool)
    ensures
        r == (a@ == b@),
{
    if a.len() != b.len() {
        return false;
    }
    let r = starts_with_vec(a, b);
    assert(a@.subrange(0, b@.len() as int) == a@);
    r
}

} // verus!
