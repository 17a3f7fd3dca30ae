//! Strings as sequences of characters.
//!
//! Every parser in this crate is stated over `Seq<char>`. This module holds
//! the conversions between `&str`, `String` and `Vec<char>`, and the small
//! vocabulary they share: white space, trimming, searching, splitting and
//! joining.

use vstd::prelude::*;
use vstd::std_specs::iter::IteratorSpec;
use vstd::string::*;

verus! {

/// `String::push` appends one character at the end.
pub assume_specification[ String::push ](s: &mut String, ch: char)
    ensures
        final(s)@ == old(s)@.push(ch),
;

/// The characters of `s`, in order.
pub fn chars_of(s: &str) -> (v: Vec<char>)
    ensures
        v@ == s@,
{
    let mut v: Vec<char> = Vec::new();
    let mut it = s.chars();
    loop
        invariant
            it.obeys_prophetic_iter_laws(),
            it.decrease() is Some,
            v@ + it.remaining() == s@,
        ensures
            v@ == s@,
        decreases it.decrease()->0,
    {
        match it.next() {
            Some(c) => {
                v.push(c);
            },
            None => {
                break ;
            },
        }
    }
    v
}

/// A `String` with the characters of `v`, in order.
pub fn string_of(v: &Vec<char>) -> (s: String)
    ensures
        s@ == v@,
{
    let mut s = String::new();
    let mut i: usize = 0;
    while i < v.len()
        invariant
            i <= v.len(),
            s@ == v@.take(i as int),
        decreases v.len() - i,
    {
        s.push(v[i]);
        i += 1;
    }
    s
}

/// The texts that `parts` holds, in order.
pub open spec fn texts(parts: Seq<Vec<char>>) -> Seq<Seq<char>> {
    Seq::new(parts.len(), |i: int| parts[i]@)
}

/// Whether two strings hold the same characters.
pub fn same_text(a: &Vec<char>, b: &str) -> (r: bool)
    ensures
        r == (a@ == b@),
{
    let other = chars_of(b);
    if a.len() != other.len() {
        return false;
    }
    let mut i: usize = 0;
    while i < a.len()
        invariant
            i <= a.len(),
            a.len() == other.len(),
            other@ == b@,
            a@.take(i as int) == other@.take(i as int),
        decreases a.len() - i,
    {
        if a[i] != other[i] {
            return false;
        }
        i += 1;
    }
    assert(a@ =~= a@.take(a.len() as int));
    assert(other@ =~= other@.take(other.len() as int));
    true
}

/// The characters that Unicode gives the property `White_Space`.
pub open spec fn is_whitespace(c: char) -> bool {
    let n = c as u32;
    ||| 0x09 <= n <= 0x0D
    ||| n == 0x20
    ||| n == 0x85
    ||| n == 0xA0
    ||| n == 0x1680
    ||| 0x2000 <= n <= 0x200A
    ||| n == 0x2028
    ||| n == 0x2029
    ||| n == 0x202F
    ||| n == 0x205F
    ||| n == 0x3000
}

/// Executable form of [`is_whitespace`].
pub fn is_whitespace_char(c: char) -> (r: bool)
    ensures
        r == is_whitespace(c),
{
    let n: u32 = c as u32;
    (0x09 <= n && n <= 0x0D) || n == 0x20 || n == 0x85 || n == 0xA0 || n == 0x1680 || (0x2000 <= n
        && n <= 0x200A) || n == 0x2028 || n == 0x2029 || n == 0x202F || n == 0x205F || n == 0x3000
}

/// `s` without the white space it starts with.
pub open spec fn trim_start(s: Seq<char>) -> Seq<char>
    decreases s.len(),
{
    if s.len() > 0 && is_whitespace(s[0]) {
        trim_start(s.drop_first())
    } else {
        s
    }
}

/// `s` without the white space it ends with.
pub open spec fn trim_end(s: Seq<char>) -> Seq<char>
    decreases s.len(),
{
    if s.len() > 0 && is_whitespace(s.last()) {
        trim_end(s.drop_last())
    } else {
        s
    }
}

/// `s` without the white space at either end.
pub open spec fn trim(s: Seq<char>) -> Seq<char> {
    trim_end(trim_start(s))
}

/// Whether trimming would change nothing: `s` neither starts nor ends with
/// white space.
pub open spec fn is_trimmed(s: Seq<char>) -> bool {
    s.len() > 0 ==> !is_whitespace(s[0]) && !is_whitespace(s.last())
}

/// Trimming at the start skips exactly the leading run of white space.
pub proof fn lemma_trim_start_skip(s: Seq<char>, i: int)
    requires
        0 <= i <= s.len(),
        forall|j: int| 0 <= j < i ==> is_whitespace(#[trigger] s[j]),
    ensures
        trim_start(s) == trim_start(s.skip(i)),
    decreases i,
{
    if i == 0 {
        assert(s.skip(0) =~= s);
    } else {
        lemma_trim_start_skip(s, i - 1);
        let t = s.skip(i - 1);
        assert(t.drop_first() =~= s.skip(i));
    }
}

/// Trimming at the end drops exactly the trailing run of white space.
pub proof fn lemma_trim_end_take(s: Seq<char>, i: int)
    requires
        0 <= i <= s.len(),
        forall|j: int| i <= j < s.len() ==> is_whitespace(#[trigger] s[j]),
    ensures
        trim_end(s) == trim_end(s.take(i)),
    decreases s.len() - i,
{
    if i == s.len() {
        assert(s.take(i) =~= s);
    } else {
        lemma_trim_end_take(s, i + 1);
        let t = s.take(i + 1);
        assert(t.drop_last() =~= s.take(i));
    }
}

/// What trimming returns is trimmed, and trimming a trimmed text changes
/// nothing.
pub proof fn lemma_trim_is_trimmed(s: Seq<char>)
    ensures
        is_trimmed(trim(s)),
        is_trimmed(s) ==> trim(s) == s,
        trim(s).len() <= s.len(),
{
    lemma_trim_start_shape(s);
    lemma_trim_end_shape(trim_start(s));
}

/// `trim_start` returns a suffix that does not start with white space.
pub proof fn lemma_trim_start_shape(s: Seq<char>)
    ensures
        trim_start(s).len() <= s.len(),
        trim_start(s) == s.skip(s.len() - trim_start(s).len()),
        trim_start(s).len() > 0 ==> !is_whitespace(trim_start(s)[0]),
        forall|j: int| 0 <= j < s.len() - trim_start(s).len() ==> is_whitespace(#[trigger] s[j]),
    decreases s.len(),
{
    if s.len() > 0 && is_whitespace(s[0]) {
        let t = s.drop_first();
        lemma_trim_start_shape(t);
        assert forall|j: int| 0 <= j < s.len() - trim_start(s).len() implies is_whitespace(
            #[trigger] s[j],
        ) by {
            if j > 0 {
                assert(s[j] == t[j - 1]);
            }
        }
    }
}

/// `trim_end` returns a prefix that does not end with white space.
pub proof fn lemma_trim_end_shape(s: Seq<char>)
    ensures
        trim_end(s).len() <= s.len(),
        trim_end(s) == s.take(trim_end(s).len() as int),
        trim_end(s).len() > 0 ==> !is_whitespace(trim_end(s).last()),
        forall|j: int| trim_end(s).len() <= j < s.len() ==> is_whitespace(#[trigger] s[j]),
    decreases s.len(),
{
    if s.len() > 0 && is_whitespace(s.last()) {
        let t = s.drop_last();
        lemma_trim_end_shape(t);
        assert forall|j: int| trim_end(s).len() <= j < s.len() implies is_whitespace(
            #[trigger] s[j],
        ) by {
            if j < s.len() - 1 {
                assert(s[j] == t[j]);
            }
        }
    }
}

/// The characters of `v` from `from` up to, not including, `to`.
pub fn slice_of(v: &Vec<char>, from: usize, to: usize) -> (r: Vec<char>)
    requires
        from <= to <= v.len(),
    ensures
        r@ == v@.subrange(from as int, to as int),
{
    let mut r: Vec<char> = Vec::new();
    let mut i: usize = from;
    while i < to
        invariant
            from <= i <= to <= v.len(),
            r@ == v@.subrange(from as int, i as int),
        decreases to - i,
    {
        r.push(v[i]);
        i += 1;
    }
    r
}

/// `v` without the white space at either end.
pub fn trimmed(v: &Vec<char>) -> (r: Vec<char>)
    ensures
        r@ == trim(v@),
{
    let mut start: usize = 0;
    while start < v.len() && is_whitespace_char(v[start])
        invariant
            start <= v.len(),
            forall|j: int| 0 <= j < start ==> is_whitespace(#[trigger] v@[j]),
        decreases v.len() - start,
    {
        start += 1;
    }
    let mut end: usize = v.len();
    while end > start && is_whitespace_char(v[end - 1])
        invariant
            start <= end <= v.len(),
            forall|j: int| end <= j < v.len() ==> is_whitespace(#[trigger] v@[j]),
        decreases end,
    {
        end -= 1;
    }
    proof {
        let s = v@;
        let t = s.skip(start as int);
        lemma_trim_start_skip(s, start as int);
        lemma_trim_end_take(t, end - start);
    }
    slice_of(v, start, end)
}

/// `v` without the white space it starts with.
pub fn trimmed_start(v: &Vec<char>) -> (r: Vec<char>)
    ensures
        r@ == trim_start(v@),
{
    let mut start: usize = 0;
    while start < v.len() && is_whitespace_char(v[start])
        invariant
            start <= v.len(),
            forall|j: int| 0 <= j < start ==> is_whitespace(#[trigger] v@[j]),
        decreases v.len() - start,
    {
        start += 1;
    }
    proof {
        lemma_trim_start_skip(v@, start as int);
    }
    slice_of(v, start, v.len())
}

/// Where `c` first stands in `s`; the length of `s` if it stands nowhere.
pub open spec fn index_of(s: Seq<char>, c: char) -> int
    decreases s.len(),
{
    if s.len() == 0 || s[0] == c {
        0
    } else {
        1 + index_of(s.drop_first(), c)
    }
}

/// Where white space first stands in `s`; the length of `s` if it holds none.
pub open spec fn index_of_whitespace(s: Seq<char>) -> int
    decreases s.len(),
{
    if s.len() == 0 || is_whitespace(s[0]) {
        0
    } else {
        1 + index_of_whitespace(s.drop_first())
    }
}

/// Whether `c` stands somewhere in `s`.
pub open spec fn has_char(s: Seq<char>, c: char) -> bool {
    index_of(s, c) < s.len()
}

/// [`index_of`] is the least index that holds `c`.
pub proof fn lemma_index_of(s: Seq<char>, c: char)
    ensures
        0 <= index_of(s, c) <= s.len(),
        index_of(s, c) < s.len() ==> s[index_of(s, c)] == c,
        forall|j: int| 0 <= j < index_of(s, c) ==> #[trigger] s[j] != c,
    decreases s.len(),
{
    if s.len() > 0 && s[0] != c {
        let t = s.drop_first();
        lemma_index_of(t, c);
        assert forall|j: int| 0 <= j < index_of(s, c) implies #[trigger] s[j] != c by {
            if j > 0 {
                assert(s[j] == t[j - 1]);
            }
        }
    }
}

/// An index that holds `c`, with none before it that does, is [`index_of`].
pub proof fn lemma_index_of_unique(s: Seq<char>, c: char, i: int)
    requires
        0 <= i <= s.len(),
        i < s.len() ==> s[i] == c,
        forall|j: int| 0 <= j < i ==> #[trigger] s[j] != c,
    ensures
        index_of(s, c) == i,
{
    lemma_index_of(s, c);
}

/// [`index_of_whitespace`] is the least index that holds white space.
pub proof fn lemma_index_of_whitespace(s: Seq<char>)
    ensures
        0 <= index_of_whitespace(s) <= s.len(),
        index_of_whitespace(s) < s.len() ==> is_whitespace(s[index_of_whitespace(s)]),
        forall|j: int| 0 <= j < index_of_whitespace(s) ==> !is_whitespace(#[trigger] s[j]),
    decreases s.len(),
{
    if s.len() > 0 && !is_whitespace(s[0]) {
        let t = s.drop_first();
        lemma_index_of_whitespace(t);
        assert forall|j: int| 0 <= j < index_of_whitespace(s) implies !is_whitespace(
            #[trigger] s[j],
        ) by {
            if j > 0 {
                assert(s[j] == t[j - 1]);
            }
        }
    }
}

/// An index that holds white space, with none before it that does, is
/// [`index_of_whitespace`].
pub proof fn lemma_index_of_whitespace_unique(s: Seq<char>, i: int)
    requires
        0 <= i <= s.len(),
        i < s.len() ==> is_whitespace(s[i]),
        forall|j: int| 0 <= j < i ==> !is_whitespace(#[trigger] s[j]),
    ensures
        index_of_whitespace(s) == i,
{
    lemma_index_of_whitespace(s);
}

/// Where `c` first stands in `v`; the length of `v` if it stands nowhere.
pub fn find_char(v: &Vec<char>, c: char) -> (i: usize)
    ensures
        i == index_of(v@, c),
        i <= v.len(),
{
    let mut i: usize = 0;
    while i < v.len() && v[i] != c
        invariant
            i <= v.len(),
            forall|j: int| 0 <= j < i ==> #[trigger] v@[j] != c,
        decreases v.len() - i,
    {
        i += 1;
    }
    proof {
        lemma_index_of_unique(v@, c, i as int);
    }
    i
}

/// Where white space first stands in `v`; the length of `v` if it holds none.
pub fn find_whitespace(v: &Vec<char>) -> (i: usize)
    ensures
        i == index_of_whitespace(v@),
        i <= v.len(),
{
    let mut i: usize = 0;
    while i < v.len() && !is_whitespace_char(v[i])
        invariant
            i <= v.len(),
            forall|j: int| 0 <= j < i ==> !is_whitespace(#[trigger] v@[j]),
        decreases v.len() - i,
    {
        i += 1;
    }
    proof {
        lemma_index_of_whitespace_unique(v@, i as int);
    }
    i
}

/// The pieces of `s` between the occurrences of `sep`. There is always at
/// least one piece, and no piece holds `sep`.
pub open spec fn split(s: Seq<char>, sep: char) -> Seq<Seq<char>>
    decreases s.len(),
{
    let i = index_of(s, sep);
    if 0 <= i < s.len() {
        seq![s.take(i)] + split(s.skip(i + 1), sep)
    } else {
        seq![s]
    }
}

/// The pieces of `parts` in one text, with `sep` between neighbours.
pub open spec fn join(parts: Seq<Seq<char>>, sep: char) -> Seq<char>
    decreases parts.len(),
{
    if parts.len() == 0 {
        Seq::empty()
    } else if parts.len() == 1 {
        parts[0]
    } else {
        parts[0] + seq![sep] + join(parts.drop_first(), sep)
    }
}

/// Splitting gives at least one piece, the first is the text before the first
/// separator, and no piece holds the separator.
pub proof fn lemma_split_shape(s: Seq<char>, sep: char)
    ensures
        split(s, sep).len() >= 1,
        split(s, sep)[0] == s.take(index_of(s, sep)),
        forall|k: int| 0 <= k < split(s, sep).len() ==> !has_char(#[trigger] split(s, sep)[k], sep),
    decreases s.len(),
{
    lemma_index_of(s, sep);
    let i = index_of(s, sep);
    if 0 <= i < s.len() {
        let rest = s.skip(i + 1);
        lemma_split_shape(rest, sep);
        let head = s.take(i);
        assert(!has_char(head, sep)) by {
            lemma_index_of_unique(head, sep, i);
        }
    }
}

/// Joining what `split` gave returns the text.
pub proof fn lemma_join_split(s: Seq<char>, sep: char)
    ensures
        join(split(s, sep), sep) == s,
    decreases s.len(),
{
    lemma_index_of(s, sep);
    let i = index_of(s, sep);
    if 0 <= i < s.len() {
        let rest = s.skip(i + 1);
        lemma_join_split(rest, sep);
        lemma_split_shape(rest, sep);
        let parts = split(s, sep);
        assert(parts.drop_first() =~= split(rest, sep));
    }
}

/// Splitting what `join` gave returns the pieces, where there is at least one
/// and none holds the separator.
pub proof fn lemma_split_join(parts: Seq<Seq<char>>, sep: char)
    requires
        parts.len() >= 1,
        forall|k: int| 0 <= k < parts.len() ==> !has_char(#[trigger] parts[k], sep),
    ensures
        split(join(parts, sep), sep) == parts,
    decreases parts.len(),
{
    let s = join(parts, sep);
    let head = parts[0];
    lemma_index_of(head, sep);
    if parts.len() > 1 {
        let tail = parts.drop_first();
        lemma_split_join(tail, sep);
        let n = head.len() as int;
        lemma_index_of_unique(s, sep, n);
        assert(s.take(n) =~= head);
        assert(s.skip(n + 1) =~= join(tail, sep));
    }
}

/// The pieces of `v` between the occurrences of `sep`.
pub fn split_chars(v: &Vec<char>, sep: char) -> (r: Vec<Vec<char>>)
    ensures
        texts(r@) == split(v@, sep),
        r.len() >= 1,
{
    let mut r: Vec<Vec<char>> = Vec::new();
    let mut start: usize = 0;
    let mut i: usize = 0;
    assert(v@.skip(0) =~= v@);
    while i < v.len()
        invariant
            start <= i <= v.len(),
            forall|j: int| start <= j < i ==> #[trigger] v@[j] != sep,
            split(v@, sep) == texts(r@) + split(v@.skip(start as int), sep),
        decreases v.len() - i,
    {
        if v[i] == sep {
            let piece = slice_of(v, start, i);
            proof {
                let t = v@.skip(start as int);
                lemma_index_of_unique(t, sep, i - start);
                assert(t.take(i - start) =~= piece@);
                assert(t.skip(i - start + 1) =~= v@.skip(i + 1));
            }
            r.push(piece);
            start = i + 1;
        }
        i += 1;
    }
    let piece = slice_of(v, start, v.len());
    proof {
        let t = v@.skip(start as int);
        lemma_index_of_unique(t, sep, t.len() as int);
    }
    r.push(piece);
    r
}

/// The texts of `parts` in one text, with `sep` between neighbours.
pub fn join_chars(parts: &Vec<Vec<char>>, sep: char) -> (r: Vec<char>)
    ensures
        r@ == join(texts(parts@), sep),
{
    let mut r: Vec<char> = Vec::new();
    let mut i: usize = parts.len();
    let ghost all = texts(parts@);
    while i > 0
        invariant
            i <= parts.len(),
            all == texts(parts@),
            r@ == join(all.skip(i as int), sep),
        decreases i,
    {
        i -= 1;
        let mut next: Vec<char> = Vec::new();
        append_chars(&mut next, &parts[i]);
        if i + 1 < parts.len() {
            next.push(sep);
            append_chars(&mut next, &r);
        }
        proof {
            let tail = all.skip(i as int);
            assert(tail.drop_first() =~= all.skip(i + 1));
        }
        r = next;
    }
    assert(all.skip(0) =~= all);
    r
}

/// Appends the characters of `more` to `v`.
pub fn append_chars(v: &mut Vec<char>, more: &Vec<char>)
    ensures
        final(v)@ == old(v)@ + more@,
{
    let mut i: usize = 0;
    while i < more.len()
        invariant
            i <= more.len(),
            v@ == old(v)@ + more@.take(i as int),
        decreases more.len() - i,
    {
        v.push(more[i]);
        i += 1;
    }
}

/// The view of a result: the view of what it holds, on either side.
pub open spec fn result_view<T: View, E: View>(r: Result<T, E>) -> Result<T::V, E::V> {
    match r {
        Ok(t) => Ok(t@),
        Err(e) => Err(e@),
    }
}

/// A text made of a fixed opening and a body.
pub fn prefixed(opening: &str, body: &Vec<char>) -> (r: String)
    ensures
        r@ == opening@ + body@,
{
    let mut v = chars_of(opening);
    append_chars(&mut v, body);
    string_of(&v)
}

/// A text made of a fixed opening, a body and a fixed close.
pub fn framed(opening: &str, body: &Vec<char>, close: &str) -> (r: String)
    ensures
        r@ == opening@ + body@ + close@,
{
    let mut v = chars_of(opening);
    append_chars(&mut v, body);
    let tail = chars_of(close);
    append_chars(&mut v, &tail);
    string_of(&v)
}

/// Adds `text` as the last line of `lines`.
pub fn push_line(lines: &mut Vec<String>, text: &str)
    ensures
        final(lines).deep_view() == old(lines).deep_view().push(text@),
{
    lines.push(text.to_owned());
}

/// Adds `line` as the last line of `lines`.
pub fn push_string(lines: &mut Vec<String>, line: String)
    ensures
        final(lines).deep_view() == old(lines).deep_view().push(line@),
{
    lines.push(line);
}

/// Adds the lines of `more` behind those of `lines`.
pub fn append_lines(lines: &mut Vec<String>, more: &Vec<String>)
    ensures
        final(lines).deep_view() == old(lines).deep_view() + more.deep_view(),
{
    let mut i: usize = 0;
    while i < more.len()
        invariant
            i <= more.len(),
            lines.deep_view() == old(lines).deep_view() + more.deep_view().take(i as int),
        decreases more.len() - i,
    {
        let ghost before = lines.deep_view();
        lines.push(more[i].clone());
        assert(lines.deep_view() =~= before.push(more[i as int]@));
        i += 1;
    }
}

/// Whether `s` begins with the characters of `prefix`.
pub open spec fn starts_with(s: Seq<char>, prefix: Seq<char>) -> bool {
    prefix.len() <= s.len() && s.take(prefix.len() as int) == prefix
}

/// Executable form of [`starts_with`].
pub fn has_prefix(v: &Vec<char>, prefix: &str) -> (r: bool)
    ensures
        r == starts_with(v@, prefix@),
{
    let p = chars_of(prefix);
    if p.len() > v.len() {
        return false;
    }
    let head = slice_of(v, 0, p.len());
    let ghost n = p.len() as int;
    let mut i: usize = 0;
    while i < p.len()
        invariant
            i <= p.len(),
            head.len() == p.len(),
            p.len() <= v.len(),
            p@ == prefix@,
            head@ == v@.take(p.len() as int),
            head@.take(i as int) == p@.take(i as int),
        decreases p.len() - i,
    {
        if head[i] != p[i] {
            return false;
        }
        i += 1;
    }
    assert(head@ =~= head@.take(n));
    assert(p@ =~= p@.take(n));
    true
}

/// Whether the characters of `pattern` stand side by side somewhere in `s`.
pub open spec fn has_text(s: Seq<char>, pattern: Seq<char>) -> bool {
    exists|i: int| has_text_at(s, pattern, i)
}

/// Whether the characters of `pattern` stand in `s` from index `i` on.
pub open spec fn has_text_at(s: Seq<char>, pattern: Seq<char>, i: int) -> bool {
    0 <= i && i + pattern.len() <= s.len() && s.subrange(i, i + pattern.len()) == pattern
}

/// Whether `pattern` stands in `v` from index `at` on.
fn matches_at(v: &Vec<char>, pattern: &Vec<char>, at: usize) -> (r: bool)
    requires
        at + pattern.len() <= v.len(),
    ensures
        r == has_text_at(v@, pattern@, at as int),
{
    let ghost window = v@.subrange(at as int, at + pattern.len());
    let mut k: usize = 0;
    while k < pattern.len()
        invariant
            k <= pattern.len(),
            at + pattern.len() <= v.len(),
            window == v@.subrange(at as int, at + pattern.len()),
            window.take(k as int) == pattern@.take(k as int),
        decreases pattern.len() - k,
    {
        if v[at + k] != pattern[k] {
            return false;
        }
        k += 1;
    }
    assert(window.take(pattern.len() as int) =~= window);
    assert(pattern@.take(pattern.len() as int) =~= pattern@);
    true
}

/// Executable form of [`has_text`].
pub fn contains_text(v: &Vec<char>, pattern: &str) -> (r: bool)
    ensures
        r == has_text(v@, pattern@),
{
    let p = chars_of(pattern);
    if p.len() > v.len() {
        return false;
    }
    if p.len() == 0 {
        assert(v@.subrange(0, 0) =~= p@);
        assert(has_text_at(v@, p@, 0));
        return true;
    }
    let last: usize = v.len() - p.len();
    let mut i: usize = 0;
    while i <= last
        invariant
            i <= last + 1,
            last == v.len() - p.len(),
            p.len() > 0,
            p@ == pattern@,
            forall|j: int| 0 <= j < i ==> !has_text_at(v@, p@, j),
        decreases last + 1 - i,
    {
        if matches_at(v, &p, i) {
            return true;
        }
        i += 1;
    }
    false
}

} // verus!
