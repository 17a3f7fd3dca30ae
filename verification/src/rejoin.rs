//! Metadata written back as a line, and the laws that tie writing to reading.
//!
//! A field is written as its key, a space and its value; a line is the title
//! and the fields with `/` between them. Reading what was written gives back
//! what was there: field for field, and so for the whole line.

use crate::decimal::{decimal, lemma_decimal_reads_back, lemma_parse_decimal};
use crate::metadata::{
    clean_tags, clock_fits, clocks_fit, field_of, metadata_after, metadata_of, tags_of, title_of,
    DueClock, FieldView, MetadataView,
};
use crate::text::{
    has_char, index_of, index_of_whitespace, is_whitespace, join, lemma_index_of,
    lemma_index_of_unique, lemma_index_of_whitespace_unique, lemma_split_join, lemma_split_shape,
    lemma_trim_end_shape, lemma_trim_is_trimmed, lemma_trim_start_shape, split, trim, trim_start,
};
use vstd::prelude::*;

verus! {

/// A character stands in a text exactly where some index holds it.
pub proof fn lemma_has_char(s: Seq<char>, c: char)
    ensures
        has_char(s, c) <==> s.contains(c),
{
    lemma_index_of(s, c);
}

/// A part of a text holds no character that the text does not hold.
pub proof fn lemma_part_lacks(s: Seq<char>, from: int, to: int, c: char)
    requires
        0 <= from <= to <= s.len(),
        !has_char(s, c),
    ensures
        !has_char(s.subrange(from, to), c),
{
    let part = s.subrange(from, to);
    lemma_has_char(s, c);
    lemma_has_char(part, c);
}

/// Two texts side by side hold a character exactly where one of them does.
pub proof fn lemma_concat_has(a: Seq<char>, b: Seq<char>, c: char)
    ensures
        has_char(a + b, c) <==> has_char(a, c) || has_char(b, c),
{
    let s = a + b;
    lemma_has_char(s, c);
    lemma_has_char(a, c);
    lemma_has_char(b, c);
    if a.contains(c) {
        let i = choose|i: int| 0 <= i < a.len() && a[i] == c;
        assert(s[i] == c);
    }
    if b.contains(c) {
        let i = choose|i: int| 0 <= i < b.len() && b[i] == c;
        assert(s[a.len() + i] == c);
    }
}

/// What trimming returns is a part of the text.
pub proof fn lemma_trim_is_part(s: Seq<char>)
    ensures
        exists|from: int, to: int| 0 <= from <= to <= s.len() && trim(s) == #[trigger] s.subrange(
            from,
            to,
        ),
{
    lemma_trim_start_shape(s);
    let t = trim_start(s);
    lemma_trim_end_shape(t);
    let from = s.len() - t.len();
    let to = from + trim(s).len();
    assert(trim(s) =~= s.subrange(from, to));
}

/// Trimming adds no character.
pub proof fn lemma_trim_lacks(s: Seq<char>, c: char)
    requires
        !has_char(s, c),
    ensures
        !has_char(trim(s), c),
{
    lemma_trim_is_part(s);
    let (from, to) = choose|from: int, to: int|
        0 <= from <= to <= s.len() && trim(s) == #[trigger] s.subrange(from, to);
    lemma_part_lacks(s, from, to, c);
}

/// The pieces of a text hold no character that the text does not hold.
pub proof fn lemma_split_lacks(s: Seq<char>, sep: char, c: char)
    requires
        !has_char(s, c),
    ensures
        forall|k: int| 0 <= k < split(s, sep).len() ==> !has_char(#[trigger] split(s, sep)[k], c),
    decreases s.len(),
{
    lemma_index_of(s, sep);
    let i = index_of(s, sep);
    if 0 <= i < s.len() {
        let rest = s.skip(i + 1);
        lemma_part_lacks(s, i + 1, s.len() as int, c);
        lemma_part_lacks(s, 0, i, c);
        lemma_split_lacks(rest, sep, c);
        assert forall|k: int| 0 <= k < split(s, sep).len() implies !has_char(
            #[trigger] split(s, sep)[k],
            c,
        ) by {
            if k > 0 {
                assert(split(s, sep)[k] == split(rest, sep)[k - 1]);
            }
        }
    }
}

/// Pieces joined hold a character only where a piece holds it or it is the
/// separator.
pub proof fn lemma_join_lacks(parts: Seq<Seq<char>>, sep: char, c: char)
    requires
        sep != c,
        forall|k: int| 0 <= k < parts.len() ==> !has_char(#[trigger] parts[k], c),
    ensures
        !has_char(join(parts, sep), c),
    decreases parts.len(),
{
    if parts.len() == 0 {
        lemma_index_of(join(parts, sep), c);
    } else if parts.len() > 1 {
        let tail = parts.drop_first();
        lemma_join_lacks(tail, sep, c);
        lemma_has_char(seq![sep], c);
        lemma_concat_has(parts[0], seq![sep], c);
        lemma_concat_has(parts[0] + seq![sep], join(tail, sep), c);
    }
}

/// Pieces joined end as the last piece ends, where that piece is not empty.
pub proof fn lemma_join_last(parts: Seq<Seq<char>>, sep: char)
    requires
        parts.len() >= 1,
        parts.last().len() > 0,
    ensures
        join(parts, sep).len() > 0,
        join(parts, sep).last() == parts.last().last(),
    decreases parts.len(),
{
    if parts.len() > 1 {
        let tail = parts.drop_first();
        lemma_join_last(tail, sep);
    }
}

/// Whether a text can be a value behind a key: it is not empty, does not end
/// with white space and holds no `/`.
pub open spec fn is_value(v: Seq<char>) -> bool {
    v.len() > 0 && !is_whitespace(v.last()) && !has_char(v, '/')
}

/// Whether a text can be a label in a list of tags: it is not empty, neither
/// starts nor ends with white space and holds neither `,` nor `/`.
pub open spec fn is_label(t: Seq<char>) -> bool {
    t.len() > 0 && !is_whitespace(t[0]) && !is_whitespace(t.last()) && !has_char(t, ',')
        && !has_char(t, '/')
}

/// Whether every one of `tags` can be a label.
pub open spec fn all_labels(tags: Seq<Seq<char>>) -> bool {
    forall|k: int| 0 <= k < tags.len() ==> is_label(#[trigger] tags[k])
}

/// Whether a field can be written as a piece of a line.
pub open spec fn is_writable(field: FieldView) -> bool {
    match field {
        FieldView::Priority(v) => is_value(v),
        FieldView::Due(v) => is_value(v),
        FieldView::Tags(tags) => all_labels(tags),
        FieldView::Estimate(v) => is_value(v),
        FieldView::Parent(_) => true,
    }
}

/// A list of tags as the value of a `/tag` piece: the labels with `,` between
/// them; a lone `,` for the empty list.
pub open spec fn tags_text(tags: Seq<Seq<char>>) -> Seq<char> {
    if tags.len() == 0 {
        seq![',']
    } else {
        join(tags, ',')
    }
}

/// A field as a piece of a line: its key, a space, its value.
pub open spec fn field_text(field: FieldView) -> Seq<char> {
    match field {
        FieldView::Priority(v) => "p"@ + seq![' '] + v,
        FieldView::Due(v) => "due"@ + seq![' '] + v,
        FieldView::Tags(tags) => "tag"@ + seq![' '] + tags_text(tags),
        FieldView::Estimate(v) => "est"@ + seq![' '] + v,
        FieldView::Parent(id) => "parent"@ + seq![' '] + decimal(id as nat),
    }
}

/// What trimming leaves of pieces that hold neither `,` nor `/` are labels.
pub proof fn lemma_clean_tags_are_labels(pieces: Seq<Seq<char>>)
    requires
        forall|k: int|
            0 <= k < pieces.len() ==> !has_char(#[trigger] pieces[k], ',') && !has_char(
                pieces[k],
                '/',
            ),
    ensures
        all_labels(clean_tags(pieces)),
    decreases pieces.len(),
{
    if pieces.len() > 0 {
        let front = pieces.drop_last();
        lemma_clean_tags_are_labels(front);
        lemma_trim_lacks(pieces.last(), ',');
        lemma_trim_lacks(pieces.last(), '/');
        lemma_trim_is_trimmed(pieces.last());
    }
}

/// Labels stay as they are where a list of tags is cleaned.
pub proof fn lemma_clean_keeps_labels(tags: Seq<Seq<char>>)
    requires
        all_labels(tags),
    ensures
        clean_tags(tags) == tags,
    decreases tags.len(),
{
    if tags.len() > 0 {
        let front = tags.drop_last();
        lemma_clean_keeps_labels(front);
        lemma_trim_is_trimmed(tags.last());
    }
}

/// A list of labels written as a value reads back as the list.
pub proof fn lemma_tags_read_back(tags: Seq<Seq<char>>)
    requires
        all_labels(tags),
    ensures
        tags_of(tags_text(tags)) == tags,
        is_value(tags_text(tags)),
{
    if tags.len() == 0 {
        let s = seq![','];
        lemma_index_of_unique(s, ',', 0);
        let rest = s.skip(1);
        assert(rest =~= Seq::<char>::empty());
        assert(split(rest, ',') =~= seq![Seq::<char>::empty()]);
        let pieces = split(s, ',');
        let one = pieces.drop_last();
        assert(clean_tags(one.drop_last()) =~= Seq::<Seq<char>>::empty());
        assert(clean_tags(one) =~= Seq::<Seq<char>>::empty());
        lemma_has_char(s, '/');
    } else {
        lemma_split_join(tags, ',');
        lemma_clean_keeps_labels(tags);
        lemma_join_last(tags, ',');
        lemma_join_lacks(tags, ',', '/');
    }
}

/// A key without white space, a space and a value that does not end with
/// white space make a piece that is trimmed and is cut right behind the key.
pub proof fn lemma_keyed(key: Seq<char>, value: Seq<char>)
    requires
        key.len() > 0,
        forall|i: int| 0 <= i < key.len() ==> !is_whitespace(#[trigger] key[i]),
        value.len() > 0,
        !is_whitespace(value.last()),
    ensures
        trim(key + seq![' '] + value) == key + seq![' '] + value,
        index_of_whitespace(key + seq![' '] + value) == key.len(),
        (key + seq![' '] + value).take(key.len() as int) == key,
        (key + seq![' '] + value).skip(key.len() as int + 1) == value,
{
    let s = key + seq![' '] + value;
    lemma_trim_is_trimmed(s);
    lemma_index_of_whitespace_unique(s, key.len() as int);
}

/// The keys of the fields are different words without white space or `/`.
proof fn lemma_keys()
    ensures
        "p"@ =~= seq!['p'],
        "priority"@.len() == 8,
        "due"@ =~= seq!['d', 'u', 'e'],
        "tag"@ =~= seq!['t', 'a', 'g'],
        "tags"@.len() == 4,
        "est"@ =~= seq!['e', 's', 't'],
        "estimate"@.len() == 8,
        "parent"@ =~= seq!['p', 'a', 'r', 'e', 'n', 't'],
{
    reveal_strlit("p");
    reveal_strlit("priority");
    reveal_strlit("due");
    reveal_strlit("tag");
    reveal_strlit("tags");
    reveal_strlit("est");
    reveal_strlit("estimate");
    reveal_strlit("parent");
}

/// A key lacks a character that none of its letters is.
proof fn lemma_word_lacks(word: Seq<char>, c: char)
    requires
        forall|i: int| 0 <= i < word.len() ==> #[trigger] word[i] != c,
    ensures
        !has_char(word, c),
{
    lemma_has_char(word, c);
}

/// A field written as a piece reads back as the field.
pub proof fn lemma_field_reads_back(field: FieldView)
    requires
        is_writable(field),
    ensures
        field_of(field_text(field)) == Ok::<Option<FieldView>, Seq<char>>(Some(field)),
{
    lemma_keys();
    match field {
        FieldView::Priority(v) => {
            lemma_keyed("p"@, v);
        },
        FieldView::Due(v) => {
            lemma_keyed("due"@, v);
        },
        FieldView::Tags(tags) => {
            lemma_tags_read_back(tags);
            lemma_keyed("tag"@, tags_text(tags));
        },
        FieldView::Estimate(v) => {
            lemma_keyed("est"@, v);
        },
        FieldView::Parent(id) => {
            lemma_decimal_reads_back(id as nat);
            lemma_parse_decimal(id);
            let digits = decimal(id as nat);
            lemma_keyed("parent"@, digits);
        },
    }
}

/// A field written as a piece holds no `/`.
pub proof fn lemma_field_text_lacks_slash(field: FieldView)
    requires
        is_writable(field),
    ensures
        !has_char(field_text(field), '/'),
{
    lemma_keys();
    lemma_word_lacks(seq![' '], '/');
    match field {
        FieldView::Priority(v) => {
            lemma_word_lacks("p"@, '/');
            lemma_concat_has("p"@, seq![' '], '/');
            lemma_concat_has("p"@ + seq![' '], v, '/');
        },
        FieldView::Due(v) => {
            lemma_word_lacks("due"@, '/');
            lemma_concat_has("due"@, seq![' '], '/');
            lemma_concat_has("due"@ + seq![' '], v, '/');
        },
        FieldView::Tags(tags) => {
            lemma_tags_read_back(tags);
            lemma_word_lacks("tag"@, '/');
            lemma_concat_has("tag"@, seq![' '], '/');
            lemma_concat_has("tag"@ + seq![' '], tags_text(tags), '/');
        },
        FieldView::Estimate(v) => {
            lemma_word_lacks("est"@, '/');
            lemma_concat_has("est"@, seq![' '], '/');
            lemma_concat_has("est"@ + seq![' '], v, '/');
        },
        FieldView::Parent(id) => {
            lemma_decimal_reads_back(id as nat);
            let digits = decimal(id as nat);
            lemma_word_lacks(digits, '/');
            lemma_word_lacks("parent"@, '/');
            lemma_concat_has("parent"@, seq![' '], '/');
            lemma_concat_has("parent"@ + seq![' '], digits, '/');
        },
    }
}

/// The field that a piece without `/` reads as can be written.
pub proof fn lemma_field_is_writable(segment: Seq<char>)
    requires
        !has_char(segment, '/'),
    ensures
        field_of(segment) matches Ok(Some(field)) ==> is_writable(field),
{
    let part = trim(segment);
    let cut = index_of_whitespace(part);
    lemma_trim_lacks(segment, '/');
    lemma_trim_is_trimmed(segment);
    crate::text::lemma_index_of_whitespace(part);
    if part.len() > 0 && cut < part.len() {
        let value = part.skip(cut + 1);
        lemma_part_lacks(part, cut + 1, part.len() as int, '/');
        lemma_split_shape(value, ',');
        lemma_split_lacks(value, ',', '/');
        lemma_clean_tags_are_labels(split(value, ','));
    }
}

/// Pieces that read the same give the same metadata.
pub proof fn lemma_same_fields(
    a: Seq<Seq<char>>,
    b: Seq<Seq<char>>,
    clocks: Seq<DueClock>,
    n: int,
)
    requires
        trim(a[0]) == trim(b[0]),
        forall|k: int| 1 <= k <= n ==> field_of(#[trigger] a[k]) == field_of(b[k]),
    ensures
        metadata_after(a, clocks, n) == metadata_after(b, clocks, n),
    decreases n,
{
    if n > 0 {
        lemma_same_fields(a, b, clocks, n - 1);
    }
}

/// Metadata that was read has the line's title: what stands before the first
/// `/`, trimmed, and that is not empty.
pub proof fn lemma_title(input: Seq<char>, clocks: Seq<DueClock>)
    ensures
        metadata_of(input, clocks) matches Ok(m) ==> m.title == title_of(input) && m.title.len()
            > 0,
{
    let pieces = split(input, '/');
    lemma_split_shape(input, '/');
    lemma_title_stays(pieces, clocks, pieces.len() - 1);
}

/// The title is set from the first piece and no later piece changes it.
proof fn lemma_title_stays(pieces: Seq<Seq<char>>, clocks: Seq<DueClock>, n: int)
    ensures
        metadata_after(pieces, clocks, n) matches Ok(m) ==> m.title == trim(pieces[0])
            && m.title.len() > 0,
    decreases n,
{
    if n > 0 {
        lemma_title_stays(pieces, clocks, n - 1);
    }
}

/// A piece as it is written back: the field it reads as, written as a piece;
/// the piece itself where it reads as none.
pub open spec fn rejoined_piece(piece: Seq<char>) -> Seq<char> {
    match field_of(piece) {
        Ok(Some(field)) => field_text(field),
        _ => piece,
    }
}

/// The pieces of a line as they are written back: the title trimmed, and
/// every piece behind it as [`rejoined_piece`] writes it.
pub open spec fn rejoined_pieces(pieces: Seq<Seq<char>>) -> Seq<Seq<char>> {
    Seq::new(
        pieces.len(),
        |k: int|
            if k == 0 {
                trim(pieces[0])
            } else {
                rejoined_piece(pieces[k])
            },
    )
}

/// A line written back from what was read in it: the title and the
/// recognized key and value pairs, joined with `/`.
pub open spec fn rejoined(input: Seq<char>) -> Seq<char> {
    join(rejoined_pieces(split(input, '/')), '/')
}

/// Reading a line, writing back the title and the key and value pairs that
/// were recognized, and reading the result gives what the first reading
/// gave: the same fields where the line is accepted, the same error where it
/// is not.
pub proof fn lemma_rejoined_reads_the_same(input: Seq<char>, clocks: Seq<DueClock>)
    ensures
        split(rejoined(input), '/') == rejoined_pieces(split(input, '/')),
        metadata_of(rejoined(input), clocks) == metadata_of(input, clocks),
        clocks_fit(rejoined(input), clocks) == clocks_fit(input, clocks),
{
    let pieces = split(input, '/');
    let written = rejoined_pieces(pieces);
    lemma_split_shape(input, '/');
    assert forall|k: int| 0 <= k < written.len() implies !has_char(#[trigger] written[k], '/') by {
        if k == 0 {
            lemma_trim_lacks(pieces[0], '/');
        } else {
            lemma_field_is_writable(pieces[k]);
            match field_of(pieces[k]) {
                Ok(Some(field)) => {
                    lemma_field_text_lacks_slash(field);
                },
                _ => {},
            }
        }
    }
    lemma_split_join(written, '/');
    lemma_trim_is_trimmed(pieces[0]);
    lemma_trim_is_trimmed(trim(pieces[0]));
    assert forall|k: int| 1 <= k <= pieces.len() - 1 implies field_of(#[trigger] written[k])
        == field_of(pieces[k]) by {
        lemma_field_is_writable(pieces[k]);
        match field_of(pieces[k]) {
            Ok(Some(field)) => {
                lemma_field_reads_back(field);
            },
            _ => {},
        }
    }
    lemma_same_fields(written, pieces, clocks, pieces.len() - 1);
    if clocks_fit(input, clocks) {
        assert forall|k: int| 1 <= k < written.len() implies #[trigger] clock_fits(
            written[k],
            clocks[k],
        ) by {
            assert(clock_fits(pieces[k], clocks[k]));
        }
    }
    if clocks_fit(rejoined(input), clocks) {
        assert forall|k: int| 1 <= k < pieces.len() implies #[trigger] clock_fits(
            pieces[k],
            clocks[k],
        ) by {
            assert(clock_fits(written[k], clocks[k]));
        }
    }
}

/// A key that comes again overwrites what came before: after a piece that
/// reads as a field, the metadata holds that field's value, whatever it held.
pub proof fn lemma_last_write_wins(pieces: Seq<Seq<char>>, clocks: Seq<DueClock>, n: int)
    requires
        n >= 1,
        metadata_after(pieces, clocks, n) is Ok,
    ensures
        ({
            let m = metadata_after(pieces, clocks, n)->Ok_0;
            match field_of(pieces[n]) {
                Ok(Some(FieldView::Priority(v))) => m.priority == Some(v),
                Ok(Some(FieldView::Due(_))) => m.due_date is Some,
                Ok(Some(FieldView::Tags(tags))) => m.tags == tags,
                Ok(Some(FieldView::Estimate(v))) => m.estimate == Some(v),
                Ok(Some(FieldView::Parent(id))) => m.parent == Some(id),
                _ => Ok::<MetadataView, Seq<char>>(m) == metadata_after(pieces, clocks, n - 1),
            }
        }),
{
}

} // verus!
