//! Slash metadata: the `/key value` annotations that a user writes behind a
//! task's title, as in `Fix the bug /p high /tag work,urgent`.
//!
//! A line is cut at every `/`. The first piece, trimmed, is the title. Each
//! later piece, trimmed, is either empty and skipped, or a key and a value
//! with white space between them. The line is read once from the left: a key
//! that comes again overwrites what came before, and the first piece that
//! cannot be read ends the reading with its error.

use crate::decimal::{parse_u32, parse_u32_chars};
use crate::due_date::{
    civil_seconds, due_date_of, due_date_result, end_of_day_fits, parse_due_date, LocalMoment,
};
use crate::text::{
    chars_of, find_whitespace, index_of, index_of_whitespace, lemma_split_shape, prefixed,
    result_view, same_text, slice_of, split, split_chars, string_of, texts, trim, trimmed,
};
use vstd::prelude::*;

verus! {

/// What a line of slash metadata says of a task.
#[derive(Debug, Clone)]
pub struct TaskMetadata {
    pub title: String,
    pub priority: Option<String>,
    pub due_date: Option<i64>,
    pub tags: Vec<String>,
    pub estimate: Option<String>,
    pub parent: Option<u32>,
}

/// The mathematical value of a [`TaskMetadata`].
pub struct MetadataView {
    pub title: Seq<char>,
    pub priority: Option<Seq<char>>,
    pub due_date: Option<i64>,
    pub tags: Seq<Seq<char>>,
    pub estimate: Option<Seq<char>>,
    pub parent: Option<u32>,
}

impl MetadataView {
    /// A title and nothing else.
    pub open spec fn new(title: Seq<char>) -> MetadataView {
        MetadataView {
            title,
            priority: None,
            due_date: None,
            tags: Seq::empty(),
            estimate: None,
            parent: None,
        }
    }
}

impl View for TaskMetadata {
    type V = MetadataView;

    open spec fn view(&self) -> MetadataView {
        MetadataView {
            title: self.title@,
            priority: self.priority.deep_view(),
            due_date: self.due_date,
            tags: self.tags.deep_view(),
            estimate: self.estimate.deep_view(),
            parent: self.parent,
        }
    }
}

impl TaskMetadata {
    /// Metadata with the given title and no other field set.
    pub fn new(title: String) -> (m: TaskMetadata)
        ensures
            m@ == MetadataView::new(title@),
    {
        let m = TaskMetadata {
            title,
            priority: None,
            due_date: None,
            tags: Vec::new(),
            estimate: None,
            parent: None,
        };
        assert(m.tags.deep_view() =~= Seq::<Seq<char>>::empty());
        m
    }
}

/// One `/key value` piece, read.
#[derive(Debug, Clone)]
pub enum MetadataField {
    /// `/p` or `/priority`: the value as written.
    Priority(String),
    /// `/due`: the date as written, not yet resolved.
    Due(String),
    /// `/tag` or `/tags`: the labels, in the order written.
    Tags(Vec<String>),
    /// `/est` or `/estimate`: the value as written.
    Estimate(String),
    /// `/parent`: the parent task's identifier.
    Parent(u32),
}

/// The mathematical value of a [`MetadataField`].
pub enum FieldView {
    Priority(Seq<char>),
    Due(Seq<char>),
    Tags(Seq<Seq<char>>),
    Estimate(Seq<char>),
    Parent(u32),
}

impl View for MetadataField {
    type V = FieldView;

    open spec fn view(&self) -> FieldView {
        match self {
            MetadataField::Priority(v) => FieldView::Priority(v@),
            MetadataField::Due(v) => FieldView::Due(v@),
            MetadataField::Tags(v) => FieldView::Tags(v.deep_view()),
            MetadataField::Estimate(v) => FieldView::Estimate(v@),
            MetadataField::Parent(n) => FieldView::Parent(*n),
        }
    }
}

/// The labels among `pieces`: each piece trimmed, the empty ones left out,
/// the order kept.
pub open spec fn clean_tags(pieces: Seq<Seq<char>>) -> Seq<Seq<char>>
    decreases pieces.len(),
{
    if pieces.len() == 0 {
        Seq::empty()
    } else {
        let before = clean_tags(pieces.drop_last());
        let label = trim(pieces.last());
        if label.len() == 0 {
            before
        } else {
            before.push(label)
        }
    }
}

/// The labels that the value of a `/tag` piece lists, separated by commas.
pub open spec fn tags_of(value: Seq<char>) -> Seq<Seq<char>> {
    clean_tags(split(value, ','))
}

/// What one piece of the line says: nothing where it is blank, else the field
/// that its key names, or the reason it cannot be read.
pub open spec fn field_of(segment: Seq<char>) -> Result<Option<FieldView>, Seq<char>> {
    let part = trim(segment);
    let cut = index_of_whitespace(part);
    if part.len() == 0 {
        Ok(None)
    } else if cut >= part.len() {
        Err("Invalid metadata format: /"@ + part)
    } else {
        let key = part.take(cut);
        let value = part.skip(cut + 1);
        if key == "p"@ || key == "priority"@ {
            Ok(Some(FieldView::Priority(value)))
        } else if key == "due"@ {
            Ok(Some(FieldView::Due(value)))
        } else if key == "tag"@ || key == "tags"@ {
            Ok(Some(FieldView::Tags(tags_of(value))))
        } else if key == "est"@ || key == "estimate"@ {
            Ok(Some(FieldView::Estimate(value)))
        } else if key == "parent"@ {
            match parse_u32(value) {
                Some(id) => Ok(Some(FieldView::Parent(id))),
                None => Err("Invalid parent ID: "@ + value),
            }
        } else {
            Err("Unknown metadata key: "@ + key)
        }
    }
}

/// What the machine answered when a due date was resolved: the current year
/// and the moment that the end of the day is in the local time zone.
pub struct DueClock {
    pub year: int,
    pub moment: LocalMoment,
}

/// Whether `clock` can be what the machine answers at the piece `segment`:
/// where the piece is a due date, the moment is what the time zone makes of
/// 23:59:59 of the day that the piece writes.
pub open spec fn clock_fits(segment: Seq<char>, clock: DueClock) -> bool {
    field_of(segment) matches Ok(Some(FieldView::Due(v))) ==> end_of_day_fits(
        due_date_of(v, clock.year),
        clock.moment,
    )
}

/// Whether `clocks` can be what the machine answers at the pieces of a line:
/// there is one answer for each piece, and each fits its piece.
pub open spec fn clocks_fit(input: Seq<char>, clocks: Seq<DueClock>) -> bool {
    let pieces = split(input, '/');
    &&& clocks.len() == pieces.len()
    &&& forall|k: int| 1 <= k < pieces.len() ==> #[trigger] clock_fits(pieces[k], clocks[k])
}

/// `m` with one field written over. A due date is resolved first, under
/// `clock`, and its error ends the reading.
pub open spec fn with_field(m: MetadataView, field: FieldView, clock: DueClock) -> Result<
    MetadataView,
    Seq<char>,
> {
    match field {
        FieldView::Priority(v) => Ok(MetadataView { priority: Some(v), ..m }),
        FieldView::Due(v) => match due_date_result(v, due_date_of(v, clock.year), clock.moment) {
            Ok(seconds) => Ok(MetadataView { due_date: Some(seconds), ..m }),
            Err(e) => Err(e),
        },
        FieldView::Tags(v) => Ok(MetadataView { tags: v, ..m }),
        FieldView::Estimate(v) => Ok(MetadataView { estimate: Some(v), ..m }),
        FieldView::Parent(id) => Ok(MetadataView { parent: Some(id), ..m }),
    }
}

/// `m` after one more piece of the line.
pub open spec fn after_segment(m: MetadataView, segment: Seq<char>, clock: DueClock) -> Result<
    MetadataView,
    Seq<char>,
> {
    match field_of(segment) {
        Err(e) => Err(e),
        Ok(None) => Ok(m),
        Ok(Some(field)) => with_field(m, field, clock),
    }
}

/// The title of a line: what stands before the first `/`, trimmed.
pub open spec fn title_of(input: Seq<char>) -> Seq<char> {
    trim(input.take(index_of(input, '/')))
}

/// The metadata after the title and the first `n` pieces behind it, where
/// `clocks[k]` is what the machine answers at piece `k`.
pub open spec fn metadata_after(pieces: Seq<Seq<char>>, clocks: Seq<DueClock>, n: int) -> Result<
    MetadataView,
    Seq<char>,
>
    decreases n,
{
    if n <= 0 {
        let title = trim(pieces[0]);
        if title.len() == 0 {
            Err("Task title cannot be empty"@)
        } else {
            Ok(MetadataView::new(title))
        }
    } else {
        match metadata_after(pieces, clocks, n - 1) {
            Err(e) => Err(e),
            Ok(m) => after_segment(m, pieces[n], clocks[n]),
        }
    }
}

/// What a line says, where `clocks[k]` is what the machine answers at the
/// `k`-th piece behind the title.
pub open spec fn metadata_of(input: Seq<char>, clocks: Seq<DueClock>) -> Result<
    MetadataView,
    Seq<char>,
> {
    let pieces = split(input, '/');
    metadata_after(pieces, clocks, pieces.len() - 1)
}

/// Only the answers up to piece `n` matter to [`metadata_after`].
pub proof fn lemma_metadata_after_clocks(
    pieces: Seq<Seq<char>>,
    a: Seq<DueClock>,
    b: Seq<DueClock>,
    n: int,
)
    requires
        forall|k: int| 1 <= k <= n ==> a[k] == b[k],
    ensures
        metadata_after(pieces, a, n) == metadata_after(pieces, b, n),
    decreases n,
{
    if n > 0 {
        lemma_metadata_after_clocks(pieces, a, b, n - 1);
    }
}

/// The view of what reading a piece gave.
pub open spec fn segment_view(r: Result<Option<MetadataField>, String>) -> Result<
    Option<FieldView>,
    Seq<char>,
> {
    match r {
        Ok(Some(field)) => Ok(Some(field@)),
        Ok(None) => Ok(None),
        Err(message) => Err(message@),
    }
}

/// The labels among `pieces`: each trimmed, the empty ones left out.
fn collect_tags(pieces: &Vec<Vec<char>>) -> (r: Vec<String>)
    ensures
        r.deep_view() == clean_tags(texts(pieces@)),
{
    let mut r: Vec<String> = Vec::new();
    let mut i: usize = 0;
    while i < pieces.len()
        invariant
            i <= pieces.len(),
            r.deep_view() == clean_tags(texts(pieces@).take(i as int)),
        decreases pieces.len() - i,
    {
        let label = trimmed(&pieces[i]);
        proof {
            let all = texts(pieces@);
            let upto = all.take(i + 1);
            assert(upto.drop_last() =~= all.take(i as int));
        }
        if label.len() > 0 {
            r.push(string_of(&label));
        }
        i += 1;
    }
    assert(texts(pieces@).take(pieces.len() as int) =~= texts(pieces@));
    r
}

/// Reads one piece of a line: see [`field_of`].
pub fn parse_segment(segment: &str) -> (r: Result<Option<MetadataField>, String>)
    ensures
        segment_view(r) == field_of(segment@),
{
    let raw = chars_of(segment);
    read_segment(&raw)
}

/// [`parse_segment`] on characters.
fn read_segment(segment: &Vec<char>) -> (r: Result<Option<MetadataField>, String>)
    ensures
        segment_view(r) == field_of(segment@),
{
    let part = trimmed(segment);
    if part.len() == 0 {
        return Ok(None);
    }
    let cut = find_whitespace(&part);
    if cut >= part.len() {
        return Err(prefixed("Invalid metadata format: /", &part));
    }
    let key = slice_of(&part, 0, cut);
    let value = slice_of(&part, cut + 1, part.len());
    if same_text(&key, "p") || same_text(&key, "priority") {
        Ok(Some(MetadataField::Priority(string_of(&value))))
    } else if same_text(&key, "due") {
        Ok(Some(MetadataField::Due(string_of(&value))))
    } else if same_text(&key, "tag") || same_text(&key, "tags") {
        let pieces = split_chars(&value, ',');
        Ok(Some(MetadataField::Tags(collect_tags(&pieces))))
    } else if same_text(&key, "est") || same_text(&key, "estimate") {
        Ok(Some(MetadataField::Estimate(string_of(&value))))
    } else if same_text(&key, "parent") {
        match parse_u32_chars(&value) {
            Some(id) => Ok(Some(MetadataField::Parent(id))),
            None => Err(prefixed("Invalid parent ID: ", &value)),
        }
    } else {
        Err(prefixed("Unknown metadata key: ", &key))
    }
}

/// Reads a line of slash metadata.
///
/// The result is what [`metadata_of`] gives for the line and for what the
/// machine answered, piece by piece, where a due date had to be resolved. A
/// due date is the last second, 23:59:59, of the day written, in the
/// machine's time zone. Every other part of the result is a function of the
/// line alone.
///
/// Panics where a due date is written without a year and the clock stands
/// before 1970.
pub fn parse_slash_metadata(input: &str) -> (r: Result<TaskMetadata, String>)
    ensures
        exists|clocks: Seq<DueClock>|
            clocks_fit(input@, clocks) && #[trigger] metadata_of(input@, clocks) == result_view(r),
        r matches Ok(m) ==> m.title@ == title_of(input@) && m.title@.len() > 0,
{
    let line = chars_of(input);
    let pieces = split_chars(&line, '/');
    let ghost all = split(input@, '/');
    let ghost idle = DueClock { year: 0, moment: LocalMoment::Invalid };
    let ghost mut clocks: Seq<DueClock> = Seq::new(all.len(), |k: int| idle);
    proof {
        lemma_split_shape(input@, '/');
    }
    let title = trimmed(&pieces[0]);
    if title.len() == 0 {
        let r = Err("Task title cannot be empty".to_owned());
        proof {
            lemma_metadata_stops(all, clocks, 0, all.len() - 1);
            assert(metadata_of(input@, clocks) == result_view(r));
        }
        return r;
    }
    let mut metadata = TaskMetadata::new(string_of(&title));
    let mut i: usize = 1;
    while i < pieces.len()
        invariant
            1 <= i <= pieces.len(),
            all == split(input@, '/'),
            all == texts(pieces@),
            clocks_fit(input@, clocks),
            metadata_after(all, clocks, i - 1) == Ok::<MetadataView, Seq<char>>(metadata@),
            metadata.title@ == title_of(input@),
            metadata.title@.len() > 0,
        decreases pieces.len() - i,
    {
        let ghost before = clocks;
        let field = read_segment(&pieces[i]);
        match field {
            Err(e) => {
                let r = Err(e);
                proof {
                    lemma_metadata_stops(all, clocks, i as int, all.len() - 1);
                    assert(metadata_of(input@, clocks) == result_view(r));
                }
                return r;
            },
            Ok(None) => {},
            Ok(Some(MetadataField::Priority(v))) => {
                metadata.priority = Some(v);
            },
            Ok(Some(MetadataField::Due(v))) => {
                let due = parse_due_date(v.as_str());
                proof {
                    let (year, moment) = choose|year: int, moment: LocalMoment|
                        end_of_day_fits(due_date_of(v@, year), moment) && #[trigger] due_date_result(
                            v@,
                            due_date_of(v@, year),
                            moment,
                        ) == result_view(due);
                    clocks = before.update(i as int, DueClock { year, moment });
                    lemma_metadata_after_clocks(all, before, clocks, i - 1);
                }
                match due {
                    Ok(seconds) => {
                        metadata.due_date = Some(seconds);
                    },
                    Err(e) => {
                        let r = Err(e);
                        proof {
                            lemma_metadata_stops(all, clocks, i as int, all.len() - 1);
                            assert(metadata_of(input@, clocks) == result_view(r));
                        }
                        return r;
                    },
                }
            },
            Ok(Some(MetadataField::Tags(v))) => {
                metadata.tags = v;
            },
            Ok(Some(MetadataField::Estimate(v))) => {
                metadata.estimate = Some(v);
            },
            Ok(Some(MetadataField::Parent(id))) => {
                metadata.parent = Some(id);
            },
        }
        i += 1;
    }
    let r = Ok(metadata);
    assert(metadata_of(input@, clocks) == result_view(r));
    r
}

/// Once a piece has failed, the pieces behind it change nothing.
pub proof fn lemma_metadata_stops(pieces: Seq<Seq<char>>, clocks: Seq<DueClock>, n: int, m: int)
    requires
        n <= m,
        metadata_after(pieces, clocks, n) is Err,
    ensures
        metadata_after(pieces, clocks, m) == metadata_after(pieces, clocks, n),
    decreases m - n,
{
    if n < m {
        lemma_metadata_stops(pieces, clocks, n, m - 1);
    }
}

/// Whether the piece `segment` gave the due date `seconds` under `clock`: it
/// is a due date, it writes a day, and `seconds` is 23:59:59 of that day
/// less the offset of the time zone, which is less than a day.
pub open spec fn is_due_from(segment: Seq<char>, clock: DueClock, seconds: i64) -> bool {
    &&& field_of(segment) matches Ok(Some(FieldView::Due(v)))
    &&& due_date_of(v, clock.year) matches Some(day)
    &&& clock.moment matches LocalMoment::At { seconds: at, offset }
    &&& at == seconds
    &&& seconds + offset == civil_seconds(day, 23, 59, 59)
    &&& -86_400 < offset < 86_400
}

/// The due date that a line gives is the end of the day that one of its
/// pieces writes: 23:59:59 of that day in the machine's time zone.
pub proof fn lemma_due_is_end_of_day(input: Seq<char>, clocks: Seq<DueClock>)
    requires
        clocks_fit(input, clocks),
    ensures
        metadata_of(input, clocks) matches Ok(m) ==> (m.due_date matches Some(seconds)
            ==> exists|k: int|
            1 <= k < split(input, '/').len() && #[trigger] is_due_from(
                split(input, '/')[k],
                clocks[k],
                seconds,
            )),
{
    let pieces = split(input, '/');
    lemma_due_after(pieces, clocks, pieces.len() - 1);
}

/// [`lemma_due_is_end_of_day`] after the first `n` pieces.
proof fn lemma_due_after(pieces: Seq<Seq<char>>, clocks: Seq<DueClock>, n: int)
    requires
        n < pieces.len(),
        forall|k: int| 1 <= k < pieces.len() ==> #[trigger] clock_fits(pieces[k], clocks[k]),
    ensures
        metadata_after(pieces, clocks, n) matches Ok(m) ==> (m.due_date matches Some(seconds)
            ==> exists|k: int|
            1 <= k <= n && #[trigger] is_due_from(pieces[k], clocks[k], seconds)),
    decreases n,
{
    if n > 0 {
        lemma_due_after(pieces, clocks, n - 1);
        match metadata_after(pieces, clocks, n) {
            Ok(m) => {
                if m.due_date is Some {
                    let seconds = m.due_date->0;
                    assert(clock_fits(pieces[n], clocks[n]));
                    if field_of(pieces[n]) matches Ok(Some(FieldView::Due(v))) {
                        assert(is_due_from(pieces[n], clocks[n], seconds));
                    } else {
                        let k = choose|k: int|
                            1 <= k <= n - 1 && #[trigger] is_due_from(pieces[k], clocks[k], seconds);
                    }
                }
            },
            Err(_) => {},
        }
    }
}

} // verus!
