//! Tabular text, split into records and fields.
//!
//! A text is a run of bytes. Its records are its lines: a line ends at a
//! line feed or at the end of the text, and a carriage return before the
//! line feed belongs to the line ending. The fields of a record lie
//! between its commas. Reading a field as a number is left to the caller.
use vstd::prelude::*;

verus! {

pub const LINE_FEED: u8 = 0x0a;

pub const CARRIAGE_RETURN: u8 = 0x0d;

pub const COMMA: u8 = 0x2c;

/// The bytes of a text from `start` up to, not including, `end`.
#[derive(Clone, Copy, Debug, PartialEq, Eq, Structural)]
pub struct Span {
    pub start: usize,
    pub end: usize,
}

/// The fields of a record that ends at `to`, seen from place `at` of a
/// field that began at `start`: a comma ends the field and begins the
/// next, and the end of the record ends the last field.
pub open spec fn fields_from(text: Seq<u8>, start: int, at: int, to: int) -> Seq<(int, int)>
    decreases to - at,
{
    if at >= to {
        seq![(start, to)]
    } else if text[at] == COMMA {
        seq![(start, at)] + fields_from(text, at + 1, at + 1, to)
    } else {
        fields_from(text, start, at + 1, to)
    }
}

/// The fields of the record in `from..to`, each as the places where it
/// begins and ends. A record without a comma is one field.
pub open spec fn fields_of(text: Seq<u8>, from: int, to: int) -> Seq<(int, int)> {
    fields_from(text, from, from, to)
}

/// Where a line that began at `start` stops when a line feed at `at`
/// ends it: at the line feed, or one byte earlier where a carriage return
/// stands before it.
pub open spec fn line_stop(text: Seq<u8>, start: int, at: int) -> int {
    if at > start && text[at - 1] == CARRIAGE_RETURN {
        at - 1
    } else {
        at
    }
}

/// The records of a text, seen from place `at` of a line that began at
/// `start`: a line feed ends the line and begins the next; the end of the
/// text ends the last line, which is no record when nothing follows the
/// last line feed.
pub open spec fn records_from(text: Seq<u8>, start: int, at: int) -> Seq<Seq<(int, int)>>
    decreases text.len() - at,
{
    if at >= text.len() {
        if start >= text.len() {
            Seq::empty()
        } else {
            seq![fields_of(text, start, text.len() as int)]
        }
    } else if text[at] == LINE_FEED {
        seq![fields_of(text, start, line_stop(text, start, at))] + records_from(
            text,
            at + 1,
            at + 1,
        )
    } else {
        records_from(text, start, at + 1)
    }
}

/// The records of a text, each as its fields.
pub open spec fn records_of(text: Seq<u8>) -> Seq<Seq<(int, int)>> {
    records_from(text, 0, 0)
}

/// The places that spans name.
pub open spec fn places(spans: Seq<Span>) -> Seq<(int, int)> {
    Seq::new(spans.len(), |i: int| (spans[i].start as int, spans[i].end as int))
}

/// The places that the fields of records name.
pub open spec fn record_places(records: Seq<Vec<Span>>) -> Seq<Seq<(int, int)>> {
    Seq::new(records.len(), |i: int| places(records[i]@))
}

/// The fields of the record in `from..to`.
pub fn split_fields(text: &[u8], from: usize, to: usize) -> (fields: Vec<Span>)
    requires
        from <= to <= text@.len(),
    ensures
        places(fields@) == fields_of(text@, from as int, to as int),
{
    let mut fields: Vec<Span> = Vec::new();
    let mut start = from;
    let mut at = from;
    assert(places(fields@) + fields_from(text@, start as int, at as int, to as int) =~= fields_of(
        text@,
        from as int,
        to as int,
    ));
    while at < to
        invariant
            from <= start <= at <= to <= text@.len(),
            places(fields@) + fields_from(text@, start as int, at as int, to as int) == fields_of(
                text@,
                from as int,
                to as int,
            ),
        decreases to - at,
    {
        if text[at] == COMMA {
            let ghost before = places(fields@);
            fields.push(Span { start, end: at });
            assert(places(fields@) =~= before + seq![(start as int, at as int)]);
            assert(places(fields@) + fields_from(text@, at + 1, at + 1, to as int) =~= fields_of(
                text@,
                from as int,
                to as int,
            ));
            start = at + 1;
        }
        at += 1;
    }
    let ghost before = places(fields@);
    fields.push(Span { start, end: to });
    assert(places(fields@) =~= before + seq![(start as int, to as int)]);
    fields
}

/// The records of a text, each as its fields.
pub fn split_records(text: &[u8]) -> (records: Vec<Vec<Span>>)
    ensures
        record_places(records@) == records_of(text@),
{
    let n = text.len();
    let mut records: Vec<Vec<Span>> = Vec::new();
    let mut start: usize = 0;
    let mut at: usize = 0;
    assert(record_places(records@) + records_from(text@, 0, 0) =~= records_of(text@));
    while at < n
        invariant
            n == text@.len(),
            start <= at <= n,
            record_places(records@) + records_from(text@, start as int, at as int) == records_of(
                text@,
            ),
        decreases n - at,
    {
        if text[at] == LINE_FEED {
            let stop = if at > start && text[at - 1] == CARRIAGE_RETURN {
                at - 1
            } else {
                at
            };
            let ghost before = record_places(records@);
            let fields = split_fields(text, start, stop);
            records.push(fields);
            assert(record_places(records@) =~= before + seq![
                fields_of(text@, start as int, stop as int),
            ]);
            assert(record_places(records@) + records_from(text@, at + 1, at + 1) =~= records_of(
                text@,
            ));
            start = at + 1;
        }
        at += 1;
    }
    if start < n {
        let ghost before = record_places(records@);
        let fields = split_fields(text, start, n);
        records.push(fields);
        assert(record_places(records@) =~= before + seq![fields_of(text@, start as int, n as int)]);
    }
    assert(record_places(records@) =~= records_of(text@));
    records
}

/// Every field of a record lies within the record and holds no comma.
pub proof fn lemma_fields_hold_no_comma(text: Seq<u8>, start: int, at: int, to: int, k: int)
    requires
        0 <= start <= at <= to <= text.len(),
        forall|i: int| start <= i < at ==> text[i] != COMMA,
        0 <= k < fields_from(text, start, at, to).len(),
    ensures
        ({
            let field = fields_from(text, start, at, to)[k];
            &&& start <= field.0 <= field.1 <= to
            &&& forall|i: int| field.0 <= i < field.1 ==> text[i] != COMMA
        }),
    decreases to - at,
{
    if at < to {
        if text[at] == COMMA {
            if k > 0 {
                lemma_fields_hold_no_comma(text, at + 1, at + 1, to, k - 1);
            }
        } else {
            lemma_fields_hold_no_comma(text, start, at + 1, to, k);
        }
    }
}

/// The number of commas in `at..to`.
pub open spec fn commas_in(text: Seq<u8>, at: int, to: int) -> nat
    decreases to - at,
{
    if at >= to {
        0
    } else if text[at] == COMMA {
        1 + commas_in(text, at + 1, to)
    } else {
        commas_in(text, at + 1, to)
    }
}

/// A record has one field more than it has commas.
pub proof fn lemma_one_field_more_than_commas(text: Seq<u8>, start: int, at: int, to: int)
    requires
        0 <= start <= at <= to <= text.len(),
    ensures
        fields_from(text, start, at, to).len() == 1 + commas_in(text, at, to),
    decreases to - at,
{
    if at < to {
        if text[at] == COMMA {
            lemma_one_field_more_than_commas(text, at + 1, at + 1, to);
        } else {
            lemma_one_field_more_than_commas(text, start, at + 1, to);
        }
    }
}

} // verus!
