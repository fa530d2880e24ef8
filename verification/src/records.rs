//! Tabular text with a heading, read by the rules of the `csv` crate:
//! quoted fields, and records that must all have as many fields as the
//! first.
use crate::files::{blank, is_blank};
use crate::ingest::Field;
use crate::scalar::Scalar;
use vstd::prelude::*;

verus! {

#[verifier::external_type_specification]
#[verifier::external_body]
pub struct ExCsvError(csv::Error);

/// The records that the `csv` crate reads from a text with a heading, each
/// as the texts of its fields, without the heading; none where the crate
/// reports the text as malformed.
pub uninterp spec fn csv_rows(content: Seq<char>) -> Option<Seq<Seq<Seq<char>>>>;

/// Why a text gives no records.
#[derive(Debug)]
pub enum RecordsError {
    /// The text is malformed; the account is that of the `csv` crate.
    Malformed(String),
}

/// The texts of the fields of records.
pub open spec fn texts(rows: Seq<Vec<String>>) -> Seq<Seq<Seq<char>>> {
    Seq::new(rows.len(), |i: int| Seq::new(rows[i]@.len(), |j: int| rows[i]@[j]@))
}

/// Reads the records of a text with a heading.
///
/// Calls `csv::ReaderBuilder::new().has_headers(true).from_reader(..)` on
/// the bytes of the text and walks `Reader::records`, copying the fields of
/// each record. What is claimed: the outcome is the one that the crate
/// determines for this text, which `csv_rows` names; a failure of the
/// crate on any record is the failure of the whole.
#[verifier::external_body]
fn read_csv(content: &str) -> (r: Result<Vec<Vec<String>>, csv::Error>)
    ensures
        match r {
            Ok(rows) => csv_rows(content@) == Some(texts(rows@)),
            Err(_) => csv_rows(content@) is None,
        },
{
    let mut reader = csv::ReaderBuilder::new().has_headers(true).from_reader(content.as_bytes());
    let mut rows = Vec::new();
    for result in reader.records() {
        let record = result?;
        rows.push(record.iter().map(|field| field.to_string()).collect());
    }
    Ok(rows)
}

/// The account of a failure of the `csv` crate.
///
/// Calls `ToString::to_string` on the error, which goes through its
/// `Display`. Nothing is claimed of the text.
#[verifier::external_body]
fn csv_error_account(error: &csv::Error) -> (account: String) {
    error.to_string()
}

/// The records of a text with a heading, each as the texts of its fields,
/// without the heading. A text that the `csv` crate reports as malformed
/// gives none.
pub fn read_records(content: &str) -> (r: Result<Vec<Vec<String>>, RecordsError>)
    ensures
        r is Ok <==> csv_rows(content@) is Some,
        r is Ok ==> csv_rows(content@) == Some(texts(r->Ok_0@)),
{
    match read_csv(content) {
        Ok(rows) => Ok(rows),
        Err(error) => Err(RecordsError::Malformed(csv_error_account(&error))),
    }
}

/// The fields of a record, given the number that each of its texts reads
/// as, where it reads as one: a text that is white space throughout is
/// blank whatever it reads as.
pub fn classify_record(cells: &Vec<String>, numbers: &Vec<Option<Scalar>>) -> (fields: Vec<Field>)
    requires
        cells@.len() == numbers@.len(),
    ensures
        fields@.len() == cells@.len(),
        forall|i: int|
            0 <= i < cells@.len() ==> (#[trigger] fields@[i]) == if is_blank(cells@[i]@) {
                Field::Blank
            } else {
                match numbers@[i] {
                    Some(v) => Field::Number(v),
                    None => Field::Text,
                }
            },
{
    let mut fields: Vec<Field> = Vec::new();
    let mut i: usize = 0;
    while i < cells.len()
        invariant
            i <= cells@.len(),
            cells@.len() == numbers@.len(),
            fields@.len() == i,
            forall|k: int|
                0 <= k < i ==> (#[trigger] fields@[k]) == if is_blank(cells@[k]@) {
                    Field::Blank
                } else {
                    match numbers@[k] {
                        Some(v) => Field::Number(v),
                        None => Field::Text,
                    }
                },
        decreases cells@.len() - i,
    {
        fields.push(Field::classify(blank(cells[i].as_str()), numbers[i]));
        i += 1;
    }
    fields
}

} // verus!
