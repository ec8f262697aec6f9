//! The persistence adapter: a grid from delimited text, and delimited text
//! from a grid. The `csv` crate tokenizes and writes the records; the loops
//! that drive it are verified against what is stated of it here.

use crate::grid::{row_text, rows_text, Grid};
use vstd::prelude::*;

verus! {

/// `csv::Reader`, a reader of records from a source of bytes.
#[verifier::external_type_specification]
#[verifier::external_body]
#[verifier::reject_recursive_types(R)]
pub struct ExReader<R>(csv::Reader<R>);

/// A `csv::Writer` that writes records into a vector of bytes.
#[verifier::external_body]
pub struct RecordWriter {
    inner: csv::Writer<Vec<u8>>,
}

/// `csv::Error`, the error of the `csv` crate's readers and writers.
#[verifier::external_type_specification]
#[verifier::external_body]
pub struct ExError(csv::Error);

/// What a `csv` reader built with the given options yields, record by record,
/// on the input `bytes`: the fields of the record, or `None` where the reader
/// reports an error for it.
pub uninterp spec fn csv_outcomes(bytes: Seq<u8>, has_headers: bool, flexible: bool) -> Seq<
    Option<Seq<Seq<char>>>,
>;

/// What a reader has yet to yield, in the form of `csv_outcomes`.
pub uninterp spec fn unread(rdr: csv::Reader<&[u8]>) -> Seq<Option<Seq<Seq<char>>>>;

/// The bytes that a `csv` writer makes of one record, written from the start
/// of a record: its fields, quoted where they need it and separated by
/// commas, and the record terminator.
pub uninterp spec fn csv_record(fields: Seq<Seq<char>>) -> Seq<u8>;

/// The bytes that a writer has produced so far.
pub uninterp spec fn written(wtr: RecordWriter) -> Seq<u8>;

/// Whether a writer was made to take records of any length.
pub uninterp spec fn flexible_writer(wtr: RecordWriter) -> bool;

/// `csv::ReaderBuilder::from_reader` on a slice of bytes, after `has_headers`
/// and `flexible` were set as given: the reader will yield what `csv_outcomes`
/// names for that input and those options.
#[verifier::external_body]
fn open_reader<'a>(bytes: &'a [u8], has_headers: bool, flexible: bool) -> (rdr: csv::Reader<
    &'a [u8],
>)
    ensures
        unread(rdr) == csv_outcomes(bytes@, has_headers, flexible),
{
    csv::ReaderBuilder::new().has_headers(has_headers).flexible(flexible).from_reader(bytes)
}

/// `csv::Reader::records` and one `next` on it: at the end of the input it
/// returns `None`; else it takes the next record off the reader and returns
/// its fields as strings, or the reader's error for that record.
#[verifier::external_body]
fn next_record(rdr: &mut csv::Reader<&[u8]>) -> (r: Option<Result<Vec<String>, csv::Error>>)
    ensures
        unread(*old(rdr)).len() == 0 ==> r is None,
        unread(*old(rdr)).len() > 0 ==> {
            &&& unread(*final(rdr)) == unread(*old(rdr)).skip(1)
            &&& match unread(*old(rdr))[0] {
                Some(fields) => r matches Some(Ok(row)) && row_text(row@) == fields,
                None => r matches Some(Err(_)),
            }
        },
{
    rdr.records().next().map(|rec| rec.map(|rec| rec.iter().map(|f| f.to_string()).collect()))
}

/// `csv::WriterBuilder::from_writer` on an empty vector of bytes, after
/// `has_headers` and `flexible` were set as given: a writer that has produced
/// nothing yet, and that takes records of any length if and only if
/// `flexible` was set.
#[verifier::external_body]
fn new_writer(has_headers: bool, flexible: bool) -> (wtr: RecordWriter)
    ensures
        written(wtr) == Seq::<u8>::empty(),
        flexible_writer(wtr) == flexible,
{
    let mut builder = csv::WriterBuilder::new();
    builder.has_headers(has_headers).flexible(flexible);
    RecordWriter { inner: builder.from_writer(Vec::new()) }
}

/// `csv::Writer::write_record`. The writer stays as flexible as it was made.
/// A writer that takes records of any length skips the check of the record's
/// length, and its sink is a vector of bytes, which takes every write: so on
/// such a writer the call succeeds, and the writer has produced the bytes of
/// that record after what it had produced before. Of a writer that checks
/// the length nothing more is claimed.
#[verifier::external_body]
fn write_record(wtr: &mut RecordWriter, row: &Vec<String>) -> (r: Result<(), csv::Error>)
    ensures
        flexible_writer(*final(wtr)) == flexible_writer(*old(wtr)),
        flexible_writer(*old(wtr)) ==> r is Ok && written(*final(wtr)) == written(*old(wtr))
            + csv_record(row_text(row@)),
{
    wtr.inner.write_record(row)
}

/// `csv::Writer::into_inner`: it flushes the writer into its sink, a vector
/// of bytes, which takes every write, and returns that vector: so it
/// succeeds, with the bytes that the writer has produced. The type of its
/// error is turned into `csv::Error`.
#[verifier::external_body]
fn into_bytes(wtr: RecordWriter) -> (r: Result<Vec<u8>, csv::Error>)
    ensures
        r is Ok,
        r matches Ok(bytes) ==> bytes@ == written(wtr),
{
    wtr.inner.into_inner().map_err(|e| csv::Error::from(e.into_error()))
}

/// The content could not be tokenized.
#[derive(Clone, Copy, Debug, PartialEq, Eq)]
pub struct ParseError;

/// The grid could not be written as delimited text.
#[derive(Clone, Copy, Debug, PartialEq, Eq)]
pub struct SaveError;

/// Whether every record of the input could be read.
pub open spec fn all_read(outcomes: Seq<Option<Seq<Seq<char>>>>) -> bool {
    forall|i: int| 0 <= i < outcomes.len() ==> (#[trigger] outcomes[i]) is Some
}

/// The records of an input of which every record could be read.
pub open spec fn records_of(outcomes: Seq<Option<Seq<Seq<char>>>>) -> Seq<Seq<Seq<char>>> {
    Seq::new(outcomes.len(), |i: int| outcomes[i].unwrap())
}

/// The grid that delimited text holds: one row for each record and one cell
/// for each field, in their order; the first line is data, and records may
/// differ in length. `None` where some record cannot be read.
pub open spec fn parsed(bytes: Seq<u8>) -> Option<Seq<Seq<Seq<char>>>> {
    let outcomes = csv_outcomes(bytes, false, true);
    if all_read(outcomes) {
        Some(records_of(outcomes))
    } else {
        None
    }
}

/// The delimited text of a grid: the bytes of its rows, one record each, in
/// their order. No row is padded.
pub open spec fn csv_text(rows: Seq<Seq<Seq<char>>>) -> Seq<u8>
    decreases rows.len(),
{
    if rows.len() == 0 {
        Seq::empty()
    } else {
        csv_text(rows.drop_last()) + csv_record(rows.last())
    }
}

/// Reads a grid from delimited text.
pub fn load_csv(bytes: &[u8]) -> (r: Result<Grid, ParseError>)
    ensures
        match parsed(bytes@) {
            Some(rows) => r matches Ok(grid) && grid@ == rows,
            None => r is Err,
        },
{
    let mut rdr = open_reader(bytes, false, true);
    let mut out: Vec<Vec<String>> = Vec::new();
    let ghost outcomes = csv_outcomes(bytes@, false, true);
    loop
        invariant
            outcomes == csv_outcomes(bytes@, false, true),
            out.len() <= outcomes.len(),
            unread(rdr) == outcomes.skip(out.len() as int),
            all_read(outcomes.take(out.len() as int)),
            rows_text(out@) == records_of(outcomes.take(out.len() as int)),
        decreases unread(rdr).len(),
    {
        let ghost n = out.len() as int;
        match next_record(&mut rdr) {
            None => {
                proof {
                    assert(outcomes.take(n) =~= outcomes);
                }
                return Ok(Grid::from_rows(out));
            },
            Some(Err(_)) => {
                proof {
                    assert(outcomes[n] == outcomes.skip(n)[0]);
                }
                return Err(ParseError);
            },
            Some(Ok(row)) => {
                let ghost before = out@;
                out.push(row);
                proof {
                    assert(outcomes[n] == outcomes.skip(n)[0]);
                    assert(outcomes.skip(n).skip(1) =~= outcomes.skip(n + 1));
                    assert forall|i: int| 0 <= i < n + 1 implies (#[trigger] outcomes.take(
                        n + 1,
                    )[i]) is Some by {
                        if i < n {
                            assert(outcomes.take(n)[i] is Some);
                        }
                    }
                    assert forall|i: int| 0 <= i < n + 1 implies rows_text(out@)[i] == records_of(
                        outcomes.take(n + 1),
                    )[i] by {
                        if i < n {
                            assert(rows_text(before)[i] == records_of(outcomes.take(n))[i]);
                        }
                    }
                    assert(rows_text(out@) =~= records_of(outcomes.take(n + 1)));
                }
            },
        }
    }
}

/// Writes a grid as delimited text: every grid has one, whatever the lengths
/// of its rows, so this succeeds on every grid.
pub fn save_csv(grid: &Grid) -> (r: Result<Vec<u8>, SaveError>)
    ensures
        r matches Ok(bytes) && bytes@ == csv_text(grid@),
{
    let rows = grid.rows();
    let mut wtr = new_writer(false, true);
    let mut i: usize = 0;
    while i < rows.len()
        invariant
            i <= rows.len(),
            rows_text(rows@) == grid@,
            flexible_writer(wtr),
            written(wtr) == csv_text(grid@.take(i as int)),
        decreases rows.len() - i,
    {
        proof {
            let next = grid@.take(i + 1);
            assert(next.drop_last() =~= grid@.take(i as int));
            assert(next.last() == row_text(rows@[i as int]@));
        }
        match write_record(&mut wtr, &rows[i]) {
            Ok(()) => {},
            Err(_) => {
                return Err(SaveError);
            },
        }
        i += 1;
    }
    proof {
        assert(grid@.take(i as int) =~= grid@);
    }
    match into_bytes(wtr) {
        Ok(bytes) => Ok(bytes),
        Err(_) => Err(SaveError),
    }
}

} // verus!
