//! The CSV record sink: a thin trusted rim around the csv crate's
//! writer, configured to quote every field.
//!
//! What one written record looks like is stated exactly:
//! [`spec_csv_record`] gives the quoting, joining and termination that
//! the crate's always-quote style performs.  The writer checks record
//! lengths: the first record written fixes the expected field count,
//! and a later record of another length is refused — [`csv_expected`]
//! models that state, so success is stated exactly too.

use vstd::prelude::*;

verus! {

/// A field as it stands inside a record: wrapped in double quotes,
/// inner double quotes doubled.
pub open spec fn spec_csv_escaped(s: Seq<char>) -> Seq<char>
    decreases s.len(),
{
    if s.len() == 0 {
        Seq::empty()
    } else if s.last() == '"' {
        spec_csv_escaped(s.drop_last()).push('"').push('"')
    } else {
        spec_csv_escaped(s.drop_last()).push(s.last())
    }
}

/// One quoted field.
pub open spec fn spec_csv_field(s: Seq<char>) -> Seq<char> {
    seq!['"'] + spec_csv_escaped(s) + seq!['"']
}

/// One record: every field quoted, fields joined by commas, a newline
/// at the end.  A record of no fields is written as a single empty
/// field before the terminator.
pub open spec fn spec_csv_record(fields: Seq<Seq<char>>) -> Seq<char>
    decreases fields.len(),
{
    if fields.len() == 0 {
        seq!['"', '"', '\n']
    } else if fields.len() == 1 {
        spec_csv_field(fields[0]) + seq!['\n']
    } else {
        spec_csv_field(fields[0]) + seq![','] + spec_csv_record(fields.drop_first())
    }
}

/// An in-memory CSV writer of the csv crate, with the always-quote
/// style. Its accumulated text is modelled by [`csv_written`] and its
/// expected record length by [`csv_expected`].
#[verifier::external_body]
pub struct CsvSink {
    inner: csv::Writer<Vec<u8>>,
}

/// The text the sink has accumulated.
pub uninterp spec fn csv_written(w: CsvSink) -> Seq<char>;

/// The field count the sink expects of every further record: fixed by
/// the first record written, open before it.
pub uninterp spec fn csv_expected(w: CsvSink) -> Option<int>;

impl CsvSink {
    /// Relies on csv's `WriterBuilder`: a fresh writer over an empty
    /// buffer, quoting every field, has written nothing and has no
    /// record length fixed yet.
    #[verifier::external_body]
    pub(crate) fn new() -> (r: CsvSink)
        ensures
            csv_written(r) == Seq::<char>::empty(),
            csv_expected(r) == Option::<int>::None,
    {
        CsvSink {
            inner: csv::WriterBuilder::new().quote_style(csv::QuoteStyle::Always).from_writer(
                Vec::new(),
            ),
        }
    }

    /// Relies on csv's `Writer::write_record` under the always-quote
    /// style with the default comma delimiter, `"` quote, doubled
    /// quote escape and `\n` terminator: a record whose length matches
    /// what the first record fixed is accepted and appended as
    /// [`spec_csv_record`] states.  A record of another length would be
    /// refused only at its terminator, leaving stray fields in the
    /// buffer, so such a call is kept out by the precondition.
    #[verifier::external_body]
    pub(crate) fn write_record(&mut self, fields: &Vec<String>) -> (ok: bool)
        requires
            fields@.len() > 0,
            csv_expected(*old(self)) is None || csv_expected(*old(self)) == Option::Some(
                fields@.len() as int,
            ),
        ensures
            ok == true,
            csv_written(*final(self)) == csv_written(*old(self)) + spec_csv_record(
                fields@.map_values(|f: String| f@),
            ),
            csv_expected(*final(self)) == Option::Some(fields@.len() as int),
    {
        self.inner.write_record(fields).is_ok()
    }

    /// Relies on csv's `Writer::into_inner`: the buffer holds exactly
    /// the accumulated text.  Flushing into memory cannot fail, and
    /// the crate writes the UTF-8 encoding of the text it was handed.
    #[verifier::external_body]
    pub(crate) fn finish(self) -> (r: String)
        ensures
            r@ == csv_written(self),
    {
        let buffer = match self.inner.into_inner() {
            Ok(buffer) => buffer,
            Err(_) => Vec::new(),
        };
        String::from_utf8_lossy(&buffer).into_owned()
    }
}

} // verus!
