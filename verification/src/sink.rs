//! The record that the sink receives for one matched transaction.

use vstd::prelude::*;
use vstd::string::{StrSliceExecFns, StringSliceAdditionalSpecFns};

verus! {

/// The line terminator of the sink: a line feed.
pub const LINE_FEED: u8 = 10u8;

/// The bytes to append to the sink for one line: the line's text in UTF-8,
/// then one line feed. Nothing stands before the text and nothing after the
/// terminator.
pub fn sink_record(line: &str) -> (record: Vec<u8>)
    ensures
        record@ == line.spec_bytes().push(LINE_FEED),
{
    let mut record = line.as_bytes_vec();
    record.push(LINE_FEED);
    record
}

} // verus!
