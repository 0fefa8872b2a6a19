//! Sequential scan of a closed range of blocks for transactions whose
//! canonical hash text starts with one of a configured list of prefixes.
//!
//! The library holds the decisions of the scan as a state machine
//! ([`scanner::Scanner`]): it says what to fetch next, takes the reply, and
//! says which line, if any, must be appended to the sink. The caller performs
//! the fetches and the writes.

pub mod hash;
pub mod laws;
pub mod prefix;
pub mod scanner;
pub mod sink;
