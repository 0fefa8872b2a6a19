//! The range scanner: a state machine that walks a closed range of blocks in
//! ascending order, asks for every transaction of every block in the order the
//! block lists them, and decides for each fetched transaction whether its
//! canonical hash text is to be recorded.
//!
//! The scanner performs no fetch and no write. It hands out a [`Request`],
//! takes the reply, and returns an [`Outcome`]: the line to append, if any, a
//! diagnostic, if any, and the next request.

use crate::hash::{canonical_text, h256_debug_text, TxHash};
use crate::prefix::{any_prefix_of, matches_any, texts};
use vstd::prelude::*;

verus! {

/// What a fetch came back with.
#[derive(Debug, PartialEq, Eq)]
pub enum Fetched<T> {
    /// The node has the item.
    Found(T),
    /// The node answered, and has no such item.
    Missing,
    /// The fetch failed in transport.
    Failed,
}

/// What the driver must do next.
#[derive(Debug, Clone, Copy, PartialEq, Eq)]
pub enum Request {
    /// Announce the block number and fetch that block.
    Block(u64),
    /// Fetch the transaction with this identifier.
    Transaction(TxHash),
    /// Nothing: the range is exhausted.
    Finished,
}

/// Why an item was skipped.
#[derive(Debug, Clone, Copy, PartialEq, Eq)]
pub enum Diagnostic {
    /// The fetch of this block failed; none of its transactions is fetched.
    BlockFailed(u64),
    /// The node has no block of this number.
    BlockMissing(u64),
    /// The fetch of this transaction failed.
    TransactionFailed(TxHash),
    /// The node cannot resolve this identifier.
    TransactionMissing(TxHash),
}

/// Why the scanner refused a call.
#[derive(Debug, Clone, Copy, PartialEq, Eq)]
pub enum ScanError {
    /// The range's start lies after its end.
    EmptyRange,
    /// The reply answers no request that is pending.
    UnexpectedReply,
}

/// Which reply the scanner waits for.
#[derive(Debug, Clone, Copy, PartialEq, Eq)]
pub enum Phase {
    AwaitBlock,
    AwaitTransaction,
    Finished,
}

/// What one reply led to.
#[derive(Debug, PartialEq, Eq)]
pub struct Outcome {
    /// The line to append to the sink, without its terminator.
    pub line: Option<String>,
    /// The diagnostic to log.
    pub diagnostic: Option<Diagnostic>,
    /// What to do next.
    pub next: Request,
}

/// The model of an [`Outcome`].
pub struct OutcomeView {
    pub line: Option<Seq<char>>,
    pub diagnostic: Option<Diagnostic>,
    pub next: Request,
}

impl View for Outcome {
    type V = OutcomeView;

    open spec fn view(&self) -> OutcomeView {
        OutcomeView {
            line: match self.line {
                Some(text) => Some(text@),
                None => None,
            },
            diagnostic: self.diagnostic,
            next: self.next,
        }
    }
}

/// The model of a scanner.
pub struct ScanState {
    /// First block of the range.
    pub start: u64,
    /// Last block of the range.
    pub end: u64,
    /// The configured prefixes, in order.
    pub prefixes: Seq<Seq<char>>,
    pub phase: Phase,
    /// The block that is being fetched or whose transactions are being fetched;
    /// the last block, once finished.
    pub block: u64,
    /// The identifiers of the current block, as the block listed them.
    pub pending: Seq<TxHash>,
    /// The place in `pending` of the transaction that is being fetched.
    pub cursor: int,
}

impl ScanState {
    /// Validity of a state.
    pub open spec fn wf(self) -> bool {
        &&& self.start <= self.block <= self.end
        &&& self.phase == Phase::AwaitTransaction ==> 0 <= self.cursor < self.pending.len()
        &&& self.phase == Phase::Finished ==> self.block == self.end
    }

    /// The request that is pending in this state.
    pub open spec fn request(self) -> Request {
        match self.phase {
            Phase::AwaitBlock => Request::Block(self.block),
            Phase::AwaitTransaction => Request::Transaction(self.pending[self.cursor]),
            Phase::Finished => Request::Finished,
        }
    }

    /// The state after the current block is done with: the next block is
    /// awaited, or the scan is finished after the last one.
    pub open spec fn leave_block(self) -> ScanState {
        if self.block < self.end {
            ScanState {
                phase: Phase::AwaitBlock,
                block: (self.block + 1) as u64,
                pending: Seq::empty(),
                cursor: 0,
                ..self
            }
        } else {
            ScanState { phase: Phase::Finished, pending: Seq::empty(), cursor: 0, ..self }
        }
    }

    /// The state after a reply to a block request.
    pub open spec fn after_block(self, reply: Fetched<Seq<TxHash>>) -> ScanState {
        match reply {
            Fetched::Found(ids) if ids.len() > 0 => ScanState {
                phase: Phase::AwaitTransaction,
                pending: ids,
                cursor: 0,
                ..self
            },
            _ => self.leave_block(),
        }
    }

    /// The state after a reply to a transaction request, whatever the reply.
    pub open spec fn after_transaction(self) -> ScanState {
        if self.cursor + 1 < self.pending.len() {
            ScanState { cursor: self.cursor + 1, ..self }
        } else {
            self.leave_block()
        }
    }

    /// What a reply to a block request leads to.
    pub open spec fn block_outcome(self, reply: Fetched<Seq<TxHash>>) -> OutcomeView {
        OutcomeView {
            line: None,
            diagnostic: match reply {
                Fetched::Found(_) => None,
                Fetched::Missing => Some(Diagnostic::BlockMissing(self.block)),
                Fetched::Failed => Some(Diagnostic::BlockFailed(self.block)),
            },
            next: self.after_block(reply).request(),
        }
    }

    /// What a reply to a transaction request leads to; a found transaction
    /// comes as its canonical hash text.
    pub open spec fn transaction_outcome(self, reply: Fetched<Seq<char>>) -> OutcomeView {
        OutcomeView {
            line: match reply {
                Fetched::Found(text) if any_prefix_of(self.prefixes, text) => Some(text),
                _ => None,
            },
            diagnostic: match reply {
                Fetched::Found(_) => None,
                Fetched::Missing => Some(Diagnostic::TransactionMissing(self.pending[self.cursor])),
                Fetched::Failed => Some(Diagnostic::TransactionFailed(self.pending[self.cursor])),
            },
            next: self.after_transaction().request(),
        }
    }
}

/// The state in which a scan of `start ..= end` begins.
pub open spec fn initial_state(start: u64, end: u64, prefixes: Seq<Seq<char>>) -> ScanState {
    ScanState {
        start,
        end,
        prefixes,
        phase: Phase::AwaitBlock,
        block: start,
        pending: Seq::empty(),
        cursor: 0,
    }
}

/// The model of a reply to a block request.
pub open spec fn block_reply(reply: Fetched<Vec<TxHash>>) -> Fetched<Seq<TxHash>> {
    match reply {
        Fetched::Found(ids) => Fetched::Found(ids@),
        Fetched::Missing => Fetched::Missing,
        Fetched::Failed => Fetched::Failed,
    }
}

/// The model of a reply to a transaction request that carries the hash text.
pub open spec fn text_reply(reply: Fetched<String>) -> Fetched<Seq<char>> {
    match reply {
        Fetched::Found(text) => Fetched::Found(text@),
        Fetched::Missing => Fetched::Missing,
        Fetched::Failed => Fetched::Failed,
    }
}

/// The model of a reply to a transaction request that carries the hash of the
/// fetched record: the hash is taken by its canonical text.
pub open spec fn hash_reply(reply: Fetched<TxHash>) -> Fetched<Seq<char>> {
    match reply {
        Fetched::Found(hash) => Fetched::Found(canonical_text(hash@)),
        Fetched::Missing => Fetched::Missing,
        Fetched::Failed => Fetched::Failed,
    }
}

/// A scan in progress.
pub struct Scanner {
    start: u64,
    end: u64,
    prefixes: Vec<String>,
    phase: Phase,
    block: u64,
    pending: Vec<TxHash>,
    cursor: usize,
}

impl View for Scanner {
    type V = ScanState;

    closed spec fn view(&self) -> ScanState {
        ScanState {
            start: self.start,
            end: self.end,
            prefixes: texts(self.prefixes@),
            phase: self.phase,
            block: self.block,
            pending: self.pending@,
            cursor: self.cursor as int,
        }
    }
}

impl Scanner {
    /// Validity of a scanner.
    pub open spec fn wf(&self) -> bool {
        self@.wf()
    }

    /// Begins a scan of the blocks `start ..= end`. A range whose start lies
    /// after its end is refused.
    pub fn new(start: u64, end: u64, prefixes: Vec<String>) -> (made: Result<Scanner, ScanError>)
        ensures
            start > end ==> made == Err::<Scanner, ScanError>(ScanError::EmptyRange),
            start <= end ==> made is Ok && made->Ok_0.wf() && made->Ok_0@ == initial_state(
                start,
                end,
                texts(prefixes@),
            ),
    {
        if start > end {
            return Err(ScanError::EmptyRange);
        }
        Ok(
            Scanner {
                start,
                end,
                prefixes,
                phase: Phase::AwaitBlock,
                block: start,
                pending: Vec::new(),
                cursor: 0,
            },
        )
    }

    /// The request that is pending.
    pub fn request(&self) -> (next: Request)
        requires
            self.wf(),
        ensures
            next == self@.request(),
    {
        match self.phase {
            Phase::AwaitBlock => Request::Block(self.block),
            Phase::AwaitTransaction => Request::Transaction(self.pending[self.cursor]),
            Phase::Finished => Request::Finished,
        }
    }

    /// Whether every block of the range has been dealt with.
    pub fn is_finished(&self) -> (done: bool)
        ensures
            done == (self@.phase == Phase::Finished),
    {
        match self.phase {
            Phase::Finished => true,
            _ => false,
        }
    }

    fn leave_block(&mut self)
        requires
            old(self).wf(),
        ensures
            final(self).wf(),
            final(self)@ == old(self)@.leave_block(),
    {
        self.pending = Vec::new();
        self.cursor = 0;
        if self.block < self.end {
            self.block = self.block + 1;
            self.phase = Phase::AwaitBlock;
        } else {
            self.phase = Phase::Finished;
        }
    }

    /// Takes the reply to a block request. A found block with transactions
    /// leads to the request for its first transaction; an empty, missing or
    /// failed block leads to the next block, or ends the scan after the last.
    /// No line is ever written for a block. Where no block request is pending,
    /// the reply is refused and nothing changes.
    pub fn accept_block(&mut self, reply: Fetched<Vec<TxHash>>) -> (out: Result<Outcome, ScanError>)
        requires
            old(self).wf(),
        ensures
            final(self).wf(),
            old(self)@.phase != Phase::AwaitBlock ==> final(self)@ == old(self)@ && out
                == Err::<Outcome, ScanError>(ScanError::UnexpectedReply),
            old(self)@.phase == Phase::AwaitBlock ==> final(self)@ == old(self)@.after_block(
                block_reply(reply),
            ) && out is Ok && out->Ok_0@ == old(self)@.block_outcome(block_reply(reply)),
    {
        match self.phase {
            Phase::AwaitBlock => {},
            _ => {
                return Err(ScanError::UnexpectedReply);
            },
        }
        let diagnostic = match reply {
            Fetched::Found(ids) => {
                if ids.len() > 0 {
                    self.pending = ids;
                    self.cursor = 0;
                    self.phase = Phase::AwaitTransaction;
                } else {
                    self.leave_block();
                }
                None
            },
            Fetched::Missing => {
                let number = self.block;
                self.leave_block();
                Some(Diagnostic::BlockMissing(number))
            },
            Fetched::Failed => {
                let number = self.block;
                self.leave_block();
                Some(Diagnostic::BlockFailed(number))
            },
        };
        let next = self.request();
        Ok(Outcome { line: None, diagnostic, next })
    }

    /// Takes the reply to a transaction request, the hash of a found record
    /// already in its canonical text. The text is the line to append exactly
    /// when some configured prefix is a prefix of it. Whatever the reply, the
    /// scan goes on with the block's next transaction, with the next block
    /// after the block's last, or ends after the last block. Where no
    /// transaction request is pending, the reply is refused and nothing
    /// changes.
    pub fn accept_hash_text(&mut self, reply: Fetched<String>) -> (out: Result<Outcome, ScanError>)
        requires
            old(self).wf(),
        ensures
            final(self).wf(),
            old(self)@.phase != Phase::AwaitTransaction ==> final(self)@ == old(self)@ && out
                == Err::<Outcome, ScanError>(ScanError::UnexpectedReply),
            old(self)@.phase == Phase::AwaitTransaction ==> final(self)@
                == old(self)@.after_transaction() && out is Ok && out->Ok_0@
                == old(self)@.transaction_outcome(text_reply(reply)),
    {
        match self.phase {
            Phase::AwaitTransaction => {},
            _ => {
                return Err(ScanError::UnexpectedReply);
            },
        }
        let id: TxHash = self.pending[self.cursor];
        let mut line: Option<String> = None;
        let mut diagnostic: Option<Diagnostic> = None;
        match reply {
            Fetched::Found(text) => {
                if matches_any(&self.prefixes, text.as_str()) {
                    line = Some(text);
                }
            },
            Fetched::Missing => {
                diagnostic = Some(Diagnostic::TransactionMissing(id));
            },
            Fetched::Failed => {
                diagnostic = Some(Diagnostic::TransactionFailed(id));
            },
        }
        if self.cursor < self.pending.len() - 1 {
            self.cursor = self.cursor + 1;
        } else {
            self.leave_block();
        }
        let next = self.request();
        Ok(Outcome { line, diagnostic, next })
    }

    /// Takes the reply to a transaction request, with the hash that the
    /// fetched record holds. The hash is put in its canonical text, `0x` and
    /// 64 lower-case hexadecimal digits, and handled as
    /// [`Scanner::accept_hash_text`] handles that text.
    pub fn accept_transaction(&mut self, reply: Fetched<TxHash>) -> (out: Result<
        Outcome,
        ScanError,
    >)
        requires
            old(self).wf(),
        ensures
            final(self).wf(),
            old(self)@.phase != Phase::AwaitTransaction ==> final(self)@ == old(self)@ && out
                == Err::<Outcome, ScanError>(ScanError::UnexpectedReply),
            old(self)@.phase == Phase::AwaitTransaction ==> final(self)@
                == old(self)@.after_transaction() && out is Ok && out->Ok_0@
                == old(self)@.transaction_outcome(hash_reply(reply)),
    {
        let as_text = match reply {
            Fetched::Found(hash) => Fetched::Found(h256_debug_text(&hash)),
            Fetched::Missing => Fetched::Missing,
            Fetched::Failed => Fetched::Failed,
        };
        self.accept_hash_text(as_text)
    }
}

} // verus!
