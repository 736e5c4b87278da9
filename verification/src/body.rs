//! Draining a body that arrives in chunks into a sink.
//!
//! The caller reads the chunks and owns the sink. A [`Drain`] stands between
//! the two: every chunk that was read is shown to it, and it answers with
//! the bytes to write. It hands each chunk on whole and in the order of
//! arrival, and nothing any more once the body has ended or the transfer has
//! failed. A body is drained once: to try again, ask for the object again
//! and start a new drain.

use crate::outcome::TransferResult;
use vstd::prelude::*;

verus! {

/// How far a drain has come.
pub enum DrainState {
    /// Chunks may still arrive.
    Open,
    /// The body has ended.
    Complete,
    /// Reading or writing failed, as the text describes.
    Broken(Seq<char>),
}

/// The mathematical content of a [`Drain`]: the bytes handed on for writing
/// so far, in order, and how far the drain has come.
pub struct DrainModel {
    pub written: Seq<u8>,
    pub state: DrainState,
}

impl DrainModel {
    /// A drain to which nothing has been shown yet.
    pub open spec fn fresh() -> DrainModel {
        DrainModel { written: Seq::empty(), state: DrainState::Open }
    }

    /// Whether chunks are still taken.
    pub open spec fn is_open(self) -> bool {
        self.state is Open
    }

    /// The drain after a chunk has arrived: while it is open the chunk goes
    /// behind what was written before; after that nothing changes.
    pub open spec fn accept(self, chunk: Seq<u8>) -> DrainModel {
        if self.is_open() {
            DrainModel { written: self.written + chunk, ..self }
        } else {
            self
        }
    }

    /// The drain after each of the chunks has arrived, in turn.
    pub open spec fn accept_all(self, chunks: Seq<Seq<u8>>) -> DrainModel
        decreases chunks.len(),
    {
        if chunks.len() == 0 {
            self
        } else {
            self.accept_all(chunks.drop_last()).accept(chunks.last())
        }
    }

    /// The drain after the body has ended.
    pub open spec fn close(self) -> DrainModel {
        if self.is_open() {
            DrainModel { state: DrainState::Complete, ..self }
        } else {
            self
        }
    }

    /// The drain after reading or writing has failed.
    pub open spec fn fail(self, detail: Seq<char>) -> DrainModel {
        if self.is_open() {
            DrainModel { state: DrainState::Broken(detail), ..self }
        } else {
            self
        }
    }
}

enum Phase {
    Open,
    Complete,
    Broken(String),
}

/// The drain of one body.
pub struct Drain {
    phase: Phase,
    written: Ghost<Seq<u8>>,
}

impl View for Drain {
    type V = DrainModel;

    closed spec fn view(&self) -> DrainModel {
        DrainModel {
            written: self.written@,
            state: match self.phase {
                Phase::Open => DrainState::Open,
                Phase::Complete => DrainState::Complete,
                Phase::Broken(detail) => DrainState::Broken(detail@),
            },
        }
    }
}

impl Drain {
    /// Starts the drain of a body of which nothing has been read yet.
    pub fn new() -> (drain: Drain)
        ensures
            drain@ == DrainModel::fresh(),
    {
        Drain { phase: Phase::Open, written: Ghost(Seq::empty()) }
    }

    /// Whether chunks are still taken.
    pub fn is_open(&self) -> (yes: bool)
        ensures
            yes == self@.is_open(),
    {
        match self.phase {
            Phase::Open => true,
            _ => false,
        }
    }

    /// Whether the body has ended without a failure before its end.
    pub fn is_complete(&self) -> (yes: bool)
        ensures
            yes == (self@.state is Complete),
    {
        match self.phase {
            Phase::Complete => true,
            _ => false,
        }
    }

    /// Takes the chunk that has arrived and returns the bytes to write to
    /// the sink: all of the chunk while the drain is open, nothing after.
    pub fn accept<'a>(&mut self, chunk: &'a [u8]) -> (write: Option<&'a [u8]>)
        ensures
            final(self)@ == old(self)@.accept(chunk@),
            match write {
                Some(bytes) => old(self)@.is_open() && bytes@ == chunk@,
                None => !old(self)@.is_open(),
            },
    {
        match self.phase {
            Phase::Open => {
                self.written = Ghost(self.written@ + chunk@);
                Some(chunk)
            },
            _ => None,
        }
    }

    /// Notes that the body has ended.
    pub fn close(&mut self)
        ensures
            final(self)@ == old(self)@.close(),
    {
        if self.is_open() {
            self.phase = Phase::Complete;
        }
    }

    /// Notes that a chunk could not be read or could not be written. The
    /// first failure is the one that is kept.
    pub fn fail(&mut self, detail: String)
        ensures
            final(self)@ == old(self)@.fail(detail@),
    {
        if self.is_open() {
            self.phase = Phase::Broken(detail);
        }
    }

    /// The result of the download once the drain is over: the body, which
    /// `summary` describes, if it was drained to its end, else the failure.
    /// While the drain is open there is no result.
    pub fn conclude(&self, summary: String) -> (result: Option<TransferResult>)
        ensures
            match self@.state {
                DrainState::Open => result.is_none(),
                DrainState::Complete => result matches Some(TransferResult::Body(text)) && text@
                    == summary@,
                DrainState::Broken(detail) => result matches Some(TransferResult::Failed(text))
                    && text@ == detail,
            },
    {
        match &self.phase {
            Phase::Open => None,
            Phase::Complete => Some(TransferResult::Body(summary)),
            Phase::Broken(detail) => Some(TransferResult::Failed(detail.clone())),
        }
    }
}

/// What an open drain has handed on after a run of chunks is what it had
/// handed on before, followed by the chunks laid end to end.
pub proof fn lemma_drain_keeps_every_byte(drain: DrainModel, chunks: Seq<Seq<u8>>)
    requires
        drain.is_open(),
    ensures
        drain.accept_all(chunks).is_open(),
        drain.accept_all(chunks).written == drain.written + chunks.flatten(),
    decreases chunks.len(),
{
    if chunks.len() == 0 {
        assert(chunks.flatten() == Seq::<u8>::empty());
    } else {
        lemma_drain_keeps_every_byte(drain, chunks.drop_last());
        chunks.drop_last().lemma_flatten_push(chunks.last());
        assert(chunks.drop_last().push(chunks.last()) == chunks);
    }
}

/// However a body is cut into chunks, draining them writes the body: the
/// same bytes as if it had arrived in one piece.
pub proof fn lemma_chunking_is_irrelevant(body: Seq<u8>, chunks: Seq<Seq<u8>>)
    requires
        chunks.flatten() == body,
    ensures
        DrainModel::fresh().accept_all(chunks).written == body,
        DrainModel::fresh().accept_all(chunks).close().written == body,
        DrainModel::fresh().accept_all(chunks).close().state is Complete,
        DrainModel::fresh().accept_all(seq![body]) == DrainModel::fresh().accept_all(chunks),
{
    lemma_drain_keeps_every_byte(DrainModel::fresh(), chunks);
    lemma_drain_keeps_every_byte(DrainModel::fresh(), seq![body]);
    seq![body].lemma_flatten_one_element();
}

/// A body may be cut at any place: the two pieces, drained one after the
/// other, give the body back.
pub proof fn lemma_cut_anywhere(body: Seq<u8>, at: int)
    requires
        0 <= at <= body.len(),
    ensures
        DrainModel::fresh().accept(body.take(at)).accept(body.skip(at)).written == body,
{
    assert(body.take(at) + body.skip(at) == body);
}

/// Once the body has ended or the transfer has failed, the drain takes
/// nothing more, whatever is shown to it.
pub proof fn lemma_nothing_after_the_end(drain: DrainModel, chunks: Seq<Seq<u8>>)
    requires
        !drain.is_open(),
    ensures
        drain.accept_all(chunks) == drain,
        drain.close() == drain,
        forall|detail: Seq<char>| drain.fail(detail) == drain,
    decreases chunks.len(),
{
    if chunks.len() > 0 {
        lemma_nothing_after_the_end(drain, chunks.drop_last());
    }
}

} // verus!
