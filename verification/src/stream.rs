//! One stream of a recognizer.

use vstd::prelude::*;
use crate::decoding::{Decoding, DecodingView};
use crate::engine::{Call, Reply, ReplyView, Step};
use crate::error::Error;
use crate::ledger::Ledger;
use crate::machine::Machine;

verus! {

/// An open stream of the engine, by its handle. A stream belongs to the
/// recognizer it was opened on and must be given back before that recognizer.
#[derive(Debug)]
pub struct ZipFormerStream(pub usize);

/// The question whether the engine sees the end of an utterance on a stream,
/// waiting for the engine's answer.
#[derive(Clone, Copy, Debug)]
pub struct EndpointQuery {
    pub recognizer: usize,
    pub stream: usize,
}

impl ZipFormerStream {
    /// Takes the handle that the engine returned for a new stream. Null is a
    /// failure.
    pub fn new(handle: usize) -> (made: Result<ZipFormerStream, Error>)
        ensures
            made == if handle == 0 {
                Err::<ZipFormerStream, Error>(Error::StreamCreationFailed)
            } else {
                Ok(ZipFormerStream(handle))
            },
    {
        if handle == 0 {
            Err(Error::StreamCreationFailed)
        } else {
            Ok(ZipFormerStream(handle))
        }
    }

    /// Begins a decode of `samples` samples taken at `sample_rate`. What the
    /// decode returns is all that the stream has decoded since it was opened
    /// or last reset, not the share of these samples.
    pub fn decode(
        &mut self,
        recognizer: usize,
        sample_rate: u32,
        samples: usize,
    ) -> (decoding: Decoding)
        requires
            samples <= i32::MAX,
        ensures
            *final(self) == *old(self),
            decoding@ == DecodingView::on_stream(recognizer, old(self).0, sample_rate, samples),
    {
        Decoding::on_stream(recognizer, self.0, sample_rate, samples)
    }

    /// The call that discards the decode state and keeps the stream.
    pub fn reset_decode(&mut self, recognizer: usize) -> (call: Call)
        ensures
            *final(self) == *old(self),
            call == (Call::Reset { recognizer, stream: old(self).0 }),
    {
        Call::Reset { recognizer, stream: self.0 }
    }

    /// Begins the question whether the engine sees the end of an utterance.
    pub fn is_endpoint(&self, recognizer: usize) -> (query: EndpointQuery)
        ensures
            query == (EndpointQuery { recognizer, stream: self.0 }),
    {
        EndpointQuery { recognizer, stream: self.0 }
    }

    /// The call that tells the engine that no more audio will arrive.
    pub fn finish(&mut self) -> (call: Call)
        ensures
            *final(self) == *old(self),
            call == (Call::InputFinished { stream: old(self).0 }),
    {
        Call::InputFinished { stream: self.0 }
    }

    /// Ends the stream: the call that gives it back, or none for a stream
    /// that was never opened.
    pub fn drop(self) -> (call: Option<Call>)
        ensures
            call == if self.0 == 0 {
                None::<Call>
            } else {
                Some(Call::DestroyStream { stream: self.0 })
            },
    {
        if self.0 != 0 {
            Some(Call::DestroyStream { stream: self.0 })
        } else {
            None
        }
    }
}

impl Machine for EndpointQuery {
    type Outcome = bool;

    /// The call that is pending.
    open spec fn pending(self) -> Call {
        Call::IsEndpoint { recognizer: self.recognizer, stream: self.stream }
    }

    /// The step that `reply` brings about: the end of an utterance is seen
    /// where the engine answers with the number one, and with no other. A
    /// reply that does not answer the call changes nothing.
    open spec fn step(self, reply: ReplyView) -> Step<EndpointQuery, bool> {
        match reply {
            ReplyView::Flag(flag) => Step::Done(flag == 1),
            _ => Step::Next(self),
        }
    }

    /// The question is asked of a live stream of a live recognizer, and
    /// takes nothing.
    open spec fn account(self, before: Ledger, now: Ledger) -> bool {
        &&& now == before
        &&& before.recognizers.contains(self.recognizer)
        &&& before.streams.contains(self.stream)
    }

    /// The question leaves nothing behind.
    open spec fn settled(outcome: bool, before: Ledger, now: Ledger) -> bool {
        now == before
    }

    proof fn lemma_unanswered(self, reply: ReplyView) {
    }

    proof fn lemma_step(self, before: Ledger, now: Ledger, reply: ReplyView) {
    }
}

impl EndpointQuery {
    /// The call to make.
    pub fn call(&self) -> (call: Call)
        ensures
            call == self.pending(),
    {
        Call::IsEndpoint { recognizer: self.recognizer, stream: self.stream }
    }

    /// Takes the engine's reply and says whether the end of an utterance is
    /// seen.
    pub fn advance(self, reply: Reply) -> (step: Step<EndpointQuery, bool>)
        ensures
            step == self.step(reply@),
    {
        match reply {
            Reply::Flag(flag) => Step::Done(flag == 1),
            _ => Step::Next(self),
        }
    }
}

} // verus!
