//! The engine's operations as values.
//!
//! A [`Call`] names one operation of the native engine with the handles it is
//! made on; a [`Reply`] is what the engine gave back. A handle is the address
//! the engine returned, and `0` stands for its null.

use vstd::prelude::*;
use crate::result::{Transcript, ZipFormerResult};

verus! {

/// One operation of the engine.
#[derive(Clone, Copy, Debug, PartialEq, Eq, Structural)]
pub enum Call {
    /// Build a recognizer from the settings of the creation in progress.
    CreateRecognizer,
    /// Give the recognizer back.
    DestroyRecognizer { recognizer: usize },
    /// Open a stream on the recognizer.
    CreateStream { recognizer: usize },
    /// Give the stream back.
    DestroyStream { stream: usize },
    /// Append `samples` samples, taken at `sample_rate`, to the stream.
    AcceptWaveform { stream: usize, sample_rate: i32, samples: i32 },
    /// Ask whether enough audio is buffered for another decode step.
    IsReady { recognizer: usize, stream: usize },
    /// Run one decode step.
    DecodeStep { recognizer: usize, stream: usize },
    /// Fetch a snapshot of what the stream has decoded so far.
    GetResult { recognizer: usize, stream: usize },
    /// Copy the text, and `count` tokens with their timestamps, out of the
    /// snapshot.
    ReadResult { result: usize, count: usize },
    /// Give the snapshot back.
    DestroyResult { result: usize },
    /// Discard the stream's decode state.
    Reset { recognizer: usize, stream: usize },
    /// Ask whether the engine sees the end of an utterance.
    IsEndpoint { recognizer: usize, stream: usize },
    /// Tell the engine that no more audio will arrive.
    InputFinished { stream: usize },
}

/// What the engine gave back.
#[derive(Debug)]
pub enum Reply {
    /// The operation returns nothing.
    Nothing,
    /// A handle, `0` for null.
    Handle(usize),
    /// A number that answers a question.
    Flag(i32),
    /// The snapshot's handle, `0` for null, and the number of tokens that it
    /// reports.
    Fetched { result: usize, count: i32 },
    /// What was copied out of a snapshot.
    Read(ZipFormerResult),
}

/// The mathematical content of a [`Reply`].
pub enum ReplyView {
    Nothing,
    Handle(usize),
    Flag(i32),
    Fetched { result: usize, count: i32 },
    Read(Transcript),
}

impl View for Reply {
    type V = ReplyView;

    open spec fn view(&self) -> ReplyView {
        match *self {
            Reply::Nothing => ReplyView::Nothing,
            Reply::Handle(handle) => ReplyView::Handle(handle),
            Reply::Flag(flag) => ReplyView::Flag(flag),
            Reply::Fetched { result, count } => ReplyView::Fetched { result, count },
            Reply::Read(copied) => ReplyView::Read(copied@),
        }
    }
}

impl Call {
    /// Whether `reply` has the shape of an answer to this call. A copy of a
    /// snapshot holds as many tokens and timestamps as were asked for.
    pub open spec fn answers(self, reply: ReplyView) -> bool {
        match self {
            Call::CreateRecognizer | Call::CreateStream { .. } => reply is Handle,
            Call::IsReady { .. } | Call::IsEndpoint { .. } => reply is Flag,
            Call::GetResult { .. } => reply is Fetched,
            Call::ReadResult { count, .. } => match reply {
                ReplyView::Read(copied) => copied.tokens.len() == count && copied.timestamps.len()
                    == count,
                _ => false,
            },
            _ => reply is Nothing,
        }
    }

    /// Tests whether `reply` has the shape of an answer to this call.
    pub fn is_answered_by(&self, reply: &Reply) -> (fits: bool)
        ensures
            fits == self.answers(reply@),
    {
        match self {
            Call::CreateRecognizer | Call::CreateStream { .. } => matches!(reply, Reply::Handle(_)),
            Call::IsReady { .. } | Call::IsEndpoint { .. } => matches!(reply, Reply::Flag(_)),
            Call::GetResult { .. } => matches!(reply, Reply::Fetched { .. }),
            Call::ReadResult { count, .. } => match reply {
                Reply::Read(copied) => {
                    copied.tokens.len() == *count && copied.timestamps.len() == *count
                },
                _ => false,
            },
            _ => matches!(reply, Reply::Nothing),
        }
    }
}

/// What a machine says after a reply: go on with the machine in its next state,
/// or stop with the outcome.
pub enum Step<M, T> {
    Next(M),
    Done(T),
}

} // verus!
