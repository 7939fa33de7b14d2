//! What the engine has handed out and not yet got back.

use vstd::prelude::*;
use vstd::multiset::Multiset;
use crate::engine::{Call, ReplyView};

verus! {

/// The handles that are live: the recognizers, streams and snapshots that the
/// engine has handed out and not yet got back. A handle that was handed out
/// twice counts twice.
pub struct Ledger {
    pub recognizers: Multiset<usize>,
    pub streams: Multiset<usize>,
    pub results: Multiset<usize>,
}

impl Call {
    /// The recognizer that the call is made on.
    pub open spec fn recognizer(self) -> Option<usize> {
        match self {
            Call::DestroyRecognizer { recognizer } => Some(recognizer),
            Call::CreateStream { recognizer } => Some(recognizer),
            Call::IsReady { recognizer, .. } => Some(recognizer),
            Call::DecodeStep { recognizer, .. } => Some(recognizer),
            Call::GetResult { recognizer, .. } => Some(recognizer),
            Call::Reset { recognizer, .. } => Some(recognizer),
            Call::IsEndpoint { recognizer, .. } => Some(recognizer),
            _ => None,
        }
    }

    /// The stream that the call is made on.
    pub open spec fn stream(self) -> Option<usize> {
        match self {
            Call::DestroyStream { stream } => Some(stream),
            Call::AcceptWaveform { stream, .. } => Some(stream),
            Call::IsReady { stream, .. } => Some(stream),
            Call::DecodeStep { stream, .. } => Some(stream),
            Call::GetResult { stream, .. } => Some(stream),
            Call::Reset { stream, .. } => Some(stream),
            Call::IsEndpoint { stream, .. } => Some(stream),
            Call::InputFinished { stream } => Some(stream),
            _ => None,
        }
    }

    /// The snapshot that the call is made on.
    pub open spec fn result(self) -> Option<usize> {
        match self {
            Call::ReadResult { result, .. } => Some(result),
            Call::DestroyResult { result } => Some(result),
            _ => None,
        }
    }
}

impl Ledger {
    /// Whether every handle that `call` is made on is live.
    pub open spec fn admits(self, call: Call) -> bool {
        &&& call.recognizer() matches Some(recognizer) ==> self.recognizers.contains(recognizer)
        &&& call.stream() matches Some(stream) ==> self.streams.contains(stream)
        &&& call.result() matches Some(result) ==> self.results.contains(result)
    }

    /// The ledger after `call` was made and answered with `reply`: a handle
    /// that the engine returned is live unless it is null, and a handle that
    /// was given back is live no more.
    pub open spec fn record(self, call: Call, reply: ReplyView) -> Ledger {
        match (call, reply) {
            (Call::CreateRecognizer, ReplyView::Handle(handle)) if handle != 0 => Ledger {
                recognizers: self.recognizers.insert(handle),
                ..self
            },
            (Call::CreateStream { .. }, ReplyView::Handle(handle)) if handle != 0 => Ledger {
                streams: self.streams.insert(handle),
                ..self
            },
            (Call::GetResult { .. }, ReplyView::Fetched { result, .. }) if result != 0 => Ledger {
                results: self.results.insert(result),
                ..self
            },
            (Call::DestroyRecognizer { recognizer }, _) => Ledger {
                recognizers: self.recognizers.remove(recognizer),
                ..self
            },
            (Call::DestroyStream { stream }, _) => Ledger {
                streams: self.streams.remove(stream),
                ..self
            },
            (Call::DestroyResult { result }, _) => Ledger {
                results: self.results.remove(result),
                ..self
            },
            _ => self,
        }
    }

    /// The ledger after the calls were made in turn, `replies[i]` being the
    /// answer to `calls[i]`.
    pub open spec fn replay(self, calls: Seq<Call>, replies: Seq<ReplyView>) -> Ledger
        decreases calls.len(),
    {
        if calls.len() == 0 || replies.len() == 0 {
            self
        } else {
            self.record(calls[0], replies[0]).replay(calls.drop_first(), replies.drop_first())
        }
    }

    /// Whether each of the calls, made in turn, is made on live handles only.
    pub open spec fn admits_all(self, calls: Seq<Call>, replies: Seq<ReplyView>) -> bool
        decreases calls.len(),
    {
        calls.len() == 0 || replies.len() == 0 || {
            &&& self.admits(calls[0])
            &&& self.record(calls[0], replies[0]).admits_all(
                calls.drop_first(),
                replies.drop_first(),
            )
        }
    }
}

/// As many replies as there are calls, each of them `Nothing`: the answers to
/// calls that return nothing.
pub open spec fn silence(calls: Seq<Call>) -> Seq<ReplyView> {
    Seq::new(calls.len(), |i: int| ReplyView::Nothing)
}

} // verus!
