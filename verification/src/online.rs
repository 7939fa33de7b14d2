//! The recognizer: its creation, its two ways of decoding, and its end.

use vstd::prelude::*;
use crate::config::{Settings, ZipFormerOnlineConfig};
use crate::decoding::{Decoding, DecodingView};
use crate::engine::{Call, Reply, ReplyView, Step};
use crate::error::Error;
use crate::ledger::Ledger;
use crate::machine::Machine;
use crate::stream::{EndpointQuery, ZipFormerStream};

verus! {

/// A recognizer of the engine, by its handle, and the stream that it keeps
/// open over all decodes, if it keeps one. Without such a stream every decode
/// opens a stream of its own and shares nothing with the decode before it.
///
/// One operation at a time: the engine takes no two calls on one recognizer
/// at once, so whoever shares a recognizer between threads serializes them.
#[derive(Debug)]
pub struct ZipFormerOnline {
    pub recognizer: usize,
    pub stream: Option<ZipFormerStream>,
}

/// Where a creation stands: the call that is pending.
#[derive(Clone, Copy, Debug, PartialEq, Eq, Structural)]
pub enum CreationStage {
    /// The recognizer is being built.
    Recognizer,
    /// The stream that the recognizer keeps is being opened.
    Stream { recognizer: usize },
    /// No stream could be opened, and the recognizer is being given back.
    Abandoning { recognizer: usize },
}

/// A creation in progress.
#[derive(Debug)]
pub struct Creation {
    pub settings: Settings,
    pub long_decode: bool,
    pub stage: CreationStage,
}

impl Machine for Creation {
    type Outcome = Result<ZipFormerOnline, Error>;

    /// The call that is pending.
    open spec fn pending(self) -> Call {
        match self.stage {
            CreationStage::Recognizer => Call::CreateRecognizer,
            CreationStage::Stream { recognizer } => Call::CreateStream { recognizer },
            CreationStage::Abandoning { recognizer } => Call::DestroyRecognizer { recognizer },
        }
    }

    /// The step that `reply` brings about.
    ///
    /// Without a recognizer the creation fails. With one, and no stream to
    /// keep, it is done. Otherwise the stream is opened; where the engine
    /// returns none, the recognizer is given back before the creation fails.
    /// A reply that does not answer the pending call changes nothing.
    open spec fn step(self, reply: ReplyView) -> Step<Creation, Result<ZipFormerOnline, Error>> {
        match (self.stage, reply) {
            (CreationStage::Recognizer, ReplyView::Handle(recognizer)) => if recognizer == 0 {
                Step::Done(Err(Error::CreationFailed))
            } else if self.long_decode {
                Step::Next(self.at(CreationStage::Stream { recognizer }))
            } else {
                Step::Done(Ok(ZipFormerOnline { recognizer, stream: None }))
            },
            (CreationStage::Stream { recognizer }, ReplyView::Handle(stream)) => if stream == 0 {
                Step::Next(self.at(CreationStage::Abandoning { recognizer }))
            } else {
                Step::Done(
                    Ok(ZipFormerOnline { recognizer, stream: Some(ZipFormerStream(stream)) }),
                )
            },
            (CreationStage::Abandoning { .. }, ReplyView::Nothing) => Step::Done(
                Err(Error::StreamCreationFailed),
            ),
            _ => Step::Next(self),
        }
    }

    /// Beyond what was live before, a creation holds the recognizer, once it
    /// has one.
    open spec fn account(self, before: Ledger, now: Ledger) -> bool {
        match self.stage {
            CreationStage::Recognizer => now == before,
            CreationStage::Stream { recognizer } => recognizer != 0 && now == (Ledger {
                recognizers: before.recognizers.insert(recognizer),
                ..before
            }),
            CreationStage::Abandoning { recognizer } => recognizer != 0 && now == (Ledger {
                recognizers: before.recognizers.insert(recognizer),
                ..before
            }),
        }
    }

    /// A creation that failed holds nothing. One that succeeded has handed
    /// what it took to the recognizer it made.
    open spec fn settled(
        outcome: Result<ZipFormerOnline, Error>,
        before: Ledger,
        now: Ledger,
    ) -> bool {
        match outcome {
            Ok(online) => online.well_formed() && now == online.held_beyond(before),
            Err(_) => now == before,
        }
    }

    proof fn lemma_unanswered(self, reply: ReplyView) {
    }

    proof fn lemma_step(self, before: Ledger, now: Ledger, reply: ReplyView) {
        match self.stage {
            CreationStage::Abandoning { recognizer } => {
                assert(before.recognizers.insert(recognizer).remove(recognizer)
                    =~= before.recognizers);
            },
            _ => {},
        }
    }
}

impl Creation {
    /// The same creation at another stage.
    pub open spec fn at(self, stage: CreationStage) -> Creation {
        Creation { stage, ..self }
    }

    /// The settings to build the recognizer from.
    pub fn settings(&self) -> (settings: &Settings)
        ensures
            *settings == self.settings,
    {
        &self.settings
    }

    /// The call to make next.
    pub fn call(&self) -> (call: Call)
        ensures
            call == self.pending(),
    {
        match self.stage {
            CreationStage::Recognizer => Call::CreateRecognizer,
            CreationStage::Stream { recognizer } => Call::CreateStream { recognizer },
            CreationStage::Abandoning { recognizer } => Call::DestroyRecognizer { recognizer },
        }
    }

    /// Takes the engine's reply to the pending call and says what follows:
    /// the creation at its next stage, or the recognizer, or the failure.
    pub fn advance(self, reply: Reply) -> (step: Step<Creation, Result<ZipFormerOnline, Error>>)
        ensures
            step == self.step(reply@),
    {
        let Creation { settings, long_decode, stage } = self;
        match (stage, reply) {
            (CreationStage::Recognizer, Reply::Handle(recognizer)) => if recognizer == 0 {
                Step::Done(Err(Error::CreationFailed))
            } else if long_decode {
                Step::Next(
                    Creation { settings, long_decode, stage: CreationStage::Stream { recognizer } },
                )
            } else {
                Step::Done(Ok(ZipFormerOnline { recognizer, stream: None }))
            },
            (CreationStage::Stream { recognizer }, Reply::Handle(handle)) => {
                match ZipFormerStream::new(handle) {
                    Ok(stream) => Step::Done(
                        Ok(ZipFormerOnline { recognizer, stream: Some(stream) }),
                    ),
                    Err(_) => Step::Next(
                        Creation {
                            settings,
                            long_decode,
                            stage: CreationStage::Abandoning { recognizer },
                        },
                    ),
                }
            },
            (CreationStage::Abandoning { .. }, Reply::Nothing) => Step::Done(
                Err(Error::StreamCreationFailed),
            ),
            (stage, _) => Step::Next(Creation { settings, long_decode, stage }),
        }
    }
}

impl ZipFormerOnline {
    /// The recognizer holds a handle, and so does the stream that it keeps.
    pub open spec fn well_formed(self) -> bool {
        &&& self.recognizer != 0
        &&& self.stream matches Some(stream) ==> stream.0 != 0
    }

    /// The ledger in which the recognizer's handles are live beside those of
    /// `before`.
    pub open spec fn held_beyond(self, before: Ledger) -> Ledger {
        Ledger {
            recognizers: before.recognizers.insert(self.recognizer),
            streams: match self.kept() {
                Some(stream) => before.streams.insert(stream),
                None => before.streams,
            },
            results: before.results,
        }
    }

    /// The handle of the stream that the recognizer keeps.
    pub open spec fn kept(self) -> Option<usize> {
        match self.stream {
            Some(stream) => Some(stream.0),
            None => None,
        }
    }

    /// Begins the creation of a recognizer. `default_provider` is the
    /// process-wide default, used where `config` names no provider.
    pub fn new(config: ZipFormerOnlineConfig, default_provider: String) -> (creation: Creation)
        ensures
            config.resolves_to(default_provider, creation.settings),
            creation.long_decode == config.long_decode,
            creation.stage == CreationStage::Recognizer,
    {
        let long_decode = config.long_decode;
        Creation {
            settings: config.settings(default_provider),
            long_decode,
            stage: CreationStage::Recognizer,
        }
    }

    /// The decode that [`ZipFormerOnline::decode`] begins.
    pub open spec fn spec_decode(self, sample_rate: u32, samples: usize) -> DecodingView {
        match self.kept() {
            Some(stream) => DecodingView::on_stream(self.recognizer, stream, sample_rate, samples),
            None => DecodingView::one_shot(self.recognizer, sample_rate, samples),
        }
    }

    /// The call that [`ZipFormerOnline::reset_decode`] asks for.
    pub open spec fn spec_reset_decode(self) -> Option<Call> {
        match self.kept() {
            Some(stream) => Some(Call::Reset { recognizer: self.recognizer, stream }),
            None => None,
        }
    }

    /// What [`ZipFormerOnline::is_endpoint`] says.
    pub open spec fn spec_is_endpoint(self) -> Step<EndpointQuery, bool> {
        match self.kept() {
            Some(stream) => Step::Next(EndpointQuery { recognizer: self.recognizer, stream }),
            None => Step::Done(true),
        }
    }

    /// The call that [`ZipFormerOnline::finish_input`] asks for.
    pub open spec fn spec_finish_input(self) -> Option<Call> {
        match self.kept() {
            Some(stream) => Some(Call::InputFinished { stream }),
            None => None,
        }
    }

    /// Begins a decode of `samples` samples taken at `sample_rate`: on the
    /// stream that the recognizer keeps, where it keeps one, and else on a
    /// stream that the decode opens and gives back.
    pub fn decode(&mut self, sample_rate: u32, samples: usize) -> (decoding: Decoding)
        requires
            samples <= i32::MAX,
        ensures
            *final(self) == *old(self),
            decoding@ == old(self).spec_decode(sample_rate, samples),
    {
        let recognizer = self.recognizer;
        match &mut self.stream {
            Some(stream) => stream.decode(recognizer, sample_rate, samples),
            None => Decoding::one_shot(recognizer, sample_rate, samples),
        }
    }

    /// The call that starts a new utterance on the stream that the recognizer
    /// keeps; none where it keeps no stream.
    pub fn reset_decode(&mut self) -> (call: Option<Call>)
        ensures
            *final(self) == *old(self),
            call == old(self).spec_reset_decode(),
    {
        let recognizer = self.recognizer;
        match &mut self.stream {
            Some(stream) => Some(stream.reset_decode(recognizer)),
            None => None,
        }
    }

    /// Whether the engine sees the end of an utterance. A recognizer that
    /// keeps no stream has no utterance pending and says yes at once;
    /// otherwise the engine is asked.
    pub fn is_endpoint(&self) -> (step: Step<EndpointQuery, bool>)
        ensures
            step == self.spec_is_endpoint(),
    {
        match &self.stream {
            Some(stream) => Step::Next(stream.is_endpoint(self.recognizer)),
            None => Step::Done(true),
        }
    }

    /// The call that tells the engine that no more audio will arrive on the
    /// stream that the recognizer keeps; none where it keeps no stream.
    pub fn finish_input(&mut self) -> (call: Option<Call>)
        ensures
            *final(self) == *old(self),
            call == old(self).spec_finish_input(),
    {
        match &mut self.stream {
            Some(stream) => Some(stream.finish()),
            None => None,
        }
    }

    /// The calls that end the recognizer.
    pub open spec fn spec_drop(self) -> Seq<Call> {
        let last = seq![Call::DestroyRecognizer { recognizer: self.recognizer }];
        match self.kept() {
            Some(stream) if stream != 0 => seq![Call::DestroyStream { stream }] + last,
            _ => last,
        }
    }

    /// Ends the recognizer: the calls that give back first the stream that
    /// it keeps, then the recognizer itself.
    pub fn drop(self) -> (calls: Vec<Call>)
        ensures
            calls@ == self.spec_drop(),
    {
        let mut calls: Vec<Call> = Vec::new();
        let ZipFormerOnline { recognizer, stream } = self;
        if let Some(stream) = stream {
            if let Some(call) = stream.drop() {
                calls.push(call);
            }
        }
        calls.push(Call::DestroyRecognizer { recognizer });
        assert(calls@ =~= self.spec_drop());
        calls
    }
}

} // verus!
