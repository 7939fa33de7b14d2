//! One decode, from the audio that goes in to the transcript that comes out.

use vstd::prelude::*;
use crate::engine::{Call, Reply, ReplyView, Step};
use crate::error::Error;
use crate::ledger::Ledger;
use crate::machine::Machine;
use crate::result::{Transcript, ZipFormerResult};
use crate::stream::ZipFormerStream;

verus! {

/// Where a decode stands: the call that is pending.
#[derive(Debug)]
pub enum Stage {
    /// A stream of its own is being opened.
    Opening,
    /// The audio is being handed to the stream.
    Feeding,
    /// The engine is asked whether it can take a decode step.
    Polling,
    /// The engine takes a decode step.
    Stepping,
    /// A snapshot of the decoded state is being fetched.
    Fetching,
    /// The snapshot `result` reports `count` tokens, which are being copied.
    Reading { result: usize, count: usize },
    /// The snapshot `result` is being given back; `decoded` is what it held.
    Releasing { result: usize, decoded: ZipFormerResult },
    /// The stream that was opened for this decode is being given back.
    Closing { outcome: Result<ZipFormerResult, Error> },
}

/// What a decode was asked to do: on which stream of which recognizer, and
/// with how many samples at which rate. Where `ephemeral` is set, the decode
/// opens the stream itself and gives it back before it ends; `stream` is then
/// `0` until the stream is open.
#[derive(Clone, Copy, Debug)]
pub struct Task {
    pub recognizer: usize,
    pub stream: usize,
    pub sample_rate: i32,
    pub samples: i32,
    pub ephemeral: bool,
}

/// A decode in progress.
#[derive(Debug)]
pub struct Decoding {
    pub task: Task,
    pub stage: Stage,
}

/// The mathematical content of a [`Stage`].
pub enum StageView {
    Opening,
    Feeding,
    Polling,
    Stepping,
    Fetching,
    Reading { result: usize, count: usize },
    Releasing { result: usize, decoded: Transcript },
    Closing { outcome: Result<Transcript, Error> },
}

/// The mathematical content of a [`Decoding`].
pub struct DecodingView {
    pub task: Task,
    pub stage: StageView,
}

/// The sample rate as the engine takes it: a signed number of 32 bits with
/// the same bit pattern.
pub open spec fn signed_rate(sample_rate: u32) -> i32 {
    if sample_rate <= i32::MAX {
        sample_rate as i32
    } else {
        (sample_rate - 0x1_0000_0000) as i32
    }
}

fn to_signed_rate(sample_rate: u32) -> (rate: i32)
    ensures
        rate == signed_rate(sample_rate),
{
    if sample_rate <= 0x7fff_ffff {
        sample_rate as i32
    } else {
        let high: i32 = (sample_rate - 0x8000_0000) as i32;
        high + i32::MIN
    }
}

/// The content of what a decode returns.
pub open spec fn view_outcome(
    outcome: Result<ZipFormerResult, Error>,
) -> Result<Transcript, Error> {
    match outcome {
        Ok(decoded) => Ok(decoded@),
        Err(error) => Err(error),
    }
}

/// The content of a step of a decode.
pub open spec fn view_step(
    step: Step<Decoding, Result<ZipFormerResult, Error>>,
) -> Step<DecodingView, Result<Transcript, Error>> {
    match step {
        Step::Next(decoding) => Step::Next(decoding@),
        Step::Done(outcome) => Step::Done(view_outcome(outcome)),
    }
}

impl View for Stage {
    type V = StageView;

    open spec fn view(&self) -> StageView {
        match *self {
            Stage::Opening => StageView::Opening,
            Stage::Feeding => StageView::Feeding,
            Stage::Polling => StageView::Polling,
            Stage::Stepping => StageView::Stepping,
            Stage::Fetching => StageView::Fetching,
            Stage::Reading { result, count } => StageView::Reading { result, count },
            Stage::Releasing { result, decoded } => StageView::Releasing {
                result,
                decoded: decoded@,
            },
            Stage::Closing { outcome } => StageView::Closing { outcome: view_outcome(outcome) },
        }
    }
}

impl View for Decoding {
    type V = DecodingView;

    open spec fn view(&self) -> DecodingView {
        DecodingView { task: self.task, stage: self.stage@ }
    }
}

impl DecodingView {
    /// A decode on a stream that is already open, about to hand in the audio.
    pub open spec fn on_stream(
        recognizer: usize,
        stream: usize,
        sample_rate: u32,
        samples: usize,
    ) -> DecodingView {
        DecodingView {
            task: Task {
                recognizer,
                stream,
                sample_rate: signed_rate(sample_rate),
                samples: samples as i32,
                ephemeral: false,
            },
            stage: StageView::Feeding,
        }
    }

    /// A decode that is about to open a stream of its own.
    pub open spec fn one_shot(recognizer: usize, sample_rate: u32, samples: usize) -> DecodingView {
        DecodingView {
            task: Task {
                recognizer,
                stream: 0,
                sample_rate: signed_rate(sample_rate),
                samples: samples as i32,
                ephemeral: true,
            },
            stage: StageView::Opening,
        }
    }

    /// Whether the decode stands at its beginning: about to open its own
    /// stream, or about to hand the audio to the stream it was given.
    pub open spec fn begins(self) -> bool {
        self.stage == if self.task.ephemeral {
            StageView::Opening
        } else {
            StageView::Feeding
        }
    }

    /// The same decode at another stage.
    pub open spec fn at(self, stage: StageView) -> DecodingView {
        DecodingView { stage, ..self }
    }

    /// What follows once the transcript or the failure is known: a decode
    /// that opened its stream gives it back first.
    pub open spec fn conclude(
        self,
        outcome: Result<Transcript, Error>,
    ) -> Step<DecodingView, Result<Transcript, Error>> {
        if self.task.ephemeral {
            Step::Next(self.at(StageView::Closing { outcome }))
        } else {
            Step::Done(outcome)
        }
    }
}

impl Machine for DecodingView {
    type Outcome = Result<Transcript, Error>;

    /// The call that is pending.
    open spec fn pending(self) -> Call {
        let Task { recognizer, stream, sample_rate, samples, .. } = self.task;
        match self.stage {
            StageView::Opening => Call::CreateStream { recognizer },
            StageView::Feeding => Call::AcceptWaveform { stream, sample_rate, samples },
            StageView::Polling => Call::IsReady { recognizer, stream },
            StageView::Stepping => Call::DecodeStep { recognizer, stream },
            StageView::Fetching => Call::GetResult { recognizer, stream },
            StageView::Reading { result, count } => Call::ReadResult { result, count },
            StageView::Releasing { result, .. } => Call::DestroyResult { result },
            StageView::Closing { .. } => Call::DestroyStream { stream },
        }
    }

    /// The step that `reply` brings about.
    ///
    /// A decode that has no stream opens one, and fails where the engine
    /// returns none. The audio goes in first. Then the engine takes decode
    /// steps for as long as it says, with a number above zero, that it can.
    /// Then the snapshot is fetched: without one the decode fails; one that
    /// reports no token gives the empty transcript; of any other, the
    /// reported number of tokens is copied. A snapshot that was fetched is
    /// given back, and so is a stream that the decode opened, whatever came
    /// between. A reply that does not answer the pending call changes
    /// nothing.
    open spec fn step(self, reply: ReplyView) -> Step<DecodingView, Result<Transcript, Error>> {
        match (self.stage, reply) {
            (StageView::Opening, ReplyView::Handle(handle)) => if handle == 0 {
                Step::Done(Err(Error::StreamCreationFailed))
            } else {
                Step::Next(
                    DecodingView {
                        task: Task { stream: handle, ..self.task },
                        stage: StageView::Feeding,
                    },
                )
            },
            (StageView::Feeding, ReplyView::Nothing) => Step::Next(self.at(StageView::Polling)),
            (StageView::Polling, ReplyView::Flag(flag)) => if flag > 0 {
                Step::Next(self.at(StageView::Stepping))
            } else {
                Step::Next(self.at(StageView::Fetching))
            },
            (StageView::Stepping, ReplyView::Nothing) => Step::Next(self.at(StageView::Polling)),
            (StageView::Fetching, ReplyView::Fetched { result, count }) => if result == 0 {
                self.conclude(Err(Error::ResultFetchFailed))
            } else if count > 0 {
                Step::Next(self.at(StageView::Reading { result, count: count as usize }))
            } else {
                Step::Next(
                    self.at(StageView::Releasing { result, decoded: Transcript::empty() }),
                )
            },
            (StageView::Reading { result, count }, ReplyView::Read(copied)) => {
                if copied.tokens.len() == count && copied.timestamps.len() == count {
                    Step::Next(self.at(StageView::Releasing { result, decoded: copied }))
                } else {
                    Step::Next(self)
                }
            },
            (StageView::Releasing { decoded, .. }, ReplyView::Nothing) => self.conclude(
                Ok(decoded),
            ),
            (StageView::Closing { outcome }, ReplyView::Nothing) => Step::Done(outcome),
            _ => Step::Next(self),
        }
    }

    /// Beyond what was live before, a decode holds the stream that it opened
    /// and the snapshot that it fetched, until it has given them back.
    open spec fn account(self, before: Ledger, now: Ledger) -> bool {
        let task = self.task;
        &&& before.recognizers.contains(task.recognizer)
        &&& !task.ephemeral ==> {
            &&& before.streams.contains(task.stream)
            &&& !(self.stage is Opening)
            &&& !(self.stage is Closing)
        }
        &&& now.recognizers == before.recognizers
        &&& now.streams == if task.ephemeral && !(self.stage is Opening) {
            before.streams.insert(task.stream)
        } else {
            before.streams
        }
        &&& now.results == match self.stage {
            StageView::Reading { result, .. } => before.results.insert(result),
            StageView::Releasing { result, .. } => before.results.insert(result),
            _ => before.results,
        }
    }

    /// A decode that has ended holds nothing.
    open spec fn settled(outcome: Result<Transcript, Error>, before: Ledger, now: Ledger) -> bool {
        now == before
    }

    proof fn lemma_unanswered(self, reply: ReplyView) {
    }

    proof fn lemma_step(self, before: Ledger, now: Ledger, reply: ReplyView) {
        let then = now.record(self.pending(), reply);
        assert(before.streams.insert(self.task.stream).remove(self.task.stream)
            =~= before.streams);
        match self.stage {
            StageView::Reading { result, .. } => {
                assert(before.results.insert(result).remove(result) =~= before.results);
            },
            StageView::Releasing { result, .. } => {
                assert(before.results.insert(result).remove(result) =~= before.results);
            },
            _ => {},
        }
    }
}

impl Decoding {
    /// A decode on a stream that is already open.
    pub(crate) fn on_stream(
        recognizer: usize,
        stream: usize,
        sample_rate: u32,
        samples: usize,
    ) -> (decoding: Decoding)
        requires
            samples <= i32::MAX,
        ensures
            decoding@ == DecodingView::on_stream(recognizer, stream, sample_rate, samples),
    {
        Decoding {
            task: Task {
                recognizer,
                stream,
                sample_rate: to_signed_rate(sample_rate),
                samples: samples as i32,
                ephemeral: false,
            },
            stage: Stage::Feeding,
        }
    }

    /// A decode that opens a stream of its own.
    pub(crate) fn one_shot(recognizer: usize, sample_rate: u32, samples: usize) -> (decoding: Decoding)
        requires
            samples <= i32::MAX,
        ensures
            decoding@ == DecodingView::one_shot(recognizer, sample_rate, samples),
    {
        Decoding {
            task: Task {
                recognizer,
                stream: 0,
                sample_rate: to_signed_rate(sample_rate),
                samples: samples as i32,
                ephemeral: true,
            },
            stage: Stage::Opening,
        }
    }

    /// The call to make next.
    pub fn call(&self) -> (call: Call)
        ensures
            call == self@.pending(),
    {
        let Task { recognizer, stream, sample_rate, samples, .. } = self.task;
        match &self.stage {
            Stage::Opening => Call::CreateStream { recognizer },
            Stage::Feeding => Call::AcceptWaveform { stream, sample_rate, samples },
            Stage::Polling => Call::IsReady { recognizer, stream },
            Stage::Stepping => Call::DecodeStep { recognizer, stream },
            Stage::Fetching => Call::GetResult { recognizer, stream },
            Stage::Reading { result, count } => Call::ReadResult {
                result: *result,
                count: *count,
            },
            Stage::Releasing { result, .. } => Call::DestroyResult { result: *result },
            Stage::Closing { .. } => Call::DestroyStream { stream },
        }
    }

    /// Takes the engine's reply to the pending call and says what follows:
    /// the decode at its next stage, or what the decode returns.
    pub fn advance(self, reply: Reply) -> (step: Step<Decoding, Result<ZipFormerResult, Error>>)
        ensures
            view_step(step) == self@.step(reply@),
    {
        let Decoding { task, stage } = self;
        match (stage, reply) {
            (Stage::Opening, Reply::Handle(handle)) => match ZipFormerStream::new(handle) {
                Ok(opened) => Step::Next(
                    Decoding {
                        task: Task {
                            recognizer: task.recognizer,
                            stream: opened.0,
                            sample_rate: task.sample_rate,
                            samples: task.samples,
                            ephemeral: task.ephemeral,
                        },
                        stage: Stage::Feeding,
                    },
                ),
                Err(error) => Step::Done(Err(error)),
            },
            (Stage::Feeding, Reply::Nothing) => {
                Step::Next(Decoding { task, stage: Stage::Polling })
            },
            (Stage::Polling, Reply::Flag(flag)) => if flag > 0 {
                Step::Next(Decoding { task, stage: Stage::Stepping })
            } else {
                Step::Next(Decoding { task, stage: Stage::Fetching })
            },
            (Stage::Stepping, Reply::Nothing) => {
                Step::Next(Decoding { task, stage: Stage::Polling })
            },
            (Stage::Fetching, Reply::Fetched { result, count }) => if result == 0 {
                Decoding::conclude(task, Err(Error::ResultFetchFailed))
            } else if count > 0 {
                Step::Next(
                    Decoding { task, stage: Stage::Reading { result, count: count as usize } },
                )
            } else {
                Step::Next(
                    Decoding {
                        task,
                        stage: Stage::Releasing { result, decoded: ZipFormerResult::empty() },
                    },
                )
            },
            (Stage::Reading { result, count }, Reply::Read(copied)) => if copied.tokens.len()
                == count && copied.timestamps.len() == count {
                Step::Next(Decoding { task, stage: Stage::Releasing { result, decoded: copied } })
            } else {
                Step::Next(Decoding { task, stage: Stage::Reading { result, count } })
            },
            (Stage::Releasing { result, decoded }, Reply::Nothing) => Decoding::conclude(
                task,
                Ok(decoded),
            ),
            (Stage::Closing { outcome }, Reply::Nothing) => Step::Done(outcome),
            (stage, _) => Step::Next(Decoding { task, stage }),
        }
    }

    fn conclude(
        task: Task,
        outcome: Result<ZipFormerResult, Error>,
    ) -> (step: Step<Decoding, Result<ZipFormerResult, Error>>)
        ensures
            view_step(step) == if task.ephemeral {
                Step::<DecodingView, Result<Transcript, Error>>::Next(
                    DecodingView {
                        task,
                        stage: StageView::Closing { outcome: view_outcome(outcome) },
                    },
                )
            } else {
                Step::Done(view_outcome(outcome))
            },
    {
        if task.ephemeral {
            Step::Next(Decoding { task, stage: Stage::Closing { outcome } })
        } else {
            Step::Done(outcome)
        }
    }
}

} // verus!
