use std::collections::HashMap;

use zipformer_ol::{
    Call, Error, Reply, Step, ZipFormerOnline, ZipFormerOnlineConfig, ZipFormerResult,
};

/// The samples that one decode step takes, and the time that it covers.
const CHUNK: usize = 100;
const STEP_MICROS: i64 = 40_000;

#[derive(Default)]
struct Stream {
    recognizer: usize,
    buffered: usize,
    steps: i64,
    tokens: Vec<String>,
    timestamps: Vec<i64>,
    finished: bool,
}

/// An engine that keeps count of what it hands out and decodes one token
/// for every hundred samples.
#[derive(Default)]
struct Engine {
    handles: usize,
    recognizers: Vec<usize>,
    streams: HashMap<usize, Stream>,
    results: HashMap<usize, ZipFormerResult>,
    log: Vec<Call>,
    refuse_recognizer: bool,
    refuse_stream: bool,
    refuse_result: bool,
    report_nothing: bool,
}

impl Engine {
    fn handle(&mut self) -> usize {
        self.handles += 1;
        0x1000 + self.handles
    }

    fn live(&self) -> usize {
        self.recognizers.len() + self.streams.len() + self.results.len()
    }

    fn count(&self, wanted: fn(&Call) -> bool) -> usize {
        self.log.iter().filter(|call| wanted(call)).count()
    }

    fn stream(&mut self, recognizer: Option<usize>, stream: usize) -> &mut Stream {
        let state = self.streams.get_mut(&stream).expect("the stream is live");
        if let Some(recognizer) = recognizer {
            assert_eq!(state.recognizer, recognizer);
            assert!(self.recognizers.contains(&recognizer));
        }
        state
    }

    fn perform(&mut self, call: Call) -> Reply {
        self.log.push(call);
        match call {
            Call::CreateRecognizer => {
                if self.refuse_recognizer {
                    return Reply::Handle(0);
                }
                let recognizer = self.handle();
                self.recognizers.push(recognizer);
                Reply::Handle(recognizer)
            }
            Call::DestroyRecognizer { recognizer } => {
                let place = self.recognizers.iter().position(|live| *live == recognizer);
                self.recognizers.remove(place.expect("the recognizer is live"));
                assert!(self.streams.values().all(|stream| stream.recognizer != recognizer));
                Reply::Nothing
            }
            Call::CreateStream { recognizer } => {
                assert!(self.recognizers.contains(&recognizer));
                if self.refuse_stream {
                    return Reply::Handle(0);
                }
                let stream = self.handle();
                self.streams.insert(stream, Stream { recognizer, ..Stream::default() });
                Reply::Handle(stream)
            }
            Call::DestroyStream { stream } => {
                self.streams.remove(&stream).expect("the stream is live");
                Reply::Nothing
            }
            Call::AcceptWaveform { stream, sample_rate, samples } => {
                assert_eq!(sample_rate, 16_000);
                self.stream(None, stream).buffered += samples as usize;
                Reply::Nothing
            }
            Call::IsReady { recognizer, stream } => {
                let ready = self.stream(Some(recognizer), stream).buffered >= CHUNK;
                Reply::Flag(ready as i32)
            }
            Call::DecodeStep { recognizer, stream } => {
                let state = self.stream(Some(recognizer), stream);
                assert!(state.buffered >= CHUNK);
                state.buffered -= CHUNK;
                state.tokens.push(format!("t{}", state.steps));
                state.timestamps.push(state.steps * STEP_MICROS);
                state.steps += 1;
                Reply::Nothing
            }
            Call::GetResult { recognizer, stream } => {
                let state = self.stream(Some(recognizer), stream);
                let snapshot = ZipFormerResult {
                    text: state.tokens.concat(),
                    tokens: state.tokens.clone(),
                    timestamps: state.timestamps.clone(),
                };
                if self.refuse_result {
                    return Reply::Fetched { result: 0, count: 0 };
                }
                let count = if self.report_nothing { 0 } else { snapshot.tokens.len() as i32 };
                let result = self.handle();
                self.results.insert(result, snapshot);
                Reply::Fetched { result, count }
            }
            Call::ReadResult { result, count } => {
                let snapshot = self.results.get(&result).expect("the snapshot is live");
                assert_eq!(snapshot.tokens.len(), count);
                Reply::Read(snapshot.clone())
            }
            Call::DestroyResult { result } => {
                self.results.remove(&result).expect("the snapshot is live");
                Reply::Nothing
            }
            Call::Reset { recognizer, stream } => {
                let state = self.stream(Some(recognizer), stream);
                state.tokens.clear();
                state.timestamps.clear();
                Reply::Nothing
            }
            Call::IsEndpoint { recognizer, stream } => {
                Reply::Flag(self.stream(Some(recognizer), stream).finished as i32)
            }
            Call::InputFinished { stream } => {
                self.stream(None, stream).finished = true;
                Reply::Nothing
            }
        }
    }

    fn create(&mut self, long_decode: bool) -> Result<ZipFormerOnline, Error> {
        let config = ZipFormerOnlineConfig { long_decode, ..Default::default() };
        let mut creation = ZipFormerOnline::new(config, "cpu".to_string());
        loop {
            let call = creation.call();
            let reply = self.perform(call);
            assert!(call.is_answered_by(&reply));
            match creation.advance(reply) {
                Step::Next(next) => creation = next,
                Step::Done(outcome) => return outcome,
            }
        }
    }

    fn decode(
        &mut self,
        online: &mut ZipFormerOnline,
        samples: usize,
    ) -> Result<ZipFormerResult, Error> {
        let mut decoding = online.decode(16_000, samples);
        loop {
            let call = decoding.call();
            let reply = self.perform(call);
            assert!(call.is_answered_by(&reply));
            match decoding.advance(reply) {
                Step::Next(next) => decoding = next,
                Step::Done(outcome) => return outcome,
            }
        }
    }

    fn is_endpoint(&mut self, online: &ZipFormerOnline) -> bool {
        match online.is_endpoint() {
            Step::Done(seen) => seen,
            Step::Next(query) => {
                let reply = self.perform(query.call());
                match query.advance(reply) {
                    Step::Done(seen) => seen,
                    Step::Next(_) => panic!("the engine did not answer"),
                }
            }
        }
    }

    fn destroy(&mut self, online: ZipFormerOnline) {
        for call in online.drop() {
            self.perform(call);
        }
    }
}

fn is_create_recognizer(call: &Call) -> bool {
    matches!(call, Call::CreateRecognizer)
}

fn is_destroy_recognizer(call: &Call) -> bool {
    matches!(call, Call::DestroyRecognizer { .. })
}

fn is_create_stream(call: &Call) -> bool {
    matches!(call, Call::CreateStream { .. })
}

fn is_destroy_stream(call: &Call) -> bool {
    matches!(call, Call::DestroyStream { .. })
}

fn is_decode_step(call: &Call) -> bool {
    matches!(call, Call::DecodeStep { .. })
}

fn is_get_result(call: &Call) -> bool {
    matches!(call, Call::GetResult { .. })
}

fn is_destroy_result(call: &Call) -> bool {
    matches!(call, Call::DestroyResult { .. })
}

#[test]
fn creation_then_destruction_leaks_nothing() {
    for long_decode in [false, true] {
        let mut engine = Engine::default();
        let online = engine.create(long_decode).unwrap();
        assert_eq!(engine.live(), if long_decode { 2 } else { 1 });
        engine.destroy(online);
        assert_eq!(engine.live(), 0);
        assert_eq!(engine.count(is_create_recognizer), 1);
        assert_eq!(engine.count(is_destroy_recognizer), 1);
        assert_eq!(engine.count(is_create_stream), long_decode as usize);
        assert_eq!(engine.count(is_destroy_stream), long_decode as usize);
        assert!(is_destroy_recognizer(engine.log.last().unwrap()));
    }
}

#[test]
fn a_creation_without_a_recognizer_takes_nothing() {
    for long_decode in [false, true] {
        let mut engine = Engine { refuse_recognizer: true, ..Engine::default() };
        assert_eq!(engine.create(long_decode).err(), Some(Error::CreationFailed));
        assert_eq!(engine.log, vec![Call::CreateRecognizer]);
        assert_eq!(engine.live(), 0);
    }
}

#[test]
fn a_creation_without_a_stream_gives_the_recognizer_back_once() {
    let mut engine = Engine { refuse_stream: true, ..Engine::default() };
    assert_eq!(engine.create(true).err(), Some(Error::StreamCreationFailed));
    assert_eq!(engine.count(is_destroy_recognizer), 1);
    assert_eq!(engine.count(is_destroy_stream), 0);
    assert_eq!(engine.live(), 0);
    let recognizer = 0x1001;
    assert_eq!(
        engine.log,
        vec![
            Call::CreateRecognizer,
            Call::CreateStream { recognizer },
            Call::DestroyRecognizer { recognizer },
        ]
    );
}

#[test]
fn a_recognizer_that_keeps_no_stream_needs_none_at_creation() {
    let mut engine = Engine { refuse_stream: true, ..Engine::default() };
    let online = engine.create(false).unwrap();
    assert_eq!(engine.count(is_create_stream), 0);
    engine.destroy(online);
    assert_eq!(engine.live(), 0);
}

#[test]
fn a_snapshot_that_reports_nothing_is_an_empty_result_and_no_error() {
    for long_decode in [false, true] {
        let mut engine = Engine { report_nothing: true, ..Engine::default() };
        let mut online = engine.create(long_decode).unwrap();
        let decoded = engine.decode(&mut online, 250).unwrap();
        assert_eq!(decoded.text, "");
        assert!(decoded.tokens.is_empty());
        assert!(decoded.timestamps.is_empty());
        assert_eq!(decoded.segments(500_000), Vec::<String>::new());
        assert_eq!(engine.count(is_get_result), 1);
        assert_eq!(engine.count(is_destroy_result), 1);
        engine.destroy(online);
        assert_eq!(engine.live(), 0);
    }
}

#[test]
fn a_decode_before_any_speech_is_an_empty_result() {
    let mut engine = Engine::default();
    let mut online = engine.create(true).unwrap();
    let decoded = engine.decode(&mut online, 0).unwrap();
    assert_eq!(decoded.text, "");
    assert!(decoded.tokens.is_empty());
    assert_eq!(engine.count(is_decode_step), 0);
    engine.destroy(online);
    assert_eq!(engine.live(), 0);
}

#[test]
fn a_failed_fetch_is_an_error_and_leaks_nothing() {
    for long_decode in [false, true] {
        let mut engine = Engine { refuse_result: true, ..Engine::default() };
        let mut online = engine.create(long_decode).unwrap();
        let held = engine.live();
        assert_eq!(engine.decode(&mut online, 250).err(), Some(Error::ResultFetchFailed));
        assert_eq!(engine.live(), held);
        assert_eq!(engine.count(is_destroy_result), 0);
        assert_eq!(engine.decode(&mut online, 250).err(), Some(Error::ResultFetchFailed));
        engine.refuse_result = false;
        assert!(engine.decode(&mut online, 250).is_ok());
        assert_eq!(engine.live(), held);
        engine.destroy(online);
        assert_eq!(engine.live(), 0);
    }
}

#[test]
fn a_decode_of_its_own_fails_where_no_stream_opens() {
    let mut engine = Engine::default();
    let mut online = engine.create(false).unwrap();
    engine.refuse_stream = true;
    assert_eq!(engine.decode(&mut online, 250).err(), Some(Error::StreamCreationFailed));
    assert_eq!(engine.live(), 1);
    assert_eq!(engine.count(is_destroy_stream), 0);
    engine.refuse_stream = false;
    assert_eq!(engine.decode(&mut online, 250).unwrap().tokens.len(), 2);
    engine.destroy(online);
    assert_eq!(engine.live(), 0);
}

#[test]
fn a_decode_takes_every_step_that_the_engine_is_ready_for() {
    let mut engine = Engine::default();
    let mut online = engine.create(true).unwrap();
    let decoded = engine.decode(&mut online, 350).unwrap();
    assert_eq!(engine.count(is_decode_step), 3);
    assert_eq!(decoded.tokens, vec!["t0", "t1", "t2"]);
    assert_eq!(decoded.timestamps, vec![0, 40_000, 80_000]);
    assert_eq!(decoded.text, "t0t1t2");
    let decoded = engine.decode(&mut online, 49).unwrap();
    assert_eq!(engine.count(is_decode_step), 3);
    assert_eq!(decoded.tokens.len(), 3);
    let decoded = engine.decode(&mut online, 1).unwrap();
    assert_eq!(engine.count(is_decode_step), 4);
    assert_eq!(decoded.tokens.len(), 4);
    assert_eq!(engine.count(is_get_result), 3);
    assert_eq!(engine.count(is_destroy_result), 3);
    engine.destroy(online);
    assert_eq!(engine.live(), 0);
}

#[test]
fn the_engine_is_asked_once_more_than_it_steps() {
    let mut engine = Engine::default();
    let mut online = engine.create(true).unwrap();
    engine.log.clear();
    engine.decode(&mut online, 200).unwrap();
    let recognizer = online.recognizer;
    let stream = online.stream.as_ref().unwrap().0;
    let result = 0x1003;
    assert_eq!(
        engine.log,
        vec![
            Call::AcceptWaveform { stream, sample_rate: 16_000, samples: 200 },
            Call::IsReady { recognizer, stream },
            Call::DecodeStep { recognizer, stream },
            Call::IsReady { recognizer, stream },
            Call::DecodeStep { recognizer, stream },
            Call::IsReady { recognizer, stream },
            Call::GetResult { recognizer, stream },
            Call::ReadResult { result, count: 2 },
            Call::DestroyResult { result },
        ]
    );
    engine.destroy(online);
}

#[test]
fn the_results_of_a_kept_stream_grow_until_it_is_reset() {
    let mut engine = Engine::default();
    let mut online = engine.create(true).unwrap();
    let mut before = 0;
    for samples in [0, 30, 100, 70, 500, 0, 99, 1, 1000] {
        let decoded = engine.decode(&mut online, samples).unwrap();
        assert!(decoded.tokens.len() >= before);
        assert_eq!(decoded.tokens.len(), decoded.timestamps.len());
        before = decoded.tokens.len();
    }
    assert_eq!(before, 18);
    let call = online.reset_decode().unwrap();
    engine.perform(call);
    let decoded = engine.decode(&mut online, 100).unwrap();
    assert_eq!(decoded.tokens.len(), 1);
    assert_eq!(engine.count(is_create_stream), 1);
    engine.destroy(online);
    assert_eq!(engine.live(), 0);
}

#[test]
fn decodes_without_a_kept_stream_share_nothing() {
    let mut engine = Engine::default();
    let mut online = engine.create(false).unwrap();
    assert!(engine.is_endpoint(&online));
    assert_eq!(online.reset_decode(), None);
    assert_eq!(online.finish_input(), None);
    let calls = engine.log.len();

    let first = engine.decode(&mut online, 350).unwrap();
    assert_eq!(first.tokens, vec!["t0", "t1", "t2"]);
    assert_eq!(engine.live(), 1);
    let second = engine.decode(&mut online, 120).unwrap();
    assert_eq!(second.tokens, vec!["t0"]);
    assert_eq!(second.timestamps, vec![0]);
    assert_eq!(engine.live(), 1);

    assert_eq!(engine.count(is_create_stream), 2);
    assert_eq!(engine.count(is_destroy_stream), 2);
    let opened: Vec<usize> = engine.log[calls..]
        .iter()
        .filter_map(|call| match call {
            Call::DestroyStream { stream } => Some(*stream),
            _ => None,
        })
        .collect();
    assert_eq!(opened.len(), 2);
    assert_ne!(opened[0], opened[1]);

    assert!(engine.is_endpoint(&online));
    assert_eq!(online.reset_decode(), None);
    assert!(online.stream.is_none());
    engine.destroy(online);
    assert_eq!(engine.live(), 0);
}

#[test]
fn the_end_of_the_input_is_seen_on_the_kept_stream() {
    let mut engine = Engine::default();
    let mut online = engine.create(true).unwrap();
    engine.decode(&mut online, 250).unwrap();
    assert!(!engine.is_endpoint(&online));
    let call = online.finish_input().unwrap();
    assert_eq!(call, Call::InputFinished { stream: online.stream.as_ref().unwrap().0 });
    engine.perform(call);
    assert!(engine.is_endpoint(&online));
    engine.destroy(online);
    assert_eq!(engine.live(), 0);
}

#[test]
fn a_decoded_result_is_cut_where_the_engine_paused() {
    let mut engine = Engine::default();
    let mut online = engine.create(true).unwrap();
    let decoded = engine.decode(&mut online, 400).unwrap();
    assert_eq!(decoded.segments(STEP_MICROS + 1), vec!["t0t1t2t3"]);
    assert_eq!(decoded.segments(STEP_MICROS), vec!["t0", "t1", "t2", "t3"]);
    engine.destroy(online);
}
