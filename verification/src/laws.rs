//! What holds of whole runs of the machines, whatever the engine replies.

use vstd::prelude::*;
use crate::decoding::{DecodingView, StageView};
use crate::engine::{Call, ReplyView, Step};
use crate::error::Error;
use crate::ledger::{silence, Ledger};
use crate::machine::{after, answered, calls, lemma_run_keeps_account, Machine};
use crate::online::{Creation, CreationStage, ZipFormerOnline};
use crate::result::Transcript;
use crate::stream::{EndpointQuery, ZipFormerStream};

verus! {

/// Ending a recognizer gives back what it holds, the stream before the
/// recognizer: each of the two calls is made on a live handle, and afterwards
/// the ledger is what it was before the recognizer held anything.
pub proof fn lemma_drop_gives_everything_back(online: ZipFormerOnline, before: Ledger)
    requires
        online.well_formed(),
    ensures
        online.held_beyond(before).admits_all(online.spec_drop(), silence(online.spec_drop())),
        online.held_beyond(before).replay(online.spec_drop(), silence(online.spec_drop()))
            == before,
        online.spec_drop() == match online.kept() {
            Some(stream) => seq![
                Call::DestroyStream { stream },
                Call::DestroyRecognizer { recognizer: online.recognizer },
            ],
            None => seq![Call::DestroyRecognizer { recognizer: online.recognizer }],
        },
{
    reveal_with_fuel(Ledger::replay, 3);
    reveal_with_fuel(Ledger::admits_all, 3);
    let recognizer = online.recognizer;
    let gone = online.spec_drop();
    assert(before.recognizers.insert(recognizer).remove(recognizer) =~= before.recognizers);
    match online.kept() {
        Some(stream) => {
            assert(before.streams.insert(stream).remove(stream) =~= before.streams);
            assert(gone.drop_first() =~= seq![Call::DestroyRecognizer { recognizer }]);
            assert(gone.drop_first().drop_first() =~= Seq::<Call>::empty());
        },
        None => {
            assert(gone.drop_first() =~= Seq::<Call>::empty());
        },
    }
}

/// A creation that is followed at once by the recognizer's end leaks
/// nothing. Whatever the configuration and whatever the engine replies, as
/// long as each reply answers its call: every call is made on live handles
/// only; a creation that fails leaves the ledger as it found it; and one that
/// succeeds makes a recognizer whose end leaves the ledger as the creation
/// found it.
pub proof fn lemma_creation_then_drop_leaks_nothing(
    creation: Creation,
    before: Ledger,
    replies: Seq<ReplyView>,
)
    requires
        creation.stage == CreationStage::Recognizer,
        answered(creation, replies),
    ensures
        before.admits_all(calls(creation, replies), replies),
        match after(creation, replies) {
            Step::Next(_) => true,
            Step::Done(Err(_)) => before.replay(calls(creation, replies), replies) == before,
            Step::Done(Ok(online)) => {
                let made = before.replay(calls(creation, replies), replies);
                &&& online.well_formed()
                &&& made.admits_all(online.spec_drop(), silence(online.spec_drop()))
                &&& made.replay(online.spec_drop(), silence(online.spec_drop())) == before
            },
        },
{
    lemma_run_keeps_account(creation, before, before, replies);
    match after(creation, replies) {
        Step::Done(Ok(online)) => {
            lemma_drop_gives_everything_back(online, before);
        },
        _ => {},
    }
}

/// The four ways in which a creation runs. With `recognizer` and `stream`
/// the handles that the engine returns when asked: without a recognizer the
/// creation fails after its first call; where no stream is to be kept, the
/// recognizer is made after one call; where the stream cannot be opened, the
/// recognizer is given back, once, and the creation fails; otherwise the
/// recognizer is made and keeps the stream.
pub proof fn lemma_creation_runs(creation: Creation, recognizer: usize, stream: usize)
    requires
        creation.stage == CreationStage::Recognizer,
    ensures
        ({
            let replies = seq![
                ReplyView::Handle(recognizer),
                ReplyView::Handle(stream),
                ReplyView::Nothing,
            ];
            let made = calls(creation, replies);
            let end = after(creation, replies);
            if recognizer == 0 {
                &&& made == seq![Call::CreateRecognizer]
                &&& end == Step::<Creation, Result<ZipFormerOnline, Error>>::Done(
                    Err(Error::CreationFailed),
                )
            } else if !creation.long_decode {
                &&& made == seq![Call::CreateRecognizer]
                &&& end == Step::<Creation, Result<ZipFormerOnline, Error>>::Done(
                    Ok(ZipFormerOnline { recognizer, stream: None }),
                )
            } else if stream == 0 {
                &&& made == seq![
                    Call::CreateRecognizer,
                    Call::CreateStream { recognizer },
                    Call::DestroyRecognizer { recognizer },
                ]
                &&& end == Step::<Creation, Result<ZipFormerOnline, Error>>::Done(
                    Err(Error::StreamCreationFailed),
                )
            } else {
                &&& made == seq![Call::CreateRecognizer, Call::CreateStream { recognizer }]
                &&& end == Step::<Creation, Result<ZipFormerOnline, Error>>::Done(
                    Ok(ZipFormerOnline { recognizer, stream: Some(ZipFormerStream(stream)) }),
                )
            }
        }),
{
    reveal_with_fuel(calls, 4);
    reveal_with_fuel(after, 4);
    let replies = seq![
        ReplyView::Handle(recognizer),
        ReplyView::Handle(stream),
        ReplyView::Nothing,
    ];
    assert(replies.drop_first() =~= seq![ReplyView::Handle(stream), ReplyView::Nothing]);
    assert(replies.drop_first().drop_first() =~= seq![ReplyView::Nothing]);
    let made = calls(creation, replies);
    if recognizer == 0 || !creation.long_decode {
        assert(made =~= seq![Call::CreateRecognizer]);
    } else if stream == 0 {
        assert(made =~= seq![
            Call::CreateRecognizer,
            Call::CreateStream { recognizer },
            Call::DestroyRecognizer { recognizer },
        ]);
    } else {
        assert(made =~= seq![Call::CreateRecognizer, Call::CreateStream { recognizer }]);
    }
}

/// A decode gives back what it takes. Begun on a live recognizer, and on a
/// live stream unless it opens its own, and whatever the engine replies, as
/// long as each reply answers its call: every call is made on live handles
/// only, and when the decode has ended, with a transcript or with a failure,
/// the ledger is what it was when the decode began.
pub proof fn lemma_decode_leaks_nothing(
    decoding: DecodingView,
    before: Ledger,
    replies: Seq<ReplyView>,
)
    requires
        decoding.begins(),
        before.recognizers.contains(decoding.task.recognizer),
        !decoding.task.ephemeral ==> before.streams.contains(decoding.task.stream),
        answered(decoding, replies),
    ensures
        before.admits_all(calls(decoding, replies), replies),
        after(decoding, replies) is Done ==> before.replay(calls(decoding, replies), replies)
            == before,
{
    lemma_run_keeps_account(decoding, before, before, replies);
}

/// A recognizer takes nothing while it lives. With the handles of the
/// recognizer live, whatever is asked of it is asked on live handles and
/// leaves the ledger as it was: a decode, once it has ended, whatever the
/// engine replies; the start of a new utterance; the end of the input; and
/// the question for the end of an utterance.
pub proof fn lemma_recognizer_takes_nothing_while_it_lives(
    online: ZipFormerOnline,
    before: Ledger,
    sample_rate: u32,
    samples: usize,
    decode_replies: Seq<ReplyView>,
    endpoint_reply: ReplyView,
)
    requires
        online.well_formed(),
        answered(online.spec_decode(sample_rate, samples), decode_replies),
    ensures
        ({
            let held = online.held_beyond(before);
            let decoding = online.spec_decode(sample_rate, samples);
            &&& held.admits_all(calls(decoding, decode_replies), decode_replies)
            &&& after(decoding, decode_replies) is Done ==> held.replay(
                calls(decoding, decode_replies),
                decode_replies,
            ) == held
            &&& online.spec_reset_decode() matches Some(call) ==> held.admits(call) && held.record(
                call,
                ReplyView::Nothing,
            ) == held
            &&& online.spec_finish_input() matches Some(call) ==> held.admits(call) && held.record(
                call,
                ReplyView::Nothing,
            ) == held
            &&& online.spec_is_endpoint() matches Step::Next(query) ==> held.admits(
                query.pending(),
            ) && held.record(query.pending(), endpoint_reply) == held
        }),
{
    let held = online.held_beyond(before);
    lemma_decode_leaks_nothing(online.spec_decode(sample_rate, samples), held, decode_replies);
}

/// Asking for the end of an utterance takes nothing: the one call is made on
/// live handles, where the stream and its recognizer are live, and leaves the
/// ledger as it was.
pub proof fn lemma_endpoint_query_leaks_nothing(
    query: EndpointQuery,
    before: Ledger,
    replies: Seq<ReplyView>,
)
    requires
        before.recognizers.contains(query.recognizer),
        before.streams.contains(query.stream),
        answered(query, replies),
    ensures
        before.admits_all(calls(query, replies), replies),
        before.replay(calls(query, replies), replies) == before,
{
    lemma_run_keeps_account(query, before, before, replies);
}

/// The place of the first reply that tells of a fetched snapshot; the number
/// of replies where there is none.
pub open spec fn first_fetched(replies: Seq<ReplyView>) -> int
    decreases replies.len(),
{
    if replies.len() == 0 || replies[0] is Fetched {
        0
    } else {
        1 + first_fetched(replies.drop_first())
    }
}

/// The number of tokens that the first fetched snapshot reports, none for a
/// number below zero.
pub open spec fn reported(replies: Seq<ReplyView>) -> int {
    match replies[first_fetched(replies)] {
        ReplyView::Fetched { count, .. } if count > 0 => count as int,
        _ => 0,
    }
}

/// What a decode is to return, going by the first reply that tells of a
/// fetched snapshot and by the reply after it: a failure without a snapshot,
/// the empty transcript for a snapshot that reports no token, and else what
/// was copied out of the snapshot.
pub open spec fn verdict(replies: Seq<ReplyView>) -> Result<Transcript, Error> {
    let at = first_fetched(replies);
    match replies[at] {
        ReplyView::Fetched { result, count } => if result == 0 {
            Err(Error::ResultFetchFailed)
        } else if count <= 0 {
            Ok(Transcript::empty())
        } else {
            match replies[at + 1] {
                ReplyView::Read(copied) => Ok(copied),
                _ => Err(Error::ResultFetchFailed),
            }
        },
        _ => Err(Error::ResultFetchFailed),
    }
}

spec fn foretold(decoding: DecodingView, replies: Seq<ReplyView>) -> Result<Transcript, Error> {
    match decoding.stage {
        StageView::Closing { outcome } => outcome,
        StageView::Releasing { decoded, .. } => Ok(decoded),
        StageView::Reading { .. } => match replies[0] {
            ReplyView::Read(copied) => Ok(copied),
            _ => Err(Error::ResultFetchFailed),
        },
        StageView::Opening => if replies[0] == ReplyView::Handle(0) {
            Err(Error::StreamCreationFailed)
        } else {
            verdict(replies)
        },
        _ => verdict(replies),
    }
}

spec fn sized(outcome: Result<Transcript, Error>, count: int) -> bool {
    outcome matches Ok(decoded) ==> decoded.tokens.len() == count && decoded.timestamps.len()
        == count
}

spec fn foretold_size(decoding: DecodingView, replies: Seq<ReplyView>) -> int {
    match decoding.stage {
        StageView::Closing { outcome } => match outcome {
            Ok(decoded) => decoded.tokens.len() as int,
            Err(_) => 0,
        },
        StageView::Releasing { decoded, .. } => decoded.tokens.len() as int,
        StageView::Reading { count, .. } => count as int,
        _ => reported(replies),
    }
}

spec fn fetches(decoding: DecodingView, replies: Seq<ReplyView>) -> bool {
    match decoding.stage {
        StageView::Closing { .. } | StageView::Releasing { .. } | StageView::Reading { .. } => true,
        StageView::Opening if replies[0] == ReplyView::Handle(0) => true,
        _ => {
            let at = first_fetched(replies);
            &&& at < replies.len()
            &&& replies[at] matches ReplyView::Fetched { result, count } ==> (result != 0 && count
                > 0 ==> at + 1 < replies.len())
        },
    }
}

proof fn lemma_first_fetched_is_a_place(replies: Seq<ReplyView>)
    ensures
        0 <= first_fetched(replies) <= replies.len(),
    decreases replies.len(),
{
    if replies.len() > 0 {
        lemma_first_fetched_is_a_place(replies.drop_first());
    }
}

proof fn lemma_outcome_is_foretold(decoding: DecodingView, replies: Seq<ReplyView>)
    requires
        answered(decoding, replies),
        decoding.stage is Opening ==> decoding.task.ephemeral,
        decoding.stage matches StageView::Releasing { decoded, .. } ==> decoded.well_formed(),
        decoding.stage matches StageView::Closing { outcome: Ok(decoded) }
            ==> decoded.well_formed(),
    ensures
        after(decoding, replies) matches Step::Done(outcome) ==> {
            &&& fetches(decoding, replies)
            &&& outcome == foretold(decoding, replies)
            &&& sized(outcome, foretold_size(decoding, replies))
        },
    decreases replies.len(),
{
    if replies.len() > 0 {
        let rest = replies.drop_first();
        let at = first_fetched(rest);
        lemma_first_fetched_is_a_place(rest);
        match decoding.step(replies[0]) {
            Step::Next(next) => {
                lemma_outcome_is_foretold(next, rest);
                if after(next, rest) is Done {
                    if replies[0] is Fetched {
                        if rest.len() > 0 {
                            assert(replies[1] == rest[0]);
                        }
                    } else if fetches(next, rest) && at < rest.len() {
                        assert(first_fetched(replies) == 1 + at);
                        assert(replies[1 + at] == rest[at]);
                        if at + 1 < rest.len() {
                            assert(replies[1 + at + 1] == rest[at + 1]);
                        }
                    }
                }
            },
            Step::Done(_) => {},
        }
    }
}

/// What a decode returns. For every run of a decode from its beginning to
/// its end, whatever the engine replies, as long as each reply answers its
/// call: a decode that opens its own stream fails with
/// `StreamCreationFailed` where the engine returns none; any other decode
/// returns what the fetched snapshot calls for: `ResultFetchFailed` without
/// a snapshot, the empty transcript for a snapshot that reports no token,
/// and else what was copied out of it, with as many tokens and timestamps as
/// the snapshot reports.
pub proof fn lemma_decode_returns_the_snapshot(decoding: DecodingView, replies: Seq<ReplyView>)
    requires
        decoding.begins(),
        answered(decoding, replies),
    ensures
        after(decoding, replies) matches Step::Done(outcome) ==> {
            &&& outcome == if decoding.task.ephemeral && replies[0] == ReplyView::Handle(0) {
                Err::<Transcript, Error>(Error::StreamCreationFailed)
            } else {
                verdict(replies)
            }
            &&& !(decoding.task.ephemeral && replies[0] == ReplyView::Handle(0))
                ==> first_fetched(replies) < replies.len()
            &&& outcome matches Ok(decoded) ==> {
                &&& decoded.tokens.len() == reported(replies)
                &&& decoded.timestamps.len() == reported(replies)
            }
        },
{
    lemma_outcome_is_foretold(decoding, replies);
}

/// The results grow as the snapshots do. Of two decodes that both return a
/// transcript, the second returns at least as many tokens as the first
/// wherever the snapshot that the engine fetched for it reports at least as
/// many. Whether the engine's snapshots grow from one decode to the next is
/// the engine's affair.
pub proof fn lemma_decodes_grow_with_the_snapshots(
    first: DecodingView,
    first_replies: Seq<ReplyView>,
    second: DecodingView,
    second_replies: Seq<ReplyView>,
)
    requires
        first.begins(),
        second.begins(),
        answered(first, first_replies),
        answered(second, second_replies),
        reported(first_replies) <= reported(second_replies),
    ensures
        after(first, first_replies) matches Step::Done(Ok(earlier)) ==> (after(
            second,
            second_replies,
        ) matches Step::Done(Ok(later)) ==> earlier.tokens.len() <= later.tokens.len()),
{
    lemma_decode_returns_the_snapshot(first, first_replies);
    lemma_decode_returns_the_snapshot(second, second_replies);
}

/// Whether each of the calls that is made on a stream is made on `stream`.
pub open spec fn keeps_to(made: Seq<Call>, stream: usize) -> bool {
    forall|i: int|
        0 <= i < made.len() ==> ((#[trigger] made[i]).stream() matches Some(named) ==> named
            == stream)
}

proof fn lemma_calls_are_no_more_than_replies<M: Machine>(machine: M, replies: Seq<ReplyView>)
    ensures
        calls(machine, replies).len() <= replies.len(),
        replies.len() > 0 ==> calls(machine, replies).len() > 0 && calls(machine, replies)[0]
            == machine.pending(),
    decreases replies.len(),
{
    if replies.len() > 0 {
        match machine.step(replies[0]) {
            Step::Next(next) => {
                lemma_calls_are_no_more_than_replies(next, replies.drop_first());
            },
            Step::Done(_) => {},
        }
    }
}

proof fn lemma_open_decode_keeps_to_its_stream(decoding: DecodingView, replies: Seq<ReplyView>)
    requires
        !(decoding.stage is Opening),
    ensures
        keeps_to(calls(decoding, replies), decoding.task.stream),
        decoding.task.ephemeral && after(decoding, replies) is Done ==> {
            &&& calls(decoding, replies).len() > 0
            &&& calls(decoding, replies).last() == Call::DestroyStream {
                stream: decoding.task.stream,
            }
        },
    decreases replies.len(),
{
    if replies.len() > 0 {
        let made = calls(decoding, replies);
        let rest = replies.drop_first();
        match decoding.step(replies[0]) {
            Step::Next(next) => {
                lemma_open_decode_keeps_to_its_stream(next, rest);
                let later = calls(next, rest);
                assert(made =~= seq![decoding.pending()] + later);
                assert forall|i: int| 0 <= i < made.len() implies ((#[trigger] made[i]).stream()
                    matches Some(named) ==> named == decoding.task.stream) by {
                    if i > 0 {
                        assert(made[i] == later[i - 1]);
                    }
                }
                if decoding.task.ephemeral && after(decoding, replies) is Done {
                    assert(made.last() == later.last());
                }
            },
            Step::Done(_) => {
                assert(made =~= seq![decoding.pending()]);
            },
        }
    }
}

/// A decode that opens its own stream works on that stream and on no other,
/// and gives it back. Its first call opens a stream on the recognizer. Where
/// the engine returns none, the decode ends there, with
/// `StreamCreationFailed`. Otherwise every later call that is made on a
/// stream is made on the one that the engine returned, and the last call of
/// a decode that has ended gives that stream back. So two such decodes, one
/// after the other, meet in nothing but the recognizer.
pub proof fn lemma_one_shot_decode_uses_its_own_stream(
    decoding: DecodingView,
    replies: Seq<ReplyView>,
    opened: usize,
)
    requires
        decoding.stage is Opening,
        decoding.task.ephemeral,
        replies.len() > 0,
        replies[0] == ReplyView::Handle(opened),
    ensures
        calls(decoding, replies)[0] == (Call::CreateStream {
            recognizer: decoding.task.recognizer,
        }),
        opened == 0 ==> {
            &&& calls(decoding, replies).len() == 1
            &&& after(decoding, replies) == Step::<DecodingView, Result<Transcript, Error>>::Done(
                Err(Error::StreamCreationFailed),
            )
        },
        opened != 0 ==> {
            &&& keeps_to(calls(decoding, replies).drop_first(), opened)
            &&& after(decoding, replies) is Done ==> calls(decoding, replies).last()
                == Call::DestroyStream { stream: opened }
        },
{
    let made = calls(decoding, replies);
    let rest = replies.drop_first();
    match decoding.step(replies[0]) {
        Step::Next(next) => {
            lemma_open_decode_keeps_to_its_stream(next, rest);
            let later = calls(next, rest);
            assert(made =~= seq![decoding.pending()] + later);
            assert(made.drop_first() =~= later);
            if after(decoding, replies) is Done {
                assert(made.last() == later.last());
            }
        },
        Step::Done(_) => {
            assert(made =~= seq![decoding.pending()]);
        },
    }
}

/// A decode drains the stream before it fetches. In every run of a decode,
/// whatever the engine replies, as long as each reply answers its call: when
/// the engine says, with a number above zero, that it can take a decode
/// step, the next call is that step, and after the step the engine is asked
/// again; the snapshot is fetched when the engine has said that it cannot,
/// and at no other time.
pub proof fn lemma_decode_drains_before_it_fetches(
    decoding: DecodingView,
    replies: Seq<ReplyView>,
    i: int,
)
    requires
        answered(decoding, replies),
        0 <= i,
        i + 1 < calls(decoding, replies).len(),
    ensures
        ({
            let made = calls(decoding, replies);
            &&& made[i] is IsReady ==> match replies[i] {
                ReplyView::Flag(flag) => if flag > 0 {
                    made[i + 1] is DecodeStep
                } else {
                    made[i + 1] is GetResult
                },
                _ => false,
            }
            &&& made[i] is DecodeStep ==> made[i + 1] is IsReady
            &&& made[i + 1] is GetResult ==> made[i] is IsReady
            &&& made[i + 1] is DecodeStep ==> made[i] is IsReady
        }),
    decreases i,
{
    let made = calls(decoding, replies);
    lemma_calls_are_no_more_than_replies(decoding, replies);
    let rest = replies.drop_first();
    match decoding.step(replies[0]) {
        Step::Next(next) => {
            let later = calls(next, rest);
            assert(made =~= seq![decoding.pending()] + later);
            lemma_calls_are_no_more_than_replies(next, rest);
            assert(made[i + 1] == later[i]);
            if i > 0 {
                assert(made[i] == later[i - 1]);
                assert(replies[i] == rest[i - 1]);
                lemma_decode_drains_before_it_fetches(next, rest, i - 1);
            }
        },
        Step::Done(_) => {
            assert(made =~= seq![decoding.pending()]);
        },
    }
}

/// A recognizer that keeps no stream keeps nothing from one decode to the
/// next: starting a new utterance and ending the input ask for no call, the
/// end of an utterance is seen at once, and a decode begins with the opening
/// of a stream of its own, the same decode whatever was decoded before.
pub proof fn lemma_recognizer_without_stream_keeps_nothing(
    online: ZipFormerOnline,
    sample_rate: u32,
    samples: usize,
)
    requires
        online.stream is None,
    ensures
        online.spec_reset_decode() is None,
        online.spec_finish_input() is None,
        online.spec_is_endpoint() == Step::<EndpointQuery, bool>::Done(true),
        online.spec_decode(sample_rate, samples) == DecodingView::one_shot(
            online.recognizer,
            sample_rate,
            samples,
        ),
        online.spec_decode(sample_rate, samples).pending() == (Call::CreateStream {
            recognizer: online.recognizer,
        }),
{
}

/// Whether none of the calls opens or gives back a stream or a recognizer.
pub open spec fn keeps_all(made: Seq<Call>) -> bool {
    forall|i: int|
        0 <= i < made.len() ==> match #[trigger] made[i] {
            Call::CreateRecognizer => false,
            Call::DestroyRecognizer { .. } => false,
            Call::CreateStream { .. } => false,
            Call::DestroyStream { .. } => false,
            _ => true,
        }
}

proof fn lemma_lasting_decode_keeps_all(decoding: DecodingView, replies: Seq<ReplyView>)
    requires
        !decoding.task.ephemeral,
        !(decoding.stage is Opening),
        !(decoding.stage is Closing),
    ensures
        keeps_all(calls(decoding, replies)),
    decreases replies.len(),
{
    if replies.len() > 0 {
        let made = calls(decoding, replies);
        match decoding.step(replies[0]) {
            Step::Next(next) => {
                lemma_lasting_decode_keeps_all(next, replies.drop_first());
                let later = calls(next, replies.drop_first());
                assert(made =~= seq![decoding.pending()] + later);
                assert forall|i: int| 0 < i < made.len() implies made[i] == later[i - 1] by {}
            },
            Step::Done(_) => {
                assert(made =~= seq![decoding.pending()]);
            },
        }
    }
}

/// A decode on the stream that the recognizer keeps stays on that stream and
/// leaves it open: every call that is made on a stream is made on the kept
/// one, and no call opens or gives back a stream or a recognizer. What the
/// stream has decoded is there for the next decode.
pub proof fn lemma_decode_on_kept_stream_keeps_it(
    decoding: DecodingView,
    replies: Seq<ReplyView>,
)
    requires
        decoding.stage is Feeding,
        !decoding.task.ephemeral,
    ensures
        keeps_to(calls(decoding, replies), decoding.task.stream),
        keeps_all(calls(decoding, replies)),
{
    lemma_open_decode_keeps_to_its_stream(decoding, replies);
    lemma_lasting_decode_keeps_all(decoding, replies);
}

} // verus!
