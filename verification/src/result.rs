//! What a decode hands back, and how it is cut into segments.

use vstd::prelude::*;

verus! {

/// A decoded transcript: the text, its tokens, and for each token the time at
/// which it begins, in microseconds from the start of the stream.
#[derive(Clone, Debug)]
pub struct ZipFormerResult {
    pub text: String,
    pub tokens: Vec<String>,
    pub timestamps: Vec<i64>,
}

/// The mathematical content of a [`ZipFormerResult`].
pub struct Transcript {
    pub text: Seq<char>,
    pub tokens: Seq<Seq<char>>,
    pub timestamps: Seq<i64>,
}

impl View for ZipFormerResult {
    type V = Transcript;

    open spec fn view(&self) -> Transcript {
        Transcript {
            text: self.text@,
            tokens: self.tokens.deep_view(),
            timestamps: self.timestamps@,
        }
    }
}

/// Whether a new segment begins at token `i`: the token comes at least `split`
/// after the one before it.
pub open spec fn breaks_at(timestamps: Seq<i64>, split: int, i: int) -> bool {
    0 < i < timestamps.len() && timestamps[i] - timestamps[i - 1] >= split
}

/// How many segments begin among the first `n` tokens, the first token aside.
pub open spec fn breaks_before(timestamps: Seq<i64>, split: int, n: int) -> nat
    decreases n,
{
    if n <= 1 {
        0
    } else {
        breaks_before(timestamps, split, n - 1) + if breaks_at(timestamps, split, n - 1) {
            1nat
        } else {
            0nat
        }
    }
}

/// The segments of `tokens`, where `timestamps[i]` is the time of `tokens[i]`.
/// Without tokens there are none. The last token opens a segment of its own
/// where it is the only token or comes at least `split` after the one before
/// it; otherwise it is appended to the last segment of the tokens before it.
pub open spec fn segments_of(
    tokens: Seq<Seq<char>>,
    timestamps: Seq<i64>,
    split: int,
) -> Seq<Seq<char>>
    recommends
        tokens.len() == timestamps.len(),
    decreases tokens.len(),
{
    let n = tokens.len() as int;
    if n == 0 {
        Seq::empty()
    } else {
        let before = segments_of(tokens.take(n - 1), timestamps, split);
        if n == 1 || breaks_at(timestamps, split, n - 1) {
            before.push(tokens[n - 1])
        } else {
            before.drop_last().push(before.last() + tokens[n - 1])
        }
    }
}

impl Transcript {
    /// The transcript of a stream in which nothing has been decoded yet.
    pub open spec fn empty() -> Transcript {
        Transcript { text: Seq::empty(), tokens: Seq::empty(), timestamps: Seq::empty() }
    }

    /// Every token has its timestamp.
    pub open spec fn well_formed(self) -> bool {
        self.tokens.len() == self.timestamps.len()
    }

    /// The segments of the transcript's tokens.
    pub open spec fn segments(self, split: int) -> Seq<Seq<char>> {
        segments_of(self.tokens, self.timestamps, split)
    }
}

/// There are no segments without tokens; with tokens there is one segment more
/// than there are tokens that come at least `split` after their predecessor.
pub proof fn lemma_segments_count(tokens: Seq<Seq<char>>, timestamps: Seq<i64>, split: int)
    ensures
        segments_of(tokens, timestamps, split).len() == if tokens.len() == 0 {
            0
        } else {
            breaks_before(timestamps, split, tokens.len() as int) + 1
        },
    decreases tokens.len(),
{
    let n = tokens.len() as int;
    if n > 0 {
        lemma_segments_count(tokens.take(n - 1), timestamps, split);
    }
}

/// Segmenting leaves out no token and changes no order: the segments written
/// one after the other are the tokens written one after the other.
pub proof fn lemma_segments_keep_every_token(
    tokens: Seq<Seq<char>>,
    timestamps: Seq<i64>,
    split: int,
)
    ensures
        segments_of(tokens, timestamps, split).flatten() == tokens.flatten(),
    decreases tokens.len(),
{
    let n = tokens.len() as int;
    if n > 0 {
        let head = tokens.take(n - 1);
        let last = tokens[n - 1];
        let before = segments_of(head, timestamps, split);
        lemma_segments_keep_every_token(head, timestamps, split);
        lemma_segments_count(head, timestamps, split);
        assert(tokens =~= head.push(last));
        head.lemma_flatten_push(last);
        if n == 1 || breaks_at(timestamps, split, n - 1) {
            before.lemma_flatten_push(last);
        } else {
            assert(before =~= before.drop_last().push(before.last()));
            before.drop_last().lemma_flatten_push(before.last());
            before.drop_last().lemma_flatten_push(before.last() + last);
            assert(before.drop_last().flatten() + (before.last() + last) =~= (
            before.drop_last().flatten() + before.last()) + last);
        }
    }
}

/// Where no token comes `split` or more after its predecessor, the tokens
/// form one segment.
pub proof fn lemma_segments_without_break(
    tokens: Seq<Seq<char>>,
    timestamps: Seq<i64>,
    split: int,
)
    requires
        tokens.len() > 0,
        forall|i: int| 0 < i < tokens.len() ==> !breaks_at(timestamps, split, i),
    ensures
        segments_of(tokens, timestamps, split) == seq![tokens.flatten()],
{
    lemma_breaks_before_none(timestamps, split, tokens.len() as int);
    lemma_segments_count(tokens, timestamps, split);
    lemma_segments_keep_every_token(tokens, timestamps, split);
    let segments = segments_of(tokens, timestamps, split);
    segments.lemma_flatten_singleton();
    assert(segments =~= seq![tokens.flatten()]);
}

/// Where every token comes `split` or more after its predecessor, each token
/// is a segment.
pub proof fn lemma_segments_all_breaks(
    tokens: Seq<Seq<char>>,
    timestamps: Seq<i64>,
    split: int,
)
    requires
        forall|i: int| 0 < i < tokens.len() ==> breaks_at(timestamps, split, i),
    ensures
        segments_of(tokens, timestamps, split) == tokens,
    decreases tokens.len(),
{
    let n = tokens.len() as int;
    if n > 0 {
        lemma_segments_all_breaks(tokens.take(n - 1), timestamps, split);
        assert(tokens =~= tokens.take(n - 1).push(tokens[n - 1]));
    }
}

/// Two results with the same tokens and the same timestamps have the same
/// segments for the same `split`: the text and the history of a result play
/// no part, and asking twice gives the same answer.
pub proof fn lemma_segments_depend_on_tokens_and_times(
    a: ZipFormerResult,
    b: ZipFormerResult,
    split: i64,
)
    requires
        a@.tokens == b@.tokens,
        a@.timestamps == b@.timestamps,
    ensures
        a@.segments(split as int) == b@.segments(split as int),
{
}

proof fn lemma_breaks_before_grows(timestamps: Seq<i64>, split: int, low: int, high: int)
    requires
        low <= high,
    ensures
        breaks_before(timestamps, split, low) <= breaks_before(timestamps, split, high),
    decreases high - low,
{
    if low < high {
        lemma_breaks_before_grows(timestamps, split, low, high - 1);
    }
}

proof fn lemma_breaks_before_rests(timestamps: Seq<i64>, split: int, low: int, high: int)
    requires
        0 < low <= high,
        forall|i: int| low <= i < high ==> !breaks_at(timestamps, split, i),
    ensures
        breaks_before(timestamps, split, high) == breaks_before(timestamps, split, low),
    decreases high - low,
{
    if low < high {
        lemma_breaks_before_rests(timestamps, split, low, high - 1);
    }
}

/// Each run of tokens is a segment. Take the tokens from `first` up to `end`
/// such that the first of them opens a segment, none of the others does, and
/// the tokens end at `end` or the token there opens a segment. These tokens,
/// written one after the other, are a segment: the one whose place is the
/// number of tokens up to `first` that come `split` or more after their
/// predecessor.
pub proof fn lemma_segment_is_run(
    tokens: Seq<Seq<char>>,
    timestamps: Seq<i64>,
    split: int,
    first: int,
    end: int,
)
    requires
        tokens.len() <= timestamps.len(),
        0 <= first < end <= tokens.len(),
        first == 0 || breaks_at(timestamps, split, first),
        forall|i: int| first < i < end ==> !breaks_at(timestamps, split, i),
        end == tokens.len() || breaks_at(timestamps, split, end),
    ensures
        breaks_before(timestamps, split, first + 1) < segments_of(tokens, timestamps, split).len(),
        segments_of(tokens, timestamps, split)[breaks_before(timestamps, split, first + 1) as int]
            == tokens.subrange(first, end).flatten(),
    decreases tokens.len(),
{
    let n = tokens.len() as int;
    let head = tokens.take(n - 1);
    let last = tokens[n - 1];
    let before = segments_of(head, timestamps, split);
    let number = breaks_before(timestamps, split, first + 1) as int;
    lemma_segments_count(head, timestamps, split);
    lemma_segments_count(tokens, timestamps, split);
    if end < n {
        lemma_segment_is_run(head, timestamps, split, first, end);
        assert(head.subrange(first, end) =~= tokens.subrange(first, end));
        lemma_breaks_before_grows(timestamps, split, first + 1, end);
        lemma_breaks_before_grows(timestamps, split, end + 1, n - 1 + 1);
        if !breaks_at(timestamps, split, n - 1) {
            lemma_breaks_before_grows(timestamps, split, end + 1, n - 1);
        }
    } else if first == n - 1 {
        assert(tokens.subrange(first, end) =~= seq![last]);
        seq![last].lemma_flatten_singleton();
    } else {
        lemma_segment_is_run(head, timestamps, split, first, n - 1);
        lemma_breaks_before_rests(timestamps, split, first + 1, n - 1);
        assert(tokens.subrange(first, end) =~= head.subrange(first, n - 1).push(last));
        head.subrange(first, n - 1).lemma_flatten_push(last);
    }
}

proof fn lemma_breaks_before_none(timestamps: Seq<i64>, split: int, n: int)
    requires
        forall|i: int| 0 < i < n ==> !breaks_at(timestamps, split, i),
    ensures
        breaks_before(timestamps, split, n) == 0,
    decreases n,
{
    if n > 1 {
        lemma_breaks_before_none(timestamps, split, n - 1);
    }
}

impl ZipFormerResult {
    /// Every token has its timestamp.
    pub open spec fn well_formed(&self) -> bool {
        self@.well_formed()
    }

    /// The result of a stream in which nothing has been decoded yet.
    pub fn empty() -> (result: ZipFormerResult)
        ensures
            result@ == Transcript::empty(),
    {
        let result = ZipFormerResult {
            text: String::new(),
            tokens: Vec::new(),
            timestamps: Vec::new(),
        };
        assert(result.tokens.deep_view() =~= Seq::<Seq<char>>::empty());
        result
    }

    /// Cuts the tokens into segments: a new one begins wherever a token comes
    /// at least `split` microseconds after the one before it. Each segment is
    /// its tokens written one after the other. No token is left out: a single
    /// token is a segment, and so is a last token that stands alone after a
    /// gap. A result without tokens has no segments.
    pub fn segments(&self, split: i64) -> (segments: Vec<String>)
        requires
            self.well_formed(),
        ensures
            segments.deep_view() == self@.segments(split as int),
    {
        let n = self.timestamps.len();
        let mut done: Vec<String> = Vec::new();
        if n == 0 {
            assert(done.deep_view() =~= self@.segments(split as int));
            return done;
        }
        let mut current = self.tokens[0].clone();
        let ghost tokens = self@.tokens;
        let ghost times = self@.timestamps;
        assert(segments_of(tokens.take(1), times, split as int) =~= done.deep_view().push(
            current@,
        )) by {
            assert(segments_of(tokens.take(1).take(0), times, split as int) =~= Seq::<
                Seq<char>,
            >::empty());
        }
        let mut i: usize = 1;
        while i < n
            invariant
                1 <= i <= n,
                n == self.timestamps.len(),
                self.well_formed(),
                tokens == self@.tokens,
                times == self@.timestamps,
                segments_of(tokens.take(i as int), times, split as int) == done.deep_view().push(
                    current@,
                ),
            decreases n - i,
        {
            let gap: i128 = self.timestamps[i] as i128 - self.timestamps[i - 1] as i128;
            let ghost before = done.deep_view().push(current@);
            proof {
                let upto = tokens.take(i as int + 1);
                assert(upto.take(i as int) =~= tokens.take(i as int));
                assert(upto[i as int] == self.tokens[i as int]@);
                assert(breaks_at(times, split as int, i as int) == (gap >= split));
            }
            if gap >= split as i128 {
                done.push(current);
                assert(done.deep_view() =~= before);
                current = self.tokens[i].clone();
            } else {
                current.append(self.tokens[i].as_str());
                assert(before.drop_last() =~= done.deep_view());
            }
            i += 1;
        }
        assert(tokens.take(n as int) =~= tokens);
        let ghost before = done.deep_view();
        done.push(current);
        assert(done.deep_view() =~= before.push(current@));
        done
    }
}

} // verus!
