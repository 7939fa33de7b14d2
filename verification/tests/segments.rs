use zipformer_ol::ZipFormerResult;

fn result(tokens: &[&str], timestamps: &[i64]) -> ZipFormerResult {
    ZipFormerResult {
        text: tokens.concat(),
        tokens: tokens.iter().map(|token| token.to_string()).collect(),
        timestamps: timestamps.to_vec(),
    }
}

fn strings(segments: &[&str]) -> Vec<String> {
    segments.iter().map(|segment| segment.to_string()).collect()
}

#[test]
fn a_gap_of_at_least_the_split_begins_a_segment() {
    let decoded = result(&["a", "b", "c", "d"], &[0, 100_000, 900_000, 1_000_000]);
    assert_eq!(decoded.segments(500_000), strings(&["ab", "cd"]));
}

#[test]
fn seconds_as_floats_give_the_same_cut() {
    let seconds: [f32; 4] = [0.0, 0.1, 0.9, 1.0];
    let micros: Vec<i64> = seconds.iter().map(|s| (*s as f64 * 1e6).round() as i64).collect();
    let split = (0.5f32 as f64 * 1e6).round() as i64;
    let decoded = result(&["a", "b", "c", "d"], &micros);
    assert_eq!(decoded.segments(split), strings(&["ab", "cd"]));
}

#[test]
fn no_tokens_no_segments() {
    let decoded = ZipFormerResult::empty();
    assert_eq!(decoded.text, "");
    assert!(decoded.tokens.is_empty());
    assert!(decoded.timestamps.is_empty());
    assert_eq!(decoded.segments(500_000), Vec::<String>::new());
    assert_eq!(decoded.segments(0), Vec::<String>::new());
}

#[test]
fn a_single_token_is_a_segment() {
    let decoded = result(&["hello"], &[42]);
    assert_eq!(decoded.segments(500_000), strings(&["hello"]));
    assert_eq!(decoded.segments(0), strings(&["hello"]));
    assert_eq!(decoded.segments(-1), strings(&["hello"]));
}

#[test]
fn two_tokens_close_together_are_one_segment() {
    let decoded = result(&["a", "b"], &[0, 100_000]);
    assert_eq!(decoded.segments(500_000), strings(&["ab"]));
}

#[test]
fn a_last_token_after_a_gap_is_kept() {
    let decoded = result(&["a", "b"], &[0, 900_000]);
    assert_eq!(decoded.segments(500_000), strings(&["a", "b"]));
    let decoded = result(&["a", "b", "c"], &[0, 100_000, 900_000]);
    assert_eq!(decoded.segments(500_000), strings(&["ab", "c"]));
}

#[test]
fn a_gap_equal_to_the_split_cuts_and_one_below_does_not() {
    let decoded = result(&["a", "b", "c"], &[0, 500_000, 999_999]);
    assert_eq!(decoded.segments(500_000), strings(&["a", "bc"]));
    let decoded = result(&["a", "b", "c"], &[0, 499_999, 999_999]);
    assert_eq!(decoded.segments(500_000), strings(&["ab", "c"]));
}

#[test]
fn a_split_of_zero_cuts_wherever_time_does_not_run_backwards() {
    let decoded = result(&["a", "b", "c", "d"], &[0, 0, 5, 4]);
    assert_eq!(decoded.segments(0), strings(&["a", "b", "cd"]));
}

#[test]
fn a_split_that_no_gap_reaches_gives_one_segment() {
    let decoded = result(&["a", "b", "c", "d"], &[0, 100_000, 900_000, 1_000_000]);
    assert_eq!(decoded.segments(i64::MAX), strings(&["abcd"]));
}

#[test]
fn a_split_that_every_gap_reaches_gives_the_tokens() {
    let decoded = result(&["a", "b", "c", "d"], &[0, 100_000, 900_000, 1_000_000]);
    assert_eq!(decoded.segments(100_000), strings(&["a", "b", "c", "d"]));
    assert_eq!(decoded.segments(i64::MIN), strings(&["a", "b", "c", "d"]));
}

#[test]
fn gaps_are_taken_without_overflow() {
    // The first gap is 2^64 - 1, above every split; the second is its
    // negative, below every split.
    let decoded = result(&["a", "b", "c"], &[i64::MIN, i64::MAX, i64::MIN]);
    assert_eq!(decoded.segments(i64::MAX), strings(&["a", "bc"]));
    assert_eq!(decoded.segments(1), strings(&["a", "bc"]));
    assert_eq!(decoded.segments(i64::MIN), strings(&["a", "bc"]));
    let decoded = result(&["a", "b"], &[i64::MAX, i64::MIN]);
    assert_eq!(decoded.segments(i64::MIN), strings(&["ab"]));
    assert_eq!(decoded.segments(1), strings(&["ab"]));
    let decoded = result(&["a", "b"], &[-1, i64::MAX]);
    assert_eq!(decoded.segments(i64::MAX), strings(&["a", "b"]));
    let decoded = result(&["a", "b"], &[0, i64::MAX]);
    assert_eq!(decoded.segments(i64::MAX), strings(&["a", "b"]));
    let decoded = result(&["a", "b"], &[1, i64::MAX]);
    assert_eq!(decoded.segments(i64::MAX), strings(&["ab"]));
}

#[test]
fn empty_tokens_still_count() {
    let decoded = result(&["", "x", ""], &[0, 10, 20]);
    assert_eq!(decoded.segments(10), strings(&["", "x", ""]));
    assert_eq!(decoded.segments(11), strings(&["x"]));
}

#[test]
fn tokens_of_more_than_one_letter_are_joined_without_a_separator() {
    let decoded = result(&["▁he", "llo", "▁wor", "ld"], &[0, 40_000, 1_200_000, 1_240_000]);
    assert_eq!(decoded.segments(500_000), strings(&["▁hello", "▁world"]));
}

#[test]
fn asking_twice_gives_the_same_segments() {
    let decoded = result(&["a", "b", "c", "d", "e"], &[0, 700_000, 800_000, 2_000_000, 2_100_000]);
    let once = decoded.segments(500_000);
    let twice = decoded.segments(500_000);
    assert_eq!(once, twice);
    assert_eq!(once, strings(&["a", "bc", "de"]));
    let other = ZipFormerResult {
        text: "something else".to_string(),
        tokens: decoded.tokens.clone(),
        timestamps: decoded.timestamps.clone(),
    };
    assert_eq!(other.segments(500_000), once);
}

#[test]
fn the_segments_put_together_are_the_tokens_put_together() {
    let tokens = ["a", "bc", "", "d", "efg", "h"];
    let timestamps = [0, 10, 30, 35, 90, 91];
    let decoded = result(&tokens, &timestamps);
    for split in [-5, 0, 1, 5, 10, 20, 21, 55, 56, 1000] {
        let segments = decoded.segments(split);
        assert_eq!(segments.concat(), tokens.concat());
        let breaks = (1..timestamps.len())
            .filter(|i| timestamps[*i] - timestamps[*i - 1] >= split)
            .count();
        assert_eq!(segments.len(), breaks + 1);
    }
}
