use vstd::prelude::*;

use rand::Rng;

use crate::stamp::Score;
use crate::stamp::Stamp;
use crate::stamp::scores_monotone;
use crate::stamp::stamps_sorted;
use crate::stamp::valid_game;

verus! {

/// How many stamps the generator appends after the initial one.
pub const TIMESTAMPS_COUNT: usize = 50000;

/// Chance that a stamp changes the score, as a ratio.
const PROBABILITY_SCORE_CHANGED_NUMERATOR: u32 = 1;

const PROBABILITY_SCORE_CHANGED_DENOMINATOR: u32 = 10000;

/// Chance that a score change goes to the home side, as a ratio.
const PROBABILITY_HOME_SCORE_NUMERATOR: u32 = 45;

const PROBABILITY_HOME_SCORE_DENOMINATOR: u32 = 100;

/// Largest step the offset may advance between consecutive stamps.
pub const OFFSET_MAX_STEP: i32 = 3;

/// Relies on `rand::Rng::gen_ratio`: a random bool, true with probability
/// `numerator/denominator`. It panics when the denominator is zero or the
/// ratio exceeds one, so those inputs are excluded; nothing can be promised
/// of the value drawn.
#[verifier::external_body]
fn random_ratio(numerator: u32, denominator: u32) -> bool
    requires
        0 < denominator,
        numerator <= denominator,
{
    rand::thread_rng().gen_ratio(numerator, denominator)
}

/// Relies on `rand::Rng::gen_range` over an inclusive range: a random value
/// between the two bounds. It panics on an empty range, so that is excluded.
#[verifier::external_body]
fn random_in_range(low: i32, high: i32) -> (r: i32)
    requires
        low <= high,
    ensures
        low <= r <= high,
{
    rand::thread_rng().gen_range(low..=high)
}

/// Advances the previous stamp by a random offset step, occasionally scoring
/// a goal for one side. Whatever the random draws return, the offset grows
/// strictly, by at most `OFFSET_MAX_STEP`, and at most one side's tally grows,
/// by exactly one.
fn generate_stamp(previous_value: Stamp) -> (s: Stamp)
    requires
        previous_value.offset + OFFSET_MAX_STEP <= i32::MAX,
        previous_value.score.home < i32::MAX,
        previous_value.score.away < i32::MAX,
    ensures
        previous_value.offset < s.offset <= previous_value.offset + OFFSET_MAX_STEP,
        s.score == previous_value.score || s.score == (Score {
            home: (previous_value.score.home + 1) as i32,
            away: previous_value.score.away,
        }) || s.score == (Score {
            home: previous_value.score.home,
            away: (previous_value.score.away + 1) as i32,
        }),
{
    let score_changed: bool = random_ratio(
        PROBABILITY_SCORE_CHANGED_NUMERATOR,
        PROBABILITY_SCORE_CHANGED_DENOMINATOR,
    );
    let home_score_change: bool = random_ratio(
        PROBABILITY_HOME_SCORE_NUMERATOR,
        PROBABILITY_HOME_SCORE_DENOMINATOR,
    );
    let offset_change: i32 = random_in_range(1, OFFSET_MAX_STEP);

    Stamp {
        offset: previous_value.offset + offset_change,
        score: Score {
            home: previous_value.score.home + if score_changed && home_score_change {
                1
            } else {
                0
            },
            away: previous_value.score.away + if score_changed && !home_score_change {
                1
            } else {
                0
            },
        },
    }
}

/// Produces a whole game: the initial stamp at offset zero with a nil score,
/// followed by `TIMESTAMPS_COUNT` randomly advanced stamps. Whatever the
/// random draws return, the result is non-empty, opens at offset zero, its
/// offsets strictly increase — between neighbours by at most
/// `OFFSET_MAX_STEP` — and its scores never decrease, the combined tally
/// growing by at most one goal per stamp.
pub fn generate_game() -> (stamps: Vec<Stamp>)
    ensures
        stamps@.len() == TIMESTAMPS_COUNT + 1,
        stamps@[0] == (Stamp { offset: 0, score: Score { home: 0, away: 0 } }),
        valid_game(stamps@),
        scores_monotone(stamps@),
        forall|i: int| #![trigger stamps@[i]]
            0 <= i < stamps@.len() - 1 ==> 1 <= stamps@[i + 1].offset - stamps@[i].offset
                <= OFFSET_MAX_STEP,
        forall|i: int| #![trigger stamps@[i]]
            0 <= i < stamps@.len() - 1 ==> stamps@[i + 1].score.home + stamps@[i + 1].score.away
                <= stamps@[i].score.home + stamps@[i].score.away + 1,
{
    let initial_stamp = Stamp { offset: 0, score: Score { home: 0, away: 0 } };
    let mut stamps: Vec<Stamp> = Vec::new();
    stamps.push(initial_stamp);
    let mut current_stamp = initial_stamp;

    let mut i: usize = 0;
    while i < TIMESTAMPS_COUNT
        invariant
            i <= TIMESTAMPS_COUNT,
            stamps@.len() == i + 1,
            stamps@[0] == (Stamp { offset: 0, score: Score { home: 0, away: 0 } }),
            stamps@[stamps@.len() - 1] == current_stamp,
            stamps_sorted(stamps@),
            scores_monotone(stamps@),
            forall|k: int| #![trigger stamps@[k]]
                0 <= k < stamps@.len() - 1 ==> 1 <= stamps@[k + 1].offset - stamps@[k].offset
                    <= OFFSET_MAX_STEP,
            forall|k: int| #![trigger stamps@[k]]
                0 <= k < stamps@.len() - 1 ==> stamps@[k + 1].score.home + stamps@[k + 1].score.away
                    <= stamps@[k].score.home + stamps@[k].score.away + 1,
            current_stamp.offset <= OFFSET_MAX_STEP * i,
            0 <= current_stamp.score.home,
            0 <= current_stamp.score.away,
            current_stamp.score.home + current_stamp.score.away <= i,
        decreases TIMESTAMPS_COUNT - i,
    {
        current_stamp = generate_stamp(current_stamp);
        stamps.push(current_stamp);
        i = i + 1;
    }
    stamps
}

} // verus!
