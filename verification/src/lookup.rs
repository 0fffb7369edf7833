use vstd::prelude::*;

use crate::error::GetScoreError;
use crate::stamp::Stamp;
use crate::stamp::has_offset;
use crate::stamp::lemma_sorted_offset_unique;
use crate::stamp::score_at;
use crate::stamp::stamps_sorted;
use crate::stamp::valid_game;

verus! {

/// What `get_score` returns, as a function of the sequence and the query
/// offset alone: offsets below zero or above the stamp count are rejected as
/// out of range (the bound is the count of stamps, not the greatest recorded
/// offset); an offset with a recorded stamp yields exactly that stamp's
/// score; any other in-range offset has no snapshot at exact granularity.
pub open spec fn get_score_spec(s: Seq<Stamp>, offset: i32) -> Result<(i32, i32), GetScoreError> {
    if offset < 0 || offset as int > s.len() as int {
        Err(GetScoreError::OutOfRange(offset))
    } else if has_offset(s, offset as int) {
        Ok((score_at(s, offset as int).home, score_at(s, offset as int).away))
    } else {
        Err(GetScoreError::NoSuchTimestamp(offset))
    }
}

/// Point lookup: the score in effect at exactly `offset`, found by binary
/// search over the strictly offset-sorted `game_stamps`. A pure read: the
/// result is fully determined by the sequence and the offset.
pub fn get_score(game_stamps: &[Stamp], offset: i32) -> (r: Result<(i32, i32), GetScoreError>)
    requires
        stamps_sorted(game_stamps@),
        game_stamps@.len() <= i32::MAX,
    ensures
        r == get_score_spec(game_stamps@, offset),
{
    if offset < 0 || offset > game_stamps.len() as i32 {
        return Err(GetScoreError::OutOfRange(offset));
    }
    let mut low: usize = 0;
    let mut high: usize = game_stamps.len();
    while low < high
        invariant
            stamps_sorted(game_stamps@),
            game_stamps@.len() <= i32::MAX,
            0 <= offset,
            offset as int <= game_stamps@.len() as int,
            low <= high <= game_stamps@.len(),
            forall|k: int| 0 <= k < low ==> game_stamps@[k].offset < offset,
            forall|k: int| high <= k < game_stamps@.len() ==> game_stamps@[k].offset > offset,
        decreases high - low,
    {
        let mid = low + (high - low) / 2;
        let stamp = game_stamps[mid];
        if stamp.offset == offset {
            proof {
                assert(has_offset(game_stamps@, offset as int)) by {
                    assert(game_stamps@[mid as int].offset == offset);
                }
                let i = choose|i: int|
                    0 <= i < game_stamps@.len() && game_stamps@[i].offset == offset as int;
                lemma_sorted_offset_unique(game_stamps@, i, mid as int);
            }
            return Ok((stamp.score.home, stamp.score.away));
        } else if stamp.offset < offset {
            low = mid + 1;
        } else {
            high = mid;
        }
    }
    proof {
        assert(!has_offset(game_stamps@, offset as int)) by {
            assert(forall|k: int|
                0 <= k < game_stamps@.len() ==> game_stamps@[k].offset != offset);
        }
    }
    Err(GetScoreError::NoSuchTimestamp(offset))
}

/// The offset of a stamp actually present in a valid game is answered with
/// exactly that stamp's score, provided the offset also passes the
/// count-based range check: offsets beyond the stamp count are rejected as
/// out of range even when a stamp is recorded there.
pub proof fn lemma_present_offset_returns_its_score(s: Seq<Stamp>, i: int)
    requires
        valid_game(s),
        0 <= i < s.len(),
        s[i].offset as int <= s.len() as int,
    ensures
        get_score_spec(s, s[i].offset) == Ok::<(i32, i32), GetScoreError>(
            (s[i].score.home, s[i].score.away),
        ),
{
    assert(s[i].offset >= 0) by {
        if i > 0 {
            assert(s[0].offset < s[i].offset);
        }
    }
    assert(has_offset(s, s[i].offset as int));
    let j = choose|j: int| 0 <= j < s.len() && s[j].offset == s[i].offset as int;
    lemma_sorted_offset_unique(s, i, j);
}

/// Every negative offset is rejected as out of range.
pub proof fn lemma_negative_offset_out_of_range(s: Seq<Stamp>, offset: i32)
    requires
        offset < 0,
    ensures
        get_score_spec(s, offset) == Err::<(i32, i32), GetScoreError>(
            GetScoreError::OutOfRange(offset),
        ),
{
}

/// Every offset strictly greater than the stamp count is rejected as out of
/// range.
pub proof fn lemma_offset_beyond_count_out_of_range(s: Seq<Stamp>, offset: i32)
    requires
        offset as int > s.len() as int,
    ensures
        get_score_spec(s, offset) == Err::<(i32, i32), GetScoreError>(
            GetScoreError::OutOfRange(offset),
        ),
{
}

/// An offset within the count bound that matches no recorded stamp is
/// answered with `NoSuchTimestamp`.
pub proof fn lemma_unrecorded_offset_no_such_timestamp(s: Seq<Stamp>, offset: i32)
    requires
        0 <= offset,
        offset as int <= s.len() as int,
        !has_offset(s, offset as int),
    ensures
        get_score_spec(s, offset) == Err::<(i32, i32), GetScoreError>(
            GetScoreError::NoSuchTimestamp(offset),
        ),
{
}

/// Queries are referentially transparent: two lookups on the same sequence
/// and offset produce identical results, success or the same error.
pub proof fn lemma_get_score_idempotent(
    s: Seq<Stamp>,
    offset: i32,
    r1: Result<(i32, i32), GetScoreError>,
    r2: Result<(i32, i32), GetScoreError>,
)
    requires
        r1 == get_score_spec(s, offset),
        r2 == get_score_spec(s, offset),
    ensures
        r1 == r2,
{
}

} // verus!
