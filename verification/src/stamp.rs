use vstd::prelude::*;

verus! {

/// Cumulative goal tally observed at a point of the match timeline.
#[derive(Debug, Clone, Copy, PartialEq, Eq, Structural)]
pub struct Score {
    pub home: i32,
    pub away: i32,
}

/// A snapshot of the score: the tally in effect at `offset` and after it,
/// until superseded by the next stamp.
#[derive(Debug, Clone, Copy, PartialEq, Eq, Structural)]
pub struct Stamp {
    pub offset: i32,
    pub score: Score,
}

/// Offsets strictly increase along the sequence: no duplicates, no reordering.
pub open spec fn stamps_sorted(s: Seq<Stamp>) -> bool {
    forall|i: int, j: int| 0 <= i < j < s.len() ==> s[i].offset < s[j].offset
}

/// A stamp with exactly this offset is present in the sequence.
pub open spec fn has_offset(s: Seq<Stamp>, offset: int) -> bool {
    exists|i: int| 0 <= i < s.len() && s[i].offset == offset
}

/// The score of the stamp recorded at exactly this offset.
pub open spec fn score_at(s: Seq<Stamp>, offset: int) -> Score {
    let i = choose|i: int| 0 <= i < s.len() && s[i].offset == offset;
    s[i].score
}

/// The shape the generator promises: non-empty, opening at offset zero,
/// offsets strictly increasing.
pub open spec fn valid_game(s: Seq<Stamp>) -> bool {
    &&& s.len() > 0
    &&& s[0].offset == 0
    &&& stamps_sorted(s)
}

/// Scores never decrease going forward on the timeline.
pub open spec fn scores_monotone(s: Seq<Stamp>) -> bool {
    forall|i: int, j: int|
        0 <= i <= j < s.len() ==> s[i].score.home <= s[j].score.home
            && s[i].score.away <= s[j].score.away
}

/// In a strictly offset-sorted sequence, an offset occurs at one index only.
pub proof fn lemma_sorted_offset_unique(s: Seq<Stamp>, i: int, j: int)
    requires
        stamps_sorted(s),
        0 <= i < s.len(),
        0 <= j < s.len(),
        s[i].offset == s[j].offset,
    ensures
        i == j,
{
}

} // verus!
