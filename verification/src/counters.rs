//! Like counters of comments and replies. A count is stored as a signed
//! 64-bit number, so it never grows past `i64::MAX`, and it never drops
//! below zero.

use vstd::prelude::*;

verus! {

/// The largest count that the store holds: `i64::MAX`.
pub const MAX_LIKES: u64 = 9_223_372_036_854_775_807;

/// The count after one more like.
pub open spec fn count_after_like(likes: u64) -> u64 {
    if likes == MAX_LIKES {
        likes
    } else {
        (likes + 1) as u64
    }
}

/// The count after one like fewer.
pub open spec fn count_after_unlike(likes: u64) -> u64 {
    if likes == 0 {
        0
    } else {
        (likes - 1) as u64
    }
}

/// Adds one like, staying at `MAX_LIKES` once there.
pub fn increased_likes(likes: u64) -> (res: u64)
    requires
        likes < u64::MAX,
    ensures
        res == count_after_like(likes),
{
    if likes == MAX_LIKES {
        likes
    } else {
        likes + 1
    }
}

/// Removes one like, staying at zero once there.
pub fn reduced_likes(likes: u64) -> (res: u64)
    ensures
        res == count_after_unlike(likes),
{
    match likes.checked_sub(1) {
        Some(v) => v,
        None => 0,
    }
}

/// The signed value written to the store for a count (a two's-complement
/// reinterpretation, the identity on every count up to `MAX_LIKES`).
pub fn stored_likes(likes: u64) -> (res: i64)
    ensures
        res == likes as i64,
        likes <= MAX_LIKES ==> res == likes,
{
    likes as i64
}

/// Liking and then unliking leaves a count below the ceiling unchanged.
pub proof fn lemma_like_then_unlike(likes: u64)
    requires
        likes < MAX_LIKES,
    ensures
        count_after_unlike(count_after_like(likes)) == likes,
{
}

/// Unliking and then liking leaves a positive count unchanged.
pub proof fn lemma_unlike_then_like(likes: u64)
    requires
        0 < likes <= MAX_LIKES,
    ensures
        count_after_like(count_after_unlike(likes)) == likes,
{
}

/// Counts that the store holds stay storable, and move by at most one.
pub proof fn lemma_counts_stay_in_range(likes: u64)
    requires
        likes <= MAX_LIKES,
    ensures
        count_after_like(likes) <= MAX_LIKES,
        count_after_unlike(likes) <= MAX_LIKES,
        count_after_like(likes) == likes || count_after_like(likes) == likes + 1,
        count_after_unlike(likes) == likes || count_after_unlike(likes) == likes - 1,
        count_after_like(likes) == likes ==> likes == MAX_LIKES,
        count_after_unlike(likes) == likes ==> likes == 0,
{
}

} // verus!
