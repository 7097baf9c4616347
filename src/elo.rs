use vstd::prelude::*;

verus! {

/// Sensitivity of a rating update: no battle moves a rating by more than this.
pub const K_FACTOR: u32 = 32;

/// The largest rating gap (winner minus loser) at which the winner's gain,
/// `32 * (1 - 1 / (1 + 10^(-gap / 400)))`, is still at least `k + 1/2`.
///
/// Solving `32 / (1 + 10^(gap / 400)) >= k + 1/2` for `gap` gives
/// `gap <= 400 * log10((63 - 2k) / (2k + 1))`; the entry for `k` is that bound
/// rounded down (it is never an integer), for `k` in `0..32`.
pub open spec fn half_point_gap(k: int) -> int {
    if k == 0 {
        719
    } else if k == 1 {
        523
    } else if k == 2 {
        428
    } else if k == 3 {
        364
    } else if k == 4 {
        314
    } else if k == 5 {
        273
    } else if k == 6 {
        237
    } else if k == 7 {
        205
    } else if k == 8 {
        176
    } else if k == 9 {
        149
    } else if k == 10 {
        124
    } else if k == 11 {
        100
    } else if k == 12 {
        77
    } else if k == 13 {
        54
    } else if k == 14 {
        32
    } else if k == 15 {
        10
    } else if k == 16 {
        -11
    } else if k == 17 {
        -33
    } else if k == 18 {
        -55
    } else if k == 19 {
        -78
    } else if k == 20 {
        -101
    } else if k == 21 {
        -125
    } else if k == 22 {
        -150
    } else if k == 23 {
        -177
    } else if k == 24 {
        -206
    } else if k == 25 {
        -238
    } else if k == 26 {
        -274
    } else if k == 27 {
        -315
    } else if k == 28 {
        -365
    } else if k == 29 {
        -429
    } else if k == 30 {
        -524
    } else {
        -720
    }
}

/// How many of the half-points `1/2, 3/2, ..., n - 1/2` the unrounded gain
/// reaches at rating gap `gap`.
pub open spec fn steps_reached(n: nat, gap: int) -> nat
    decreases n,
{
    if n == 0 {
        0
    } else {
        steps_reached((n - 1) as nat, gap) + if gap <= half_point_gap(n - 1) {
            1nat
        } else {
            0nat
        }
    }
}

/// The rating change of a decided battle: `round(32 * (1 - expected))` with
/// `expected = 1 / (1 + 10^((loser - winner) / 400))`.
///
/// The unrounded value lies strictly between 0 and 32, so rounding it to the
/// nearest integer counts the half-points `k + 1/2` (`k < 32`) that it reaches.
pub open spec fn elo_change(winner: int, loser: int) -> nat {
    steps_reached(32, winner - loser)
}

fn half_point_gap_exec(k: u32) -> (t: i64)
    requires
        k < 32,
    ensures
        t == half_point_gap(k as int),
{
    if k == 0 {
        719
    } else if k == 1 {
        523
    } else if k == 2 {
        428
    } else if k == 3 {
        364
    } else if k == 4 {
        314
    } else if k == 5 {
        273
    } else if k == 6 {
        237
    } else if k == 7 {
        205
    } else if k == 8 {
        176
    } else if k == 9 {
        149
    } else if k == 10 {
        124
    } else if k == 11 {
        100
    } else if k == 12 {
        77
    } else if k == 13 {
        54
    } else if k == 14 {
        32
    } else if k == 15 {
        10
    } else if k == 16 {
        -11
    } else if k == 17 {
        -33
    } else if k == 18 {
        -55
    } else if k == 19 {
        -78
    } else if k == 20 {
        -101
    } else if k == 21 {
        -125
    } else if k == 22 {
        -150
    } else if k == 23 {
        -177
    } else if k == 24 {
        -206
    } else if k == 25 {
        -238
    } else if k == 26 {
        -274
    } else if k == 27 {
        -315
    } else if k == 28 {
        -365
    } else if k == 29 {
        -429
    } else if k == 30 {
        -524
    } else {
        -720
    }
}

pub proof fn lemma_steps_bounded(n: nat, gap: int)
    ensures
        steps_reached(n, gap) <= n,
    decreases n,
{
    if n > 0 {
        lemma_steps_bounded((n - 1) as nat, gap);
    }
}

/// No battle moves a rating by more than the sensitivity constant.
pub proof fn lemma_elo_change_bounded(winner: int, loser: int)
    ensures
        elo_change(winner, loser) <= K_FACTOR,
{
    lemma_steps_bounded(32, winner - loser);
}

/// The rating points that the winner gains and the loser gives up.
pub fn calculate_elo_change(winner_elo: u32, loser_elo: u32) -> (change: u32)
    ensures
        change == elo_change(winner_elo as int, loser_elo as int),
        change <= K_FACTOR,
{
    let gap: i64 = winner_elo as i64 - loser_elo as i64;
    let mut change: u32 = 0;
    let mut k: u32 = 0;
    while k < 32
        invariant
            k <= 32,
            gap == winner_elo as int - loser_elo as int,
            change == steps_reached(k as nat, gap as int),
            change <= k,
        decreases 32 - k,
    {
        let t = half_point_gap_exec(k);
        if gap <= t {
            change = change + 1;
        }
        k = k + 1;
    }
    proof {
        lemma_steps_bounded(32, gap as int);
    }
    change
}

} // verus!
