//! The compiled-in leap-second table and leap counting.

use vstd::prelude::*;

verus! {

/// Number of leap seconds in the table.
pub const LEAP_COUNT: usize = 18;

/// Instants, in seconds since the GPS Epoch, at which UTC inserted a leap second.
pub const LEAP_SECONDS: [i64; 18] = [
    46828800, 78364801, 109900802, 173059203, 252028804, 315187205, 346723206, 393984007,
    425520008, 457056009, 504489610, 551750411, 599184012, 820108813, 914803214, 1025136015,
    1119744016, 1167264017,
];

/// The leap-second table as a sequence of integers.
pub open spec fn leap_table() -> Seq<int> {
    seq![
        46828800int, 78364801, 109900802, 173059203, 252028804, 315187205, 346723206, 393984007,
        425520008, 457056009, 504489610, 551750411, 599184012, 820108813, 914803214, 1025136015,
        1119744016, 1167264017,
    ]
}

/// Number of entries of `s` that are at most `x`.
pub open spec fn count_at_most(s: Seq<int>, x: int) -> nat
    decreases s.len(),
{
    if s.len() == 0 {
        0
    } else {
        count_at_most(s.drop_last(), x) + if s.last() <= x { 1nat } else { 0nat }
    }
}

/// Leap seconds inserted at or before `gps_seconds` (seconds since the GPS Epoch).
pub open spec fn leaps_through(gps_seconds: int) -> nat {
    count_at_most(leap_table(), gps_seconds)
}

/// Every entry of `s` is smaller than the next.
pub open spec fn strictly_increasing(s: Seq<int>) -> bool {
    forall|i: int, j: int| 0 <= i < j < s.len() ==> s[i] < s[j]
}

proof fn lemma_count_monotonic(s: Seq<int>, x: int, y: int)
    requires
        x <= y,
    ensures
        count_at_most(s, x) <= count_at_most(s, y),
        count_at_most(s, y) <= s.len(),
    decreases s.len(),
{
    if s.len() > 0 {
        lemma_count_monotonic(s.drop_last(), x, y);
    }
}

/// In a strictly increasing sequence whose first `k` entries are at most `x`
/// and whose others exceed it, exactly `k` entries are at most `x`.
proof fn lemma_count_split(s: Seq<int>, x: int, k: int)
    requires
        0 <= k <= s.len(),
        forall|j: int| 0 <= j < k ==> s[j] <= x,
        forall|j: int| k <= j < s.len() ==> s[j] > x,
    ensures
        count_at_most(s, x) == k,
    decreases s.len(),
{
    if s.len() > 0 {
        let t = s.drop_last();
        if k == s.len() {
            lemma_count_split(t, x, k - 1);
        } else {
            lemma_count_split(t, x, k);
        }
    }
}

proof fn lemma_table_increasing()
    ensures
        strictly_increasing(leap_table()),
{
    let s = leap_table();
    assert forall|i: int| 0 <= i < s.len() - 1 implies #[trigger] s[i] < s[i + 1] by {}
    assert forall|i: int, j: int| 0 <= i < j < s.len() implies s[i] < s[j] by {
        lemma_step_chain(s, i, j);
    }
}

proof fn lemma_step_chain(s: Seq<int>, i: int, j: int)
    requires
        0 <= i < j < s.len(),
        forall|k: int| 0 <= k < s.len() - 1 ==> #[trigger] s[k] < s[k + 1],
    ensures
        s[i] < s[j],
    decreases j - i,
{
    if j > i + 1 {
        lemma_step_chain(s, i, j - 1);
    }
}

/// Leap counting is monotonic: a later instant has at least as many leap
/// seconds behind it, and never more than the table holds.
pub proof fn leaps_monotonic(x: int, y: int)
    requires
        x <= y,
    ensures
        leaps_through(x) <= leaps_through(y),
        0 <= leaps_through(y) <= LEAP_COUNT,
{
    lemma_count_monotonic(leap_table(), x, y);
}

/// The bound is inclusive: at the instant of the table's entry `i` that entry is
/// already counted, one second earlier it is not.
pub proof fn leap_entry_inclusive(i: int)
    requires
        0 <= i < LEAP_COUNT,
    ensures
        leaps_through(leap_table()[i]) == i + 1,
        leaps_through(leap_table()[i] - 1) == i,
{
    let s = leap_table();
    lemma_table_increasing();
    lemma_count_split(s, s[i], i + 1);
    lemma_count_split(s, s[i] - 1, i);
}

/// No leap second lies before the table's first entry.
pub proof fn no_leaps_before_first(x: int)
    requires
        x < leap_table()[0],
    ensures
        leaps_through(x) == 0,
{
    lemma_table_increasing();
    lemma_count_split(leap_table(), x, 0);
}

/// Counts the leap seconds inserted at or before `gps_seconds`, seconds since the
/// GPS Epoch. An entry equal to `gps_seconds` counts as already inserted.
pub fn num_leaps(gps_seconds: i64) -> (r: i64)
    ensures
        r == leaps_through(gps_seconds as int),
        0 <= r <= LEAP_COUNT,
{
    let mut count: i64 = 0;
    let mut i: usize = 0;
    while i < LEAP_COUNT
        invariant
            i <= LEAP_COUNT,
            count == count_at_most(leap_table().take(i as int), gps_seconds as int),
            count <= i,
        decreases LEAP_COUNT - i,
    {
        proof {
            assert(leap_table().take(i + 1).drop_last() =~= leap_table().take(i as int));
        }
        if LEAP_SECONDS[i] <= gps_seconds {
            count = count + 1;
        }
        i = i + 1;
    }
    proof {
        assert(leap_table().take(18) =~= leap_table());
    }
    count
}

} // verus!
