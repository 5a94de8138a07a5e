//! Periods and their tuning: searching the period table, applying a sample's
//! fine-tune setting, and sliding a period inside the playable range.

use crate::tables::{FINE_TUNE_TABLE, FREQUENCY_TABLE, SCALE_FINE_TUNE};
use vstd::prelude::*;

verus! {

/// `period` is one of the sixty entries of the period table.
pub open spec fn is_table_period(period: u32) -> bool {
    exists|i: int| 0 <= i < 60 && #[trigger] FREQUENCY_TABLE@[i] == period
}

/// The position of `period` in the period table, for a period that is in it.
pub open spec fn table_index(period: u32) -> int {
    choose|i: int| 0 <= i < 60 && #[trigger] FREQUENCY_TABLE@[i] == period
}

/// `rank` splits the period table at `period`: every entry before it is
/// smaller than `period`, every entry from it on is at least `period`.
pub open spec fn is_period_rank(period: u32, rank: int) -> bool {
    &&& 0 <= rank <= 60
    &&& forall|i: int| 0 <= i < rank ==> #[trigger] FREQUENCY_TABLE@[i] < period
    &&& forall|i: int| rank <= i < 60 ==> #[trigger] FREQUENCY_TABLE@[i] >= period
}

/// The number of table entries that are smaller than `period`.
pub open spec fn period_rank(period: u32) -> int {
    choose|rank: int| is_period_rank(period, rank)
}

/// The period table is strictly ascending.
pub proof fn lemma_table_ascending(i: int, j: int)
    requires
        0 <= i < j < 60,
    ensures
        FREQUENCY_TABLE@[i] < FREQUENCY_TABLE@[j],
{
}

/// A period occurs at one place of the table only, so `table_index` names it.
pub proof fn lemma_table_index_unique(period: u32, i: int)
    requires
        0 <= i < 60,
        FREQUENCY_TABLE@[i] == period,
    ensures
        is_table_period(period),
        table_index(period) == i,
{
    let j = table_index(period);
    if i < j {
        lemma_table_ascending(i, j);
    } else if j < i {
        lemma_table_ascending(j, i);
    }
}

/// Every period has exactly one rank.
pub proof fn lemma_period_rank_unique(period: u32, rank: int)
    requires
        is_period_rank(period, rank),
    ensures
        period_rank(period) == rank,
{
    let other = period_rank(period);
    if other < rank {
        assert(FREQUENCY_TABLE@[other] < period);
        assert(FREQUENCY_TABLE@[other] >= period);
    } else if rank < other {
        assert(FREQUENCY_TABLE@[rank] < period);
        assert(FREQUENCY_TABLE@[rank] >= period);
    }
}

/// Counts the table entries below `period` by bisection.
pub fn find_period_rank(period: u32) -> (rank: usize)
    ensures
        is_period_rank(period, rank as int),
        rank as int == period_rank(period),
{
    let mut low: usize = 0;
    let mut high: usize = 60;
    while low < high
        invariant
            low <= high <= 60,
            forall|i: int| 0 <= i < low ==> #[trigger] FREQUENCY_TABLE@[i] < period,
            forall|i: int| high <= i < 60 ==> #[trigger] FREQUENCY_TABLE@[i] >= period,
        decreases high - low,
    {
        let middle: usize = low + (high - low) / 2;
        if FREQUENCY_TABLE[middle] < period {
            proof {
                assert forall|i: int| 0 <= i < middle + 1 implies #[trigger] FREQUENCY_TABLE@[i]
                    < period by {
                    if i < middle {
                        lemma_table_ascending(i, middle as int);
                    }
                }
            }
            low = middle + 1;
        } else {
            proof {
                assert forall|i: int| middle <= i < 60 implies #[trigger] FREQUENCY_TABLE@[i]
                    >= period by {
                    if middle < i {
                        lemma_table_ascending(middle as int, i);
                    }
                }
            }
            high = middle;
        }
    }
    proof {
        lemma_period_rank_unique(period, low as int);
    }
    low
}

/// Looks `period` up in the period table.
pub fn find_period(period: u32) -> (found: Option<usize>)
    ensures
        found is Some <==> is_table_period(period),
        found is Some ==> found->0 as int == table_index(period),
{
    let rank = find_period_rank(period);
    if rank < 60 && FREQUENCY_TABLE[rank] == period {
        proof {
            lemma_table_index_unique(period, rank as int);
        }
        Some(rank)
    } else {
        proof {
            if is_table_period(period) {
                let i = table_index(period);
                if i < rank {
                    assert(FREQUENCY_TABLE@[i] < period);
                } else if i > rank {
                    lemma_table_ascending(rank as int, i);
                }
            }
        }
        None
    }
}

/// A period that a note may carry when table-based tuning is in use: zero,
/// which plays nothing, or an entry of the period table.
pub open spec fn is_standard_period(period: u32) -> bool {
    period == 0 || is_table_period(period)
}

/// Tells whether a note may carry `period` when table-based tuning is in use.
pub fn is_standard_note_period(period: u32) -> (standard: bool)
    ensures
        standard == is_standard_period(period),
{
    if period == 0 {
        return true;
    }
    find_period(period).is_some()
}

/// `period` scaled by the multiplier of `fine_tune`, rounded down, and held to
/// the range of the result type.
pub open spec fn scaled_period(period: u32, fine_tune: u32) -> u32 {
    let scaled = (period as int * SCALE_FINE_TUNE@[fine_tune as int] as int) / 65536;
    if scaled > u32::MAX {
        u32::MAX
    } else {
        scaled as u32
    }
}

/// The period that sounds when a note of `period` is played on a sample with
/// the setting `fine_tune`: read from the fine-tune table where `use_table`
/// holds, scaled otherwise.
pub open spec fn tuned_period(period: u32, fine_tune: u32, use_table: bool) -> u32 {
    if use_table {
        FINE_TUNE_TABLE@[fine_tune as int]@[table_index(period)]
    } else {
        scaled_period(period, fine_tune)
    }
}

/// Table-based tuning can only tune the periods of the table.
pub open spec fn can_tune(period: u32, use_table: bool) -> bool {
    use_table ==> is_table_period(period)
}

/// Tunes `period` by the fine-tune setting of a sample: by the fine-tune
/// table where `use_fine_tune_table` holds, by scaling otherwise.
pub fn fine_tune_period(period: u32, fine_tune: u32, use_fine_tune_table: bool) -> (tuned: u32)
    requires
        fine_tune < 16,
        can_tune(period, use_fine_tune_table),
    ensures
        tuned == tuned_period(period, fine_tune, use_fine_tune_table),
{
    if use_fine_tune_table {
        let found = find_period(period);
        match found {
            Some(index) => FINE_TUNE_TABLE[fine_tune as usize][index],
            None => period,
        }
    } else {
        let scale: u64 = SCALE_FINE_TUNE[fine_tune as usize] as u64;
        assert(scale <= 69433);
        assert(period as u64 * scale <= 0xFFFF_FFFF * 69433) by (nonlinear_arith)
            requires
                period <= 0xFFFF_FFFF,
                scale <= 69433,
        ;
        let scaled: u64 = (period as u64 * scale) / 65536;
        if scaled > u32::MAX as u64 {
            u32::MAX
        } else {
            scaled as u32
        }
    }
}

/// Setting 0 leaves every period of the table as it is.
pub proof fn lemma_fine_tune_zero_is_identity(period: u32)
    requires
        is_table_period(period),
    ensures
        tuned_period(period, 0, true) == period,
{
    let i = table_index(period);
    assert(FINE_TUNE_TABLE@[0]@[i] == FREQUENCY_TABLE@[i]);
}

/// `current_period` moved by `change` and held inside the slide range.
pub open spec fn slid_period(current_period: u32, change: int) -> u32 {
    let moved = current_period as int + change;
    if moved > 856 {
        856
    } else if moved < 113 {
        113
    } else {
        moved as u32
    }
}

/// Moves a period by `change`, and no further than a slide can reach.
pub fn change_note(current_period: u32, change: i32) -> (period: u32)
    ensures
        period == slid_period(current_period, change as int),
        113 <= period <= 856,
{
    let moved: i64 = current_period as i64 + change as i64;
    if moved > 856 {
        856
    } else if moved < 113 {
        113
    } else {
        moved as u32
    }
}

} // verus!
