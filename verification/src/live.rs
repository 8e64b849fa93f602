//! Transfer figures that aria2 reports between polls, and how they are merged
//! with what the database last persisted.
use std::collections::HashMap;
use vstd::prelude::*;
use crate::enums::DownloadStatus;

verus! {

broadcast use vstd::std_specs::hash::group_hash_axioms;

/// The most recent progress sample of one download.
#[derive(Clone, Copy, Debug, PartialEq, Eq, Structural)]
pub struct LiveStats {
    pub completed_length: u64,
    pub download_speed: u64,
}

impl Default for LiveStats {
    fn default() -> (r: Self)
        ensures
            r.completed_length == 0,
            r.download_speed == 0,
    {
        LiveStats { completed_length: 0, download_speed: 0 }
    }
}

/// Speed that one id contributes: its sample's speed, or nothing without one.
pub open spec fn speed_of(stats: Map<i64, LiveStats>, id: i64) -> int {
    if stats.contains_key(id) {
        stats[id].download_speed as int
    } else {
        0
    }
}

/// Sum of the speeds of `ids`, each id counted as often as it occurs.
pub open spec fn speed_sum(stats: Map<i64, LiveStats>, ids: Seq<i64>) -> int
    decreases ids.len(),
{
    if ids.len() == 0 {
        0
    } else {
        speed_sum(stats, ids.drop_last()) + speed_of(stats, ids.last())
    }
}

proof fn lemma_speed_sum_prefix(stats: Map<i64, LiveStats>, ids: Seq<i64>, j: int, k: int)
    requires
        0 <= j <= k <= ids.len(),
    ensures
        0 <= speed_sum(stats, ids.take(j)) <= speed_sum(stats, ids.take(k)),
    decreases k,
{
    if k > 0 {
        assert(ids.take(k).drop_last() =~= ids.take(k - 1));
        if j < k {
            lemma_speed_sum_prefix(stats, ids, j, k - 1);
        } else {
            lemma_speed_sum_prefix(stats, ids, j - 1, k - 1);
        }
    }
}

/// Sum of the current speeds of the given downloads; ids without a sample
/// contribute nothing.
pub fn total_download_speed(stats: &HashMap<i64, LiveStats>, active_download_ids: &[i64]) -> (total:
    u64)
    requires
        speed_sum(stats@, active_download_ids@) <= u64::MAX,
    ensures
        total == speed_sum(stats@, active_download_ids@),
{
    let mut total: u64 = 0;
    let mut i: usize = 0;
    while i < active_download_ids.len()
        invariant
            i <= active_download_ids@.len(),
            total == speed_sum(stats@, active_download_ids@.take(i as int)),
            speed_sum(stats@, active_download_ids@) <= u64::MAX,
        decreases active_download_ids@.len() - i,
    {
        let id = active_download_ids[i];
        proof {
            let ids = active_download_ids@;
            assert(ids.take(i + 1).drop_last() =~= ids.take(i as int));
            assert(ids.take(ids.len() as int) =~= ids);
            lemma_speed_sum_prefix(stats@, ids, i + 1, ids.len() as int);
        }
        match stats.get(&id) {
            Some(s) => {
                total = total + s.download_speed;
            },
            None => {},
        }
        i = i + 1;
    }
    proof {
        assert(active_download_ids@.take(i as int) =~= active_download_ids@);
    }
    total
}

pub open spec fn coalesced(reported: u64, persisted: Option<u64>) -> u64 {
    match persisted {
        Some(known) => if reported == 0 && known > 0 {
            known
        } else {
            reported
        },
        None => reported,
    }
}

/// aria2 reports `completedLength = 0` for a while after a session restore,
/// before it has read its control files: a zero then keeps the last known
/// progress instead of resetting it.
pub fn coalesce_completed_length(reported: u64, persisted: Option<u64>) -> (r: u64)
    ensures
        r == coalesced(reported, persisted),
        reported != 0 ==> r == reported,
        persisted is None ==> r == reported,
{
    match persisted {
        Some(known) => if reported == 0 && known > 0 {
            known
        } else {
            reported
        },
        None => reported,
    }
}

/// Completed length, speed and remaining seconds shown for one download.
#[derive(Clone, Copy, Debug, PartialEq, Eq, Structural)]
pub struct LiveMetrics {
    pub completed_length: u64,
    pub download_speed: u64,
    pub eta_seconds: Option<u64>,
}

pub open spec fn merged_completed(live: Option<LiveStats>, persisted: Option<u64>) -> u64 {
    match live {
        Some(stats) => coalesced(stats.completed_length, persisted),
        None => match persisted {
            Some(p) => p,
            None => 0,
        },
    }
}

pub open spec fn merged_speed(active: bool, live: Option<LiveStats>) -> u64 {
    if active {
        match live {
            Some(stats) => stats.download_speed,
            None => 0,
        }
    } else {
        0
    }
}

pub open spec fn eta_of(size: Option<u64>, completed: u64, speed: u64) -> Option<u64> {
    match size {
        Some(total) => if speed > 0 && total > completed {
            Some(((total - completed) / (speed as int)) as u64)
        } else {
            None
        },
        None => None,
    }
}

/// Merges the latest sample into a stored download: only an active download
/// shows a speed, and a remaining time needs a speed and a known size that
/// has not been reached.
pub fn merge_live_metrics(
    status: &DownloadStatus,
    size: Option<u64>,
    persisted_completed: Option<u64>,
    live: Option<LiveStats>,
) -> (m: LiveMetrics)
    ensures
        m.completed_length == merged_completed(live, persisted_completed),
        m.download_speed == merged_speed(*status is Active, live),
        m.eta_seconds == eta_of(size, m.completed_length, m.download_speed),
{
    let completed_length = match live {
        Some(stats) => coalesce_completed_length(stats.completed_length, persisted_completed),
        None => match persisted_completed {
            Some(p) => p,
            None => 0,
        },
    };
    let active = match status {
        DownloadStatus::Active => true,
        _ => false,
    };
    let download_speed = if active {
        match live {
            Some(stats) => stats.download_speed,
            None => 0,
        }
    } else {
        0
    };
    let eta_seconds = match size {
        Some(total) => if download_speed > 0 && total > completed_length {
            Some((total - completed_length) / download_speed)
        } else {
            None
        },
        None => None,
    };
    LiveMetrics { completed_length, download_speed, eta_seconds }
}

} // verus!
