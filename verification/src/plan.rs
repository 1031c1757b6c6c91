//! What a run is asked for: the range of days, the share of a target that is
//! still open, and when the recorded events are handed on.

use vstd::prelude::*;
use crate::calendar::Date;
use crate::calibrate::{calibrate_pattern_for_target, calibrated};
use crate::config::PatternConfig;

verus! {

/// How far back a range starts when nothing says where: a year of 365 days
/// before its end.
pub const DEFAULT_SPAN_DAYS: i32 = 365;

/// The range of days of a run. The end is the day that was asked for, else
/// today. The start is the day that was asked for; else the day after the
/// latest event that was recorded before; else the end less 365 days.
/// Nothing where that start lies outside the days that a `Date` holds.
pub open spec fn range_for(
    start: Option<Date>,
    end: Option<Date>,
    today: Date,
    latest: Option<Date>,
) -> Option<(Date, Date)> {
    let last = match end {
        Some(date) => date,
        None => today,
    };
    match (start, latest) {
        (Some(first), _) => Some((first, last)),
        (None, Some(recorded)) => if recorded@ < i32::MAX {
            Some((Date { days: (recorded@ + 1) as i32 }, last))
        } else {
            None
        },
        (None, None) => if last@ - 365 >= i32::MIN {
            Some((Date { days: (last@ - 365) as i32 }, last))
        } else {
            None
        },
    }
}

/// Settles the range of days of a run.
pub fn determine_date_range(
    start: Option<Date>,
    end: Option<Date>,
    today: Date,
    latest: Option<Date>,
) -> (r: Option<(Date, Date)>)
    ensures
        r == range_for(start, end, today, latest),
{
    let last = match end {
        Some(date) => date,
        None => today,
    };
    match start {
        Some(first) => Some((first, last)),
        None => match latest {
            Some(recorded) => match recorded.succ() {
                Some(first) => Some((first, last)),
                None => None,
            },
            None => if last.days >= i32::MIN + DEFAULT_SPAN_DAYS {
                Some((Date { days: last.days - DEFAULT_SPAN_DAYS }, last))
            } else {
                None
            },
        },
    }
}

/// The number of days from `start` to `end`, both included; not positive
/// where `start` is after `end`.
pub fn days_in_range(start: Date, end: Date) -> (r: i64)
    ensures
        r == end@ - start@ + 1,
{
    end.days as i64 - start.days as i64 + 1
}

/// What is to be done about a target.
#[derive(Debug, Clone, Copy, PartialEq, Eq)]
pub enum TargetPlan {
    /// As many events as the target asks for are there already.
    Reached,
    /// The range has no day to put events on.
    NoDays,
    /// So many events are still open, and this configuration is expected to
    /// give about as many over the range.
    Generate { commits_needed: u32, config: PatternConfig },
}

/// Plans for a target total, given how many events exist already: the open
/// share is the target less what exists, and it is calibrated over the days
/// of the range.
pub fn plan_for_target(target_total: u32, existing: u32, start: Date, end: Date) -> (r:
    TargetPlan)
    ensures
        target_total <= existing ==> r == TargetPlan::Reached,
        target_total > existing && start@ > end@ ==> r == TargetPlan::NoDays,
        target_total > existing && start@ <= end@ ==> {
            &&& r matches TargetPlan::Generate { commits_needed, config }
            &&& commits_needed == target_total - existing
            &&& config@ == calibrated(target_total - existing, end@ - start@ + 1)
        },
{
    let commits_needed = target_total.saturating_sub(existing);
    let days = days_in_range(start, end);
    if commits_needed == 0 {
        TargetPlan::Reached
    } else if days <= 0 {
        TargetPlan::NoDays
    } else {
        TargetPlan::Generate {
            commits_needed,
            config: calibrate_pattern_for_target(commits_needed, days),
        }
    }
}

/// After so many recorded events the batch is handed on.
pub const BATCH_SIZE: usize = 500;

/// Counts the recorded events that were not handed on yet.
#[derive(Debug, Clone, Copy)]
pub struct PushBatch {
    pending: usize,
}

impl View for PushBatch {
    type V = nat;

    closed spec fn view(&self) -> nat {
        self.pending as nat
    }
}

impl PushBatch {
    #[verifier::type_invariant]
    spec fn well_formed(self) -> bool {
        self.pending < BATCH_SIZE
    }

    /// A batch with nothing in it.
    pub fn new() -> (r: PushBatch)
        ensures
            r@ == 0,
    {
        PushBatch { pending: 0 }
    }

    /// Counts one more recorded event and says whether the batch is full and
    /// is to be handed on now; a batch that is handed on starts over.
    pub fn record(&mut self) -> (push: bool)
        ensures
            final(self)@ == (old(self)@ + 1) % (BATCH_SIZE as nat),
            push == (final(self)@ == 0),
    {
        proof {
            use_type_invariant(&*self);
        }
        if self.pending + 1 >= BATCH_SIZE {
            self.pending = 0;
            true
        } else {
            self.pending = self.pending + 1;
            false
        }
    }

    /// Whether events are left to hand on when the last one is recorded.
    pub fn has_pending(&self) -> (r: bool)
        ensures
            r == (self@ > 0),
    {
        self.pending > 0
    }
}

} // verus!
