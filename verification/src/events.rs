//! Events: a time and a label.

use vstd::prelude::*;
use rand::rngs::ThreadRng;
use crate::calendar::{Date, Timestamp};
use crate::messages::{get_random_message, is_pool_message, message_at, message_text};

verus! {

/// One event of a schedule.
#[derive(Debug, Clone, PartialEq, Eq)]
pub struct CommitInfo {
    /// When the event happens, in local time.
    pub date: Timestamp,
    /// The label of the event, one of the pool.
    pub message: String,
}

/// Where the labels of a schedule come from.
#[derive(Debug)]
pub enum LabelSource {
    /// From the thread's random generator: each label of the pool with the
    /// same chance, and nothing known beforehand.
    Ambient,
    /// From a list of places in the pool: the events take them in turn, and
    /// start over where the list ends. An empty list gives the first label.
    Scripted(Vec<u32>),
}

/// The label that the event with the given index takes from a list of places.
pub open spec fn scripted_label(picks: Seq<u32>, index: int) -> Seq<char> {
    if picks.len() == 0 {
        message_text(0)
    } else {
        message_text(picks[index % (picks.len() as int)] as int)
    }
}

/// The times of a sequence of events, in their order.
pub open spec fn dates_of(events: Seq<CommitInfo>) -> Seq<Timestamp> {
    Seq::new(events.len(), |i: int| events[i].date)
}

/// Whether `events` are the given times with labels from the given source:
/// one event for each time, in the same order, each with a label of the
/// pool, and with a scripted source each with the label that is its turn.
pub open spec fn labelled(times: Seq<Timestamp>, labels: LabelSource, events: Seq<CommitInfo>) -> bool {
    &&& dates_of(events) == times
    &&& forall|i: int| 0 <= i < events.len() ==> is_pool_message((#[trigger] events[i]).message@)
    &&& labels matches LabelSource::Scripted(picks) ==> forall|i: int|
        0 <= i < events.len() ==> (#[trigger] events[i]).message@ == scripted_label(picks@, i)
}

/// Makes the event at the given time of the given day, with a label picked
/// by the thread's generator.
pub fn create_commit_at_time(date: Date, hour: u32, minute: u32, rng: &mut ThreadRng) -> (r:
    CommitInfo)
    requires
        hour < 24,
        minute < 60,
    ensures
        r.date == (Timestamp { date, hour, minute }),
        is_pool_message(r.message@),
{
    CommitInfo { date: Timestamp { date, hour, minute }, message: get_random_message(rng) }
}

/// Gives each time a label picked by the thread's generator.
fn label_at_random(times: &Vec<Timestamp>) -> (r: Vec<CommitInfo>)
    ensures
        labelled(times@, LabelSource::Ambient, r@),
{
    let mut events: Vec<CommitInfo> = Vec::new();
    let mut rng = rand::rng();
    let mut index: usize = 0;
    while index < times.len()
        invariant
            index <= times.len(),
            events@.len() == index,
            forall|i: int| 0 <= i < index ==> (#[trigger] events@[i]).date == times@[i],
            forall|i: int| 0 <= i < index ==> is_pool_message((#[trigger] events@[i]).message@),
        decreases times.len() - index,
    {
        events.push(CommitInfo { date: times[index], message: get_random_message(&mut rng) });
        index += 1;
    }
    assert(dates_of(events@) =~= times@);
    events
}

/// Gives each time the label that is its turn in a list of places.
fn label_by_script(times: &Vec<Timestamp>, picks: &Vec<u32>) -> (r: Vec<CommitInfo>)
    ensures
        dates_of(r@) == times@,
        forall|i: int| 0 <= i < r@.len() ==> is_pool_message((#[trigger] r@[i]).message@),
        forall|i: int|
            0 <= i < r@.len() ==> (#[trigger] r@[i]).message@ == scripted_label(picks@, i),
{
    let mut events: Vec<CommitInfo> = Vec::new();
    let mut index: usize = 0;
    while index < times.len()
        invariant
            index <= times.len(),
            events@.len() == index,
            forall|i: int| 0 <= i < index ==> (#[trigger] events@[i]).date == times@[i],
            forall|i: int| 0 <= i < index ==> is_pool_message((#[trigger] events@[i]).message@),
            forall|i: int|
                0 <= i < index ==> (#[trigger] events@[i]).message@ == scripted_label(picks@, i),
        decreases times.len() - index,
    {
        let message = if picks.len() == 0 {
            message_at(0)
        } else {
            message_at(picks[index % picks.len()])
        };
        events.push(CommitInfo { date: times[index], message });
        index += 1;
    }
    assert(dates_of(events@) =~= times@);
    events
}

/// Gives each time its label from the source.
pub fn label_events(times: &Vec<Timestamp>, labels: &LabelSource) -> (r: Vec<CommitInfo>)
    ensures
        labelled(times@, *labels, r@),
{
    match labels {
        LabelSource::Ambient => label_at_random(times),
        LabelSource::Scripted(picks) => label_by_script(times, picks),
    }
}

} // verus!
