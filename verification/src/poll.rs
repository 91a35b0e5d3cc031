//! The task poller: a state machine that repeatedly queries the launched
//! task until a stop timestamp is observed. A query that returns no matching
//! task is the expected "not yet visible" state, not an error; a status
//! string that differs from the previous snapshot's is an observable event
//! the caller must report; a present stop timestamp is terminal.

use vstd::prelude::*;
use crate::model::RunError;
use crate::model::Task;

verus! {

/// What one poll tick decided.
pub enum PollStep {
    /// The task is not yet visible to a status query: wait one interval and
    /// retry with the same previous snapshot.
    NotVisible,
    /// The task is visible and not finished: continue with this snapshot,
    /// reporting `changed_status` if the status string changed.
    Running { task: Task, changed_status: Option<String> },
    /// A stop timestamp was observed: the loop ends with this snapshot.
    Finished(Task),
}

/// Decides what a "describe tasks" answer means for the poller: the first
/// returned task when one is visible, nothing when the collection is empty
/// or absent, and a fatal error when the call itself failed.
pub fn observe_task(response: Result<Option<Vec<Task>>, String>) -> (r: Result<
    Option<Task>,
    RunError,
>)
    ensures
        match response {
            Err(e) => r matches Err(RunError::BackendError(m)) && m@ == e@,
            Ok(None) => r matches Ok(t) && t is None,
            Ok(Some(ts)) => if ts.len() == 0 {
                r matches Ok(t) && t is None
            } else {
                r matches Ok(t) && t == Some(ts[0])
            },
        },
{
    match response {
        Err(e) => Err(RunError::BackendError(e)),
        Ok(None) => Ok(None),
        Ok(Some(mut ts)) => {
            if ts.len() == 0 {
                Ok(None)
            } else {
                Ok(Some(ts.remove(0)))
            }
        },
    }
}

/// Whether two consecutive snapshots show an observable status change: both
/// carry a status string and the strings differ.
pub open spec fn status_changed(previous: Task, current: Task) -> bool {
    &&& previous.last_status is Some
    &&& current.last_status is Some
    &&& previous.last_status->0@ != current.last_status->0@
}

/// One tick of the poll loop: `observed` is what the backend showed for the
/// task (nothing when it is not yet visible), `previous` the last visible
/// snapshot. Terminal exactly when a stop timestamp is present.
pub fn poll_transition(previous: &Task, observed: Option<Task>) -> (r: PollStep)
    ensures
        match observed {
            None => r matches PollStep::NotVisible,
            Some(t) => if t.stopped_at is Some {
                r matches PollStep::Finished(f) && f == t
            } else {
                r matches PollStep::Running { task, changed_status } && task == t && (if
                    status_changed(*previous, t) {
                    changed_status matches Some(s) && s@ == t.last_status->0@
                } else {
                    changed_status is None
                })
            },
        },
{
    match observed {
        None => PollStep::NotVisible,
        Some(t) => {
            if t.stopped_at.is_some() {
                PollStep::Finished(t)
            } else {
                let changed_status: Option<String> = match (&previous.last_status, &t.last_status) {
                    (Some(p), Some(c)) => if *p == *c {
                        None
                    } else {
                        Some(c.clone())
                    },
                    _ => None,
                };
                PollStep::Running { task: t, changed_status }
            }
        },
    }
}

/// The terminal snapshot a finite sequence of backend answers leads to: the
/// first answer carrying a stop timestamp, if any.
pub open spec fn poll_outcome(rs: Seq<Option<Task>>) -> Option<Task>
    decreases rs.len(),
{
    if rs.len() == 0 {
        None
    } else {
        match rs[0] {
            None => poll_outcome(rs.skip(1)),
            Some(t) => if t.stopped_at is Some {
                Some(t)
            } else {
                poll_outcome(rs.skip(1))
            },
        }
    }
}

/// The status strings reported while polling through `rs` from the previous
/// snapshot `prev`: one per observed change, in order, none after the
/// terminal answer.
pub open spec fn poll_reports(prev: Task, rs: Seq<Option<Task>>) -> Seq<Seq<char>>
    decreases rs.len(),
{
    if rs.len() == 0 {
        Seq::empty()
    } else {
        match rs[0] {
            None => poll_reports(prev, rs.skip(1)),
            Some(t) => if t.stopped_at is Some {
                Seq::empty()
            } else if status_changed(prev, t) {
                seq![t.last_status->0@] + poll_reports(t, rs.skip(1))
            } else {
                poll_reports(t, rs.skip(1))
            },
        }
    }
}

/// How many answers of `rs` the poller consumes: all of them, or exactly up
/// to and including the first terminal one — it stops immediately there.
pub open spec fn polls_used(rs: Seq<Option<Task>>) -> int
    decreases rs.len(),
{
    if rs.len() == 0 {
        0int
    } else {
        match rs[0] {
            None => 1 + polls_used(rs.skip(1)),
            Some(t) => if t.stopped_at is Some {
                1int
            } else {
                1 + polls_used(rs.skip(1))
            },
        }
    }
}

/// The views of a list of reported status strings.
pub open spec fn views_of(ss: Seq<String>) -> Seq<Seq<char>> {
    ss.map_values(|s: String| s@)
}

/// What one finite simulated poll produced: the reported status changes, the
/// terminal snapshot if one was observed, and how many answers were used.
pub struct PollTrace {
    pub reported: Vec<String>,
    pub outcome: Option<Task>,
    pub polls: usize,
}

/// Drives the poll state machine through a finite sequence of simulated
/// backend answers. The poller stops at the first terminal answer, reports
/// exactly the observed status changes before it, and never looks further.
#[verifier::loop_isolation(false)]
pub fn simulate_poll(initial: Task, responses: Vec<Option<Task>>) -> (r: PollTrace)
    ensures
        r.outcome == poll_outcome(responses@),
        views_of(r.reported@) == poll_reports(initial, responses@),
        r.polls == polls_used(responses@),
{
    let ghost rs0 = responses@;
    let mut rs = responses;
    let total: usize = rs.len();
    let mut previous = initial;
    let mut reported: Vec<String> = Vec::new();
    let mut polls: usize = 0;
    proof {
        assert(views_of(reported@) =~= Seq::<Seq<char>>::empty());
        assert(Seq::<Seq<char>>::empty() + poll_reports(initial, rs0) =~= poll_reports(
            initial,
            rs0,
        ));
    }
    while rs.len() > 0
        invariant
            rs0.len() == total,
            polls == rs0.len() - rs@.len(),
            poll_outcome(rs0) == poll_outcome(rs@),
            polls_used(rs0) == polls + polls_used(rs@),
            poll_reports(initial, rs0) == views_of(reported@) + poll_reports(previous, rs@),
        decreases rs@.len(),
    {
        let ghost rem = rs@;
        let ghost reported_before = reported@;
        let ghost previous_before = previous;
        let next = rs.remove(0);
        proof {
            assert(rs@ =~= rem.skip(1));
        }
        polls = polls + 1;
        let step = poll_transition(&previous, next);
        match step {
            PollStep::NotVisible => {},
            PollStep::Running { task, changed_status } => {
                match changed_status {
                    Some(s) => {
                        reported.push(s);
                        proof {
                            assert(views_of(reported@) =~= views_of(reported_before) + seq![s@]);
                            assert(seq![s@] + poll_reports(task, rem.skip(1)) =~= poll_reports(
                                previous_before,
                                rem,
                            ));
                        }
                    },
                    None => {},
                }
                previous = task;
            },
            PollStep::Finished(t) => {
                proof {
                    assert(views_of(reported@) + poll_reports(previous_before, rem) =~= views_of(
                        reported@,
                    ));
                }
                return PollTrace { reported, outcome: Some(t), polls };
            },
        }
    }
    PollTrace { reported, outcome: None, polls }
}

} // verus!
