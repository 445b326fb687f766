//! Whole runs of a workflow: the states it passes through and the
//! requests it makes while the driver's reports come in one by one.

use crate::cli::Command;
use crate::model::{action_of, initial, next, ActionView, EventView, WorkflowView};
use crate::paths::PathConvention;
use crate::workflow::{Action, Event, Workflow};
use vstd::prelude::*;

verus! {

/// The state of `w` after the driver has reported `events`, in order.
pub open spec fn after(w: WorkflowView, events: Seq<EventView>) -> WorkflowView
    decreases events.len(),
{
    if events.len() == 0 {
        w
    } else {
        next(after(w, events.drop_last()), events.last())
    }
}

/// The requests that `w` makes while `events` come in: request `k` is the
/// one pending after the first `k` events, so there is one more request
/// than there are events.
pub open spec fn requests(w: WorkflowView, events: Seq<EventView>) -> Seq<ActionView> {
    Seq::new(events.len() + 1, |k: int| action_of(after(w, events.take(k))))
}

/// The mathematical values of the events in `s`, in order.
pub open spec fn event_views(s: Seq<Event>) -> Seq<EventView> {
    Seq::new(s.len(), |i: int| s[i]@)
}

/// The mathematical values of the actions in `s`, in order.
pub open spec fn action_views(s: Seq<Action>) -> Seq<ActionView> {
    Seq::new(s.len(), |i: int| s[i]@)
}

/// One more event takes the workflow one step further.
pub proof fn lemma_after_step(w: WorkflowView, events: Seq<EventView>, k: int)
    requires
        0 <= k < events.len(),
    ensures
        after(w, events.take(k + 1)) == next(after(w, events.take(k)), events[k]),
{
    assert(events.take(k + 1).drop_last() =~= events.take(k));
}

/// Nothing has happened before the first event.
pub proof fn lemma_after_nothing(w: WorkflowView, events: Seq<EventView>)
    ensures
        after(w, events.take(0)) == w,
{
}

/// What holds of a state and is kept by every step holds from then on.
pub proof fn lemma_kept(
    inv: spec_fn(WorkflowView) -> bool,
    w: WorkflowView,
    events: Seq<EventView>,
    k: int,
    j: int,
)
    requires
        0 <= k <= j <= events.len(),
        inv(after(w, events.take(k))),
        forall|v: WorkflowView, e: EventView| inv(v) ==> inv(#[trigger] next(v, e)),
    ensures
        inv(after(w, events.take(j))),
    decreases j - k,
{
    if k < j {
        lemma_kept(inv, w, events, k, j - 1);
        lemma_after_step(w, events, j - 1);
    }
}

/// Runs the workflow for `command` against a script: feeds it `events`
/// one by one and returns every request it made on the way, the first one
/// before any event.  Nothing is carried out.
pub fn replay(paths: PathConvention, command: Command, events: &Vec<Event>) -> (r: Vec<Action>)
    ensures
        action_views(r@) == requests(initial(paths@, command@), event_views(events@)),
{
    let ghost start = initial(paths@, command@);
    let ghost script = event_views(events@);
    let mut w = Workflow::new(paths, command);
    let mut out: Vec<Action> = Vec::new();
    out.push(w.pending());
    let mut i: usize = 0;
    while i < events.len()
        invariant
            i <= events.len(),
            script == event_views(events@),
            w@ == after(start, script.take(i as int)),
            out.len() == i + 1,
            forall|k: int|
                0 <= k <= i ==> (#[trigger] out[k])@ == action_of(after(start, script.take(k))),
        decreases events.len() - i,
    {
        proof {
            lemma_after_step(start, script, i as int);
        }
        w.feed(&events[i]);
        out.push(w.pending());
        i = i + 1;
    }
    assert(action_views(out@) =~= requests(start, script));
    out
}

} // verus!
