//! What one tick found: the value that a reconciler fills in while a tick
//! is under way and hands out, to be logged, when the tick ends.

use vstd::prelude::*;
use vstd::string::*;

verus! {

/// How a tick went.
#[derive(Clone, Copy, Debug, PartialEq, Eq, Structural)]
pub enum Verdict {
    /// The tick is under way, or none is.
    Pending,
    /// The resolver failed.
    ResolveFailed,
    /// The address is the one last seen.
    Unchanged,
    /// The provider failed to list its records.
    QueryFailed,
    /// The provider lists no record of the name.
    NotFound,
    /// The record holds the address already.
    UpToDate,
    /// The update got no answer.
    UpdateFailed,
    /// The provider made the update.
    Updated,
    /// The provider answered that the update failed.
    Rejected,
}

/// What one tick found.
#[derive(Clone, Debug, PartialEq, Eq)]
pub struct TickOutcome {
    /// When the tick started, as its caller shows the instant.
    pub started: String,
    /// The address that the resolver saw; empty where it saw none.
    pub observed: String,
    /// Whether that address is another than the one last seen before.
    pub changed: bool,
    /// Whether an update was sent to the provider.
    pub update_attempted: bool,
    pub verdict: Verdict,
    /// The first error that the provider reported, where it answered that
    /// the update failed; else empty.
    pub detail: String,
    /// The text for the log.
    pub narrative: String,
}

/// What a `TickOutcome` holds, as plain values.
pub struct TickOutcomeView {
    pub started: Seq<char>,
    pub observed: Seq<char>,
    pub changed: bool,
    pub update_attempted: bool,
    pub verdict: Verdict,
    pub detail: Seq<char>,
    pub narrative: Seq<char>,
}

impl View for TickOutcome {
    type V = TickOutcomeView;

    open spec fn view(&self) -> TickOutcomeView {
        TickOutcomeView {
            started: self.started@,
            observed: self.observed@,
            changed: self.changed,
            update_attempted: self.update_attempted,
            verdict: self.verdict,
            detail: self.detail@,
            narrative: self.narrative@,
        }
    }
}

/// The first lines of a tick's narrative: when it started and when the next
/// is due, as `started` and `next` show the two instants.
pub open spec fn header(started: Seq<char>, next: Seq<char>) -> Seq<char> {
    "Running cron job at "@ + started + "\nNext run at "@ + next
}

/// The outcome that stands where no tick is under way: nothing found, and
/// no text.
pub open spec fn no_tick() -> TickOutcomeView {
    TickOutcomeView {
        started: Seq::empty(),
        observed: Seq::empty(),
        changed: false,
        update_attempted: false,
        verdict: Verdict::Pending,
        detail: Seq::empty(),
        narrative: Seq::empty(),
    }
}

/// The outcome of a tick that has just started: nothing found yet, and the
/// header for a narrative.
pub open spec fn fresh_tick(started: Seq<char>, next: Seq<char>) -> TickOutcomeView {
    TickOutcomeView { started, narrative: header(started, next), ..no_tick() }
}

impl TickOutcome {
    /// The outcome that stands where no tick is under way.
    pub fn none() -> (r: TickOutcome)
        ensures
            r@ == no_tick(),
    {
        TickOutcome {
            started: String::new(),
            observed: String::new(),
            changed: false,
            update_attempted: false,
            verdict: Verdict::Pending,
            detail: String::new(),
            narrative: String::new(),
        }
    }

    /// The outcome of a tick that has just started; `started` and `next`
    /// show when it started and when the next is due.
    pub fn fresh(started: &str, next: &str) -> (r: TickOutcome)
        ensures
            r@ == fresh_tick(started@, next@),
    {
        let mut narrative = String::from_str("Running cron job at ");
        narrative.append(started);
        narrative.append("\nNext run at ");
        narrative.append(next);
        TickOutcome {
            started: started.to_owned(),
            observed: String::new(),
            changed: false,
            update_attempted: false,
            verdict: Verdict::Pending,
            detail: String::new(),
            narrative,
        }
    }
}

} // verus!
