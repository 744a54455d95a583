//! What holds of every tick. A tick is the run of a reconciler from one
//! start to the action that logs: each action is answered by what the outside
//! replies to it, and the answer decides the next action.

use crate::notify::{failure_message, notification_spec, success_message, Accent};
use crate::provider::{lookup, update_for, DnsRecordView, UpdateOutcomeView};
use crate::reconcile::{
    begin_spec, changed_line, not_found_line, notified_line, query_failed_line,
    resolve_failed_line, step_spec, unchanged_line, up_to_date_line, update_failed_line,
    update_line, ActionView, EventView, Phase, ReconcilerView,
};
use crate::text::trimmed;
use crate::tick::{header, no_tick, TickOutcomeView, Verdict};
use vstd::prelude::*;

verus! {

/// What the outside would reply during one tick, to each thing it may be
/// asked.
pub struct Replies {
    /// The resolver's reply; nothing where it fails.
    pub resolved: Option<Seq<char>>,
    /// The records that the provider lists; nothing where it fails.
    pub records: Option<Seq<DnsRecordView>>,
    /// The provider's answer to an update; nothing where none comes back.
    pub update: Option<UpdateOutcomeView>,
    /// Whether a notification is delivered.
    pub delivered: bool,
    /// The colour drawn for a notification of success.
    pub accent: Accent,
}

/// The event with which the outside answers `action`.
pub open spec fn reply_to(action: ActionView, replies: Replies) -> EventView {
    match action {
        ActionView::Resolve => match replies.resolved {
            Some(body) => EventView::Resolved(body),
            None => EventView::ResolveFailed,
        },
        ActionView::Query => match replies.records {
            Some(records) => EventView::Records(records),
            None => EventView::QueryFailed,
        },
        ActionView::Update(_) => match replies.update {
            Some(outcome) => EventView::Updated(outcome),
            None => EventView::UpdateFailed,
        },
        _ => EventView::Notified(replies.delivered),
    }
}

/// The run from `action`, which a reconciler in `state` has just asked for:
/// the state at its end and the actions in their order, `action` first. It
/// ends with the action that logs, with an answer that asks for nothing, or
/// after `limit` answers.
pub open spec fn run(state: ReconcilerView, action: ActionView, replies: Replies, limit: nat) -> (
    ReconcilerView,
    Seq<ActionView>,
)
    decreases limit,
{
    if limit == 0 || action is Log {
        (state, seq![action])
    } else {
        let (after, next) = step_spec(state, reply_to(action, replies), replies.accent);
        match next {
            Some(then) => {
                let (end, rest) = run(after, then, replies, (limit - 1) as nat);
                (end, seq![action] + rest)
            },
            None => (after, seq![action]),
        }
    }
}

/// One tick of a reconciler in `state`: the state after it and the actions
/// it asked for, in their order. A tick asks for five actions at most.
pub open spec fn tick(state: ReconcilerView, started: Seq<char>, next: Seq<char>, replies: Replies) -> (
    ReconcilerView,
    Seq<ActionView>,
) {
    let (begun, first) = begin_spec(state, started, next);
    match first {
        Some(action) => run(begun, action, replies, 4),
        None => (begun, Seq::empty()),
    }
}

/// How a tick goes, for a reconciler in `state` between ticks.
pub open spec fn verdict_of(state: ReconcilerView, replies: Replies) -> Verdict {
    match replies.resolved {
        None => Verdict::ResolveFailed,
        Some(body) => if state.last_known == Some(trimmed(body)) {
            Verdict::Unchanged
        } else {
            match replies.records {
                None => Verdict::QueryFailed,
                Some(records) => match lookup(records, state.name) {
                    None => Verdict::NotFound,
                    Some(record) => if record.content == trimmed(body) {
                        Verdict::UpToDate
                    } else {
                        match replies.update {
                            None => Verdict::UpdateFailed,
                            Some(outcome) => if outcome.success {
                                Verdict::Updated
                            } else {
                                Verdict::Rejected
                            },
                        }
                    },
                },
            }
        },
    }
}

/// The address that a tick sees: the resolver's reply without the blanks
/// around it; empty where the resolver fails.
pub open spec fn seen(replies: Replies) -> Seq<char> {
    match replies.resolved {
        Some(body) => trimmed(body),
        None => Seq::empty(),
    }
}

/// The record that a tick finds: the first of the name `name` that the
/// provider lists.
pub open spec fn found(name: Seq<char>, replies: Replies) -> Option<DnsRecordView> {
    match replies.records {
        Some(records) => lookup(records, name),
        None => None,
    }
}

/// The text that a tick logs after the header, for a reconciler in `state`
/// between ticks: one line for each thing it found, in the order of finding.
pub open spec fn story(state: ReconcilerView, replies: Replies) -> Seq<char> {
    let ip = seen(replies);
    match verdict_of(state, replies) {
        Verdict::ResolveFailed => resolve_failed_line(),
        Verdict::Unchanged => unchanged_line(ip),
        Verdict::QueryFailed => changed_line(ip) + query_failed_line(),
        Verdict::NotFound => changed_line(ip) + not_found_line(state.name),
        Verdict::UpToDate => changed_line(ip) + up_to_date_line(ip),
        Verdict::UpdateFailed => changed_line(ip) + update_failed_line(),
        _ => changed_line(ip) + update_line(ip, replies.update->0) + notified_line(
            replies.delivered,
        ),
    }
}

/// Whether a tick that goes as `verdict` says sends an update.
pub open spec fn sends_update(verdict: Verdict) -> bool {
    verdict is UpdateFailed || verdict is Updated || verdict is Rejected
}

/// What a tick hands to the log, for a reconciler in `state` between ticks.
pub open spec fn outcome_of(
    state: ReconcilerView,
    started: Seq<char>,
    next: Seq<char>,
    replies: Replies,
) -> TickOutcomeView {
    let verdict = verdict_of(state, replies);
    TickOutcomeView {
        started,
        observed: seen(replies),
        changed: replies.resolved is Some && !(verdict is Unchanged),
        update_attempted: sends_update(verdict),
        verdict,
        detail: if verdict is Rejected {
            replies.update->0.first_error()
        } else {
            Seq::empty()
        },
        narrative: header(started, next) + story(state, replies),
    }
}

/// The actions of a tick before the one that logs, for a reconciler in
/// `state` between ticks.
pub open spec fn errands(state: ReconcilerView, replies: Replies) -> Seq<ActionView> {
    let update = ActionView::Update(
        update_for(found(state.name, replies)->0.id, state.name, seen(replies)),
    );
    match verdict_of(state, replies) {
        Verdict::ResolveFailed | Verdict::Unchanged => seq![ActionView::Resolve],
        Verdict::QueryFailed | Verdict::NotFound | Verdict::UpToDate => seq![
            ActionView::Resolve,
            ActionView::Query,
        ],
        Verdict::UpdateFailed => seq![ActionView::Resolve, ActionView::Query, update],
        _ => seq![
            ActionView::Resolve,
            ActionView::Query,
            update,
            ActionView::Notify(notification_spec(state.name, replies.update->0, replies.accent)),
        ],
    }
}

/// The address last seen, after a tick of a reconciler in `state` between
/// ticks: what the tick saw, and what was known before where the resolver
/// failed.
pub open spec fn known_after(state: ReconcilerView, replies: Replies) -> Option<Seq<char>> {
    match replies.resolved {
        Some(body) => Some(trimmed(body)),
        None => state.last_known,
    }
}

/// A tick, written out: it asks for its errands and then hands its outcome
/// to the log, once; it ends between ticks with nothing of the tick left
/// behind, and what it saw is the address last seen.
pub proof fn law_tick_written_out(
    state: ReconcilerView,
    started: Seq<char>,
    next: Seq<char>,
    replies: Replies,
)
    requires
        state.phase == Phase::Idle,
    ensures
        tick(state, started, next, replies).1 == errands(state, replies).push(
            ActionView::Log(outcome_of(state, started, next, replies)),
        ),
        tick(state, started, next, replies).0 == (ReconcilerView {
            name: state.name,
            last_known: known_after(state, replies),
            phase: Phase::Idle,
            tick: no_tick(),
        }),
{
    reveal_with_fuel(run, 5);
    let head = header(started, next);
    let ip = seen(replies);
    let (end, trace) = tick(state, started, next, replies);
    let want = errands(state, replies).push(
        ActionView::Log(outcome_of(state, started, next, replies)),
    );
    match verdict_of(state, replies) {
        Verdict::QueryFailed => {
            assert(head + changed_line(ip) + query_failed_line() =~= head + (changed_line(ip)
                + query_failed_line()));
        },
        Verdict::NotFound => {
            assert(head + changed_line(ip) + not_found_line(state.name) =~= head + (changed_line(
                ip,
            ) + not_found_line(state.name)));
        },
        Verdict::UpToDate => {
            assert(head + changed_line(ip) + up_to_date_line(ip) =~= head + (changed_line(ip)
                + up_to_date_line(ip)));
        },
        Verdict::UpdateFailed => {
            assert(head + changed_line(ip) + update_failed_line() =~= head + (changed_line(ip)
                + update_failed_line()));
        },
        Verdict::Updated | Verdict::Rejected => {
            let outcome = replies.update->0;
            assert(head + changed_line(ip) + update_line(ip, outcome) + notified_line(
                replies.delivered,
            ) =~= head + (changed_line(ip) + update_line(ip, outcome) + notified_line(
                replies.delivered,
            )));
        },
        _ => {},
    }
    assert(trace =~= want);
}

/// Every tick logs exactly once, as its last action, and what it logs says
/// how the tick went: the verdict, and as text the header followed by the
/// story of that way.
pub proof fn law_one_log_per_tick(
    state: ReconcilerView,
    started: Seq<char>,
    next: Seq<char>,
    replies: Replies,
)
    requires
        state.phase == Phase::Idle,
    ensures
        ({
            let trace = tick(state, started, next, replies).1;
            &&& trace.len() >= 2
            &&& trace.last() == ActionView::Log(outcome_of(state, started, next, replies))
            &&& outcome_of(state, started, next, replies).verdict == verdict_of(state, replies)
            &&& outcome_of(state, started, next, replies).narrative == header(started, next)
                + story(state, replies)
            &&& !(verdict_of(state, replies) is Pending)
            &&& forall|i: int| 0 <= i < trace.len() - 1 ==> !(#[trigger] trace[i] is Log)
        }),
{
    law_tick_written_out(state, started, next, replies);
}

/// Where no address was seen before, whatever the resolver replies counts as
/// a change: it becomes the address last seen, and the provider is asked for
/// its records.
pub proof fn law_first_address_is_a_change(
    state: ReconcilerView,
    started: Seq<char>,
    next: Seq<char>,
    replies: Replies,
)
    requires
        state.phase == Phase::Idle,
        state.last_known is None,
        replies.resolved is Some,
    ensures
        ({
            let (end, trace) = tick(state, started, next, replies);
            &&& trace.len() >= 3
            &&& trace[0] == ActionView::Resolve
            &&& trace[1] == ActionView::Query
            &&& end.last_known == Some(trimmed(replies.resolved->0))
        }),
{
    law_tick_written_out(state, started, next, replies);
}

/// Where the resolver replies the address last seen, the provider is asked
/// nothing: the tick asks the resolver, logs that nothing changed, and the
/// address last seen stays, as does all else of a reconciler at rest.
pub proof fn law_same_address_asks_nothing(
    state: ReconcilerView,
    started: Seq<char>,
    next: Seq<char>,
    replies: Replies,
)
    requires
        state.phase == Phase::Idle,
        replies.resolved is Some,
        state.last_known == Some(trimmed(replies.resolved->0)),
    ensures
        ({
            let (end, trace) = tick(state, started, next, replies);
            &&& trace == seq![
                ActionView::Resolve,
                ActionView::Log(outcome_of(state, started, next, replies)),
            ]
            &&& outcome_of(state, started, next, replies).verdict == Verdict::Unchanged
            &&& outcome_of(state, started, next, replies).narrative == header(started, next)
                + unchanged_line(trimmed(replies.resolved->0))
            &&& !outcome_of(state, started, next, replies).changed
            &&& forall|i: int|
                0 <= i < trace.len() ==> !(#[trigger] trace[i] is Query) && !(trace[i] is Update)
                    && !(trace[i] is Notify)
            &&& end.last_known == state.last_known
            &&& at_rest(state) ==> end == state
        }),
{
    law_tick_written_out(state, started, next, replies);
    let (end, trace) = tick(state, started, next, replies);
    assert(trace =~= seq![
        ActionView::Resolve,
        ActionView::Log(outcome_of(state, started, next, replies)),
    ]);
}

/// Whether a reconciler is between ticks with nothing of a tick left
/// behind.
pub open spec fn at_rest(state: ReconcilerView) -> bool {
    &&& state.phase == Phase::Idle
    &&& state.tick == no_tick()
}

/// A tick leaves the reconciler at rest.
pub proof fn law_tick_ends_at_rest(
    state: ReconcilerView,
    started: Seq<char>,
    next: Seq<char>,
    replies: Replies,
)
    requires
        state.phase == Phase::Idle,
    ensures
        at_rest(tick(state, started, next, replies).0),
        tick(state, started, next, replies).0.name == state.name,
{
    law_tick_written_out(state, started, next, replies);
}

/// Where the address is not the one last seen, but the provider's record
/// holds it already, no update is sent and nothing is notified; the address
/// still becomes the one last seen.
pub proof fn law_matching_record_is_left_alone(
    state: ReconcilerView,
    started: Seq<char>,
    next: Seq<char>,
    replies: Replies,
)
    requires
        state.phase == Phase::Idle,
        replies.resolved is Some,
        state.last_known != Some(trimmed(replies.resolved->0)),
        found(state.name, replies) is Some,
        found(state.name, replies)->0.content == trimmed(replies.resolved->0),
    ensures
        ({
            let ip = trimmed(replies.resolved->0);
            let (end, trace) = tick(state, started, next, replies);
            &&& trace == seq![
                ActionView::Resolve,
                ActionView::Query,
                ActionView::Log(outcome_of(state, started, next, replies)),
            ]
            &&& outcome_of(state, started, next, replies).verdict == Verdict::UpToDate
            &&& outcome_of(state, started, next, replies).narrative == header(started, next)
                + (changed_line(ip) + up_to_date_line(ip))
            &&& !outcome_of(state, started, next, replies).update_attempted
            &&& forall|i: int|
                0 <= i < trace.len() ==> !(#[trigger] trace[i] is Update) && !(trace[i] is Notify)
            &&& end.last_known == Some(ip)
        }),
{
    law_tick_written_out(state, started, next, replies);
    let ip = trimmed(replies.resolved->0);
    assert(tick(state, started, next, replies).1 =~= seq![
        ActionView::Resolve,
        ActionView::Query,
        ActionView::Log(outcome_of(state, started, next, replies)),
    ]);
}

/// Where the address is not the one last seen and the provider's record
/// holds another, the update is sent: for the record found, under the
/// reconciler's name, with the address seen, as an address record with the
/// fixed time to live, not proxied.
pub proof fn law_stale_record_is_updated(
    state: ReconcilerView,
    started: Seq<char>,
    next: Seq<char>,
    replies: Replies,
)
    requires
        state.phase == Phase::Idle,
        replies.resolved is Some,
        state.last_known != Some(trimmed(replies.resolved->0)),
        found(state.name, replies) is Some,
        found(state.name, replies)->0.content != trimmed(replies.resolved->0),
    ensures
        ({
            let ip = trimmed(replies.resolved->0);
            let (end, trace) = tick(state, started, next, replies);
            &&& trace.len() >= 4
            &&& trace[2] == ActionView::Update(
                update_for(found(state.name, replies)->0.id, state.name, ip),
            )
            &&& end.last_known == Some(ip)
        }),
{
    law_tick_written_out(state, started, next, replies);
}

/// An update that the provider answers is notified exactly once, right after
/// it: without error and with the text of success where the answer says
/// success; as an error, with the text of failure that quotes the first
/// error reported, where it does not.
pub proof fn law_update_is_notified_once(
    state: ReconcilerView,
    started: Seq<char>,
    next: Seq<char>,
    replies: Replies,
    at: int,
)
    requires
        state.phase == Phase::Idle,
        0 <= at < tick(state, started, next, replies).1.len(),
        tick(state, started, next, replies).1[at] is Update,
        replies.update is Some,
    ensures
        ({
            let trace = tick(state, started, next, replies).1;
            let outcome = replies.update->0;
            &&& at + 1 < trace.len()
            &&& trace[at + 1] is Notify
            &&& forall|i: int| 0 <= i < trace.len() && i != at + 1 ==> !(#[trigger] trace[i] is Notify)
            &&& trace[at + 1]->Notify_0.is_error == !outcome.success
            &&& outcome.success ==> trace[at + 1]->Notify_0.body == success_message(state.name)
            &&& !outcome.success ==> trace[at + 1]->Notify_0.body == failure_message(
                state.name,
                outcome.first_error(),
            )
            &&& outcome.errors.len() > 0 ==> outcome.first_error() == outcome.errors[0]
        }),
{
    law_tick_written_out(state, started, next, replies);
}

/// Nothing is notified but the provider's answer to an update: a tick that
/// sends no update, or gets no answer to it, notifies nothing.
pub proof fn law_no_answer_no_notification(
    state: ReconcilerView,
    started: Seq<char>,
    next: Seq<char>,
    replies: Replies,
)
    requires
        state.phase == Phase::Idle,
        !(verdict_of(state, replies) is Updated),
        !(verdict_of(state, replies) is Rejected),
    ensures
        forall|i: int|
            0 <= i < tick(state, started, next, replies).1.len() ==> !(#[trigger] tick(
                state,
                started,
                next,
                replies,
            ).1[i] is Notify),
{
    law_tick_written_out(state, started, next, replies);
}

/// An address once seen is never forgotten: no start of a tick and no
/// answer leaves a reconciler without an address last seen that had one.
pub proof fn law_last_known_is_never_cleared(
    state: ReconcilerView,
    event: EventView,
    accent: Accent,
    started: Seq<char>,
    next: Seq<char>,
)
    requires
        state.last_known is Some,
    ensures
        step_spec(state, event, accent).0.last_known is Some,
        begin_spec(state, started, next).0.last_known is Some,
{
}

/// Whether a notification is delivered changes the text that is logged, and
/// nothing else: the state after the tick and the actions before the log are the
/// same either way.
pub proof fn law_delivery_is_immaterial(
    state: ReconcilerView,
    started: Seq<char>,
    next: Seq<char>,
    replies: Replies,
)
    requires
        state.phase == Phase::Idle,
    ensures
        ({
            let other = Replies { delivered: !replies.delivered, ..replies };
            &&& tick(state, started, next, other).0 == tick(state, started, next, replies).0
            &&& tick(state, started, next, other).1.drop_last() == tick(
                state,
                started,
                next,
                replies,
            ).1.drop_last()
        }),
{
    let other = Replies { delivered: !replies.delivered, ..replies };
    law_tick_written_out(state, started, next, replies);
    law_tick_written_out(state, started, next, other);
    let log = ActionView::Log(outcome_of(state, started, next, replies));
    let other_log = ActionView::Log(outcome_of(state, started, next, other));
    assert(errands(state, replies).push(log).drop_last() =~= errands(state, replies));
    assert(errands(state, other).push(other_log).drop_last() =~= errands(state, other));
}

/// A failure on the way ends the tick there and leaves the reconciler ready
/// for the next: after any tick a new one can start, and asks the resolver.
pub proof fn law_next_tick_always_starts(
    state: ReconcilerView,
    started: Seq<char>,
    next: Seq<char>,
    replies: Replies,
    later: Seq<char>,
    after: Seq<char>,
)
    requires
        state.phase == Phase::Idle,
    ensures
        begin_spec(tick(state, started, next, replies).0, later, after).1 == Some(
            ActionView::Resolve,
        ),
{
    law_tick_written_out(state, started, next, replies);
}

} // verus!
