//! The decisions of a tick. A `Reconciler` holds what is carried from tick to
//! tick, the address last seen, and what the tick under way has found so far.
//! It never performs anything itself: it answers each `Event` with the next
//! `Action` for its caller to perform.

use crate::notify::{
    accent_spec, notification_for, notification_spec, pick_accent, palette, Accent,
    Notification, NotificationView,
};
use crate::provider::{
    find_record, lookup, record_views, update_for, update_request, DnsRecord, DnsRecordView,
    UpdateOutcome, UpdateOutcomeView, UpdateRequest, UpdateRequestView,
};
use crate::text::{normalize_ip, trimmed};
use crate::tick::{fresh_tick, no_tick, TickOutcome, TickOutcomeView, Verdict};
use vstd::prelude::*;
use vstd::string::*;

verus! {

/// Where a reconciler stands: between two ticks, or waiting for the answer
/// to what it asked last.
#[derive(Clone, Copy, Debug, PartialEq, Eq, Structural)]
pub enum Phase {
    Idle,
    Resolving,
    Querying,
    Updating,
    Notifying,
}

/// What came back from the outside.
#[derive(Clone, Debug, PartialEq, Eq)]
pub enum Event {
    /// The resolver's reply, as it came.
    Resolved(String),
    /// The resolver could not be reached, or refused.
    ResolveFailed,
    /// The records that the provider lists.
    Records(Vec<DnsRecord>),
    /// The provider could not be reached, or refused to list.
    QueryFailed,
    /// The provider's answer to the update.
    Updated(UpdateOutcome),
    /// The update never reached the provider, or no answer came back.
    UpdateFailed,
    /// The notification was sent; whether it was delivered.
    Notified(bool),
}

/// What an `Event` holds, as plain values.
pub enum EventView {
    Resolved(Seq<char>),
    ResolveFailed,
    Records(Seq<DnsRecordView>),
    QueryFailed,
    Updated(UpdateOutcomeView),
    UpdateFailed,
    Notified(bool),
}

impl View for Event {
    type V = EventView;

    open spec fn view(&self) -> EventView {
        match self {
            Event::Resolved(body) => EventView::Resolved(body@),
            Event::ResolveFailed => EventView::ResolveFailed,
            Event::Records(records) => EventView::Records(record_views(records@)),
            Event::QueryFailed => EventView::QueryFailed,
            Event::Updated(outcome) => EventView::Updated(outcome@),
            Event::UpdateFailed => EventView::UpdateFailed,
            Event::Notified(delivered) => EventView::Notified(*delivered),
        }
    }
}

/// What the caller is to do next.
#[derive(Clone, Debug, PartialEq, Eq)]
pub enum Action {
    /// Ask the resolver for this machine's public address.
    Resolve,
    /// Ask the provider for its records.
    Query,
    /// Send this update to the provider.
    Update(UpdateRequest),
    /// Send this notification.
    Notify(Notification),
    /// Append the narrative of this outcome to the log; the tick is over.
    Log(TickOutcome),
}

/// What an `Action` holds, as plain values.
pub enum ActionView {
    Resolve,
    Query,
    Update(UpdateRequestView),
    Notify(NotificationView),
    Log(TickOutcomeView),
}

impl View for Action {
    type V = ActionView;

    open spec fn view(&self) -> ActionView {
        match self {
            Action::Resolve => ActionView::Resolve,
            Action::Query => ActionView::Query,
            Action::Update(request) => ActionView::Update(request@),
            Action::Notify(notification) => ActionView::Notify(notification@),
            Action::Log(outcome) => ActionView::Log(outcome@),
        }
    }
}

/// The view of an action that may be missing.
pub open spec fn action_view(action: Option<Action>) -> Option<ActionView> {
    match action {
        Some(a) => Some(a@),
        None => None,
    }
}

/// The colour of the notification that `action` sends; red where it sends
/// none.
pub open spec fn accent_of(action: Option<ActionView>) -> Accent {
    match action {
        Some(ActionView::Notify(notification)) => notification.accent,
        _ => Accent::Red,
    }
}

/// What a `Reconciler` holds, as plain values.
pub struct ReconcilerView {
    /// The name of the record that is kept in step.
    pub name: Seq<char>,
    /// The address seen last; nothing before the first was seen.
    pub last_known: Option<Seq<char>>,
    pub phase: Phase,
    /// What the tick under way has found so far; `no_tick()` between ticks.
    pub tick: TickOutcomeView,
}

/// The line for an address that is the one last seen.
pub open spec fn unchanged_line(ip: Seq<char>) -> Seq<char> {
    "\nPublic IP has not changed: "@ + ip
}

/// The line for an address that is not the one last seen.
pub open spec fn changed_line(ip: Seq<char>) -> Seq<char> {
    "\nPublic IP has changed to: "@ + ip
}

/// The line for a record that holds the address already.
pub open spec fn up_to_date_line(ip: Seq<char>) -> Seq<char> {
    "\nPublic IP is already up to date: "@ + ip
}

/// The line for a resolver that failed.
pub open spec fn resolve_failed_line() -> Seq<char> {
    "\nFailed to resolve public IP"@
}

/// The line for a provider that failed to list its records.
pub open spec fn query_failed_line() -> Seq<char> {
    "\nFailed to fetch DNS records"@
}

/// The line for a provider that lists no record called `name`.
pub open spec fn not_found_line(name: Seq<char>) -> Seq<char> {
    "\nFailed to find DNS record: "@ + name
}

/// The line for an update that never got an answer.
pub open spec fn update_failed_line() -> Seq<char> {
    "\nFailed to send update request"@
}

/// The line for the provider's answer to an update: that the record holds
/// `ip` now, or that the provider refused, with the first error it reported.
pub open spec fn update_line(ip: Seq<char>, outcome: UpdateOutcomeView) -> Seq<char> {
    if outcome.success {
        "\nDNS record updated to: "@ + ip
    } else {
        "\nDNS record update failed: "@ + outcome.first_error()
    }
}

/// The line for a notification, which is empty unless it was not delivered.
pub open spec fn notified_line(delivered: bool) -> Seq<char> {
    if delivered {
        Seq::empty()
    } else {
        "\nNotification could not be delivered"@
    }
}

/// The end of a tick: `line` closes the narrative and `verdict` says how the
/// tick went. The outcome is to be logged, and nothing of the tick stays
/// behind but the address last seen.
pub open spec fn close(state: ReconcilerView, verdict: Verdict, line: Seq<char>) -> (
    ReconcilerView,
    Option<ActionView>,
) {
    (
        ReconcilerView { phase: Phase::Idle, tick: no_tick(), ..state },
        Some(
            ActionView::Log(
                TickOutcomeView { verdict, narrative: state.tick.narrative + line, ..state.tick },
            ),
        ),
    )
}

/// The start of a tick. Between ticks, a fresh outcome is begun and the
/// resolver is to be asked. While a tick is under way nothing changes and
/// there is nothing to do: ticks do not overlap.
pub open spec fn begin_spec(state: ReconcilerView, started: Seq<char>, next: Seq<char>) -> (
    ReconcilerView,
    Option<ActionView>,
) {
    if state.phase == Phase::Idle {
        (
            ReconcilerView { phase: Phase::Resolving, tick: fresh_tick(started, next), ..state },
            Some(ActionView::Resolve),
        )
    } else {
        (state, None)
    }
}

/// One decision: the state after `event` and what is to be done next, for a
/// reconciler in `state`; `accent` is the colour of a notification of
/// success.
///
/// - The resolver's reply is stripped of the blanks around it. Where that is
///   the address last seen, the tick ends. Where it is another, or none was
///   seen before, it becomes the address last seen and the provider is asked
///   for its records.
/// - Of the records, the first with the reconciler's name counts. Where it
///   holds the address already, the tick ends; else the update is sent.
/// - The provider's answer to the update is notified, as success or as
///   failure; after the notification the tick ends.
/// - A failure of the resolver or of the provider, and a list without the
///   name, end the tick.
/// - An event that does not answer what was asked last changes nothing and
///   asks for nothing.
pub open spec fn step_spec(state: ReconcilerView, event: EventView, accent: Accent) -> (
    ReconcilerView,
    Option<ActionView>,
) {
    let tick = state.tick;
    match (state.phase, event) {
        (Phase::Resolving, EventView::Resolved(body)) => {
            let ip = trimmed(body);
            if state.last_known == Some(ip) {
                close(
                    ReconcilerView { tick: TickOutcomeView { observed: ip, ..tick }, ..state },
                    Verdict::Unchanged,
                    unchanged_line(ip),
                )
            } else {
                (
                    ReconcilerView {
                        last_known: Some(ip),
                        phase: Phase::Querying,
                        tick: TickOutcomeView {
                            observed: ip,
                            changed: true,
                            narrative: tick.narrative + changed_line(ip),
                            ..tick
                        },
                        ..state
                    },
                    Some(ActionView::Query),
                )
            }
        },
        (Phase::Resolving, EventView::ResolveFailed) => close(
            state,
            Verdict::ResolveFailed,
            resolve_failed_line(),
        ),
        (Phase::Querying, EventView::Records(records)) => match lookup(records, state.name) {
            Some(record) => if record.content == tick.observed {
                close(state, Verdict::UpToDate, up_to_date_line(tick.observed))
            } else {
                (
                    ReconcilerView {
                        phase: Phase::Updating,
                        tick: TickOutcomeView { update_attempted: true, ..tick },
                        ..state
                    },
                    Some(ActionView::Update(update_for(record.id, state.name, tick.observed))),
                )
            },
            None => close(state, Verdict::NotFound, not_found_line(state.name)),
        },
        (Phase::Querying, EventView::QueryFailed) => close(
            state,
            Verdict::QueryFailed,
            query_failed_line(),
        ),
        (Phase::Updating, EventView::Updated(outcome)) => (
            ReconcilerView {
                phase: Phase::Notifying,
                tick: TickOutcomeView {
                    verdict: if outcome.success {
                        Verdict::Updated
                    } else {
                        Verdict::Rejected
                    },
                    detail: if outcome.success {
                        Seq::empty()
                    } else {
                        outcome.first_error()
                    },
                    narrative: tick.narrative + update_line(tick.observed, outcome),
                    ..tick
                },
                ..state
            },
            Some(ActionView::Notify(notification_spec(state.name, outcome, accent))),
        ),
        (Phase::Updating, EventView::UpdateFailed) => close(
            state,
            Verdict::UpdateFailed,
            update_failed_line(),
        ),
        (Phase::Notifying, EventView::Notified(delivered)) => close(
            state,
            tick.verdict,
            notified_line(delivered),
        ),
        _ => (state, None),
    }
}

/// The decisions of the ticks that keep one record in step with this
/// machine's address.
#[derive(Debug)]
pub struct Reconciler {
    name: String,
    last_known: Option<String>,
    phase: Phase,
    tick: TickOutcome,
}

impl View for Reconciler {
    type V = ReconcilerView;

    closed spec fn view(&self) -> ReconcilerView {
        ReconcilerView {
            name: self.name@,
            last_known: match self.last_known {
                Some(ip) => Some(ip@),
                None => None,
            },
            phase: self.phase,
            tick: self.tick@,
        }
    }
}

impl Reconciler {
    /// A reconciler for the record `name`, between ticks, that has seen no
    /// address yet.
    pub fn new(name: &str) -> (r: Reconciler)
        ensures
            r@ == (ReconcilerView {
                name: name@,
                last_known: None,
                phase: Phase::Idle,
                tick: no_tick(),
            }),
    {
        Reconciler {
            name: name.to_owned(),
            last_known: None,
            phase: Phase::Idle,
            tick: TickOutcome::none(),
        }
    }

    /// The name of the record that is kept in step.
    pub fn name(&self) -> (r: &str)
        ensures
            r@ == self@.name,
    {
        self.name.as_str()
    }

    /// Where the reconciler stands.
    pub fn phase(&self) -> (r: Phase)
        ensures
            r == self@.phase,
    {
        self.phase
    }

    /// The address seen last, if one was seen.
    pub fn last_known_ip(&self) -> (r: Option<&str>)
        ensures
            match r {
                Some(ip) => self@.last_known == Some(ip@),
                None => self@.last_known is None,
            },
    {
        match &self.last_known {
            Some(ip) => Some(ip.as_str()),
            None => None,
        }
    }

    /// Ends the tick with the verdict `verdict` and a last line made of
    /// `label` and `detail`: hands out the outcome, to be logged.
    fn close(&mut self, verdict: Verdict, label: &str, detail: &str) -> (r: Option<Action>)
        ensures
            (final(self)@, action_view(r)) == close(old(self)@, verdict, label@ + detail@),
    {
        let mut outcome = TickOutcome::none();
        std::mem::swap(&mut self.tick, &mut outcome);
        outcome.narrative.append(label);
        outcome.narrative.append(detail);
        assert(outcome.narrative@ =~= old(self)@.tick.narrative + (label@ + detail@));
        outcome.verdict = verdict;
        self.phase = Phase::Idle;
        Some(Action::Log(outcome))
    }

    /// Starts a tick; `started` and `next` show when it started and when the
    /// next is due. Returns nothing, and changes nothing, while a tick is
    /// under way.
    pub fn begin_tick(&mut self, started: &str, next: &str) -> (r: Option<Action>)
        ensures
            (final(self)@, action_view(r)) == begin_spec(old(self)@, started@, next@),
    {
        if self.phase == Phase::Idle {
            self.tick = TickOutcome::fresh(started, next);
            self.phase = Phase::Resolving;
            Some(Action::Resolve)
        } else {
            None
        }
    }

    /// Answers `event` with the next action, given what was drawn for the
    /// colour of a notification of success. Returns nothing, and changes
    /// nothing, where `event` does not answer what was asked last.
    pub fn step_with(&mut self, event: Event, drawn: Option<Accent>) -> (r: Option<Action>)
        ensures
            (final(self)@, action_view(r)) == step_spec(
                old(self)@,
                event@,
                accent_spec(false, drawn),
            ),
    {
        proof {
            reveal_strlit("");
            assert(""@ =~= Seq::<char>::empty());
            assert forall|line: Seq<char>| #[trigger] (line + ""@) == line by {
                assert(line + ""@ =~= line);
            }
        }
        match (self.phase, event) {
            (Phase::Resolving, Event::Resolved(body)) => {
                let ip = normalize_ip(body.as_str());
                let seen_before = match &self.last_known {
                    Some(known) => *known == ip,
                    None => false,
                };
                if seen_before {
                    self.tick.observed = ip.clone();
                    self.close(Verdict::Unchanged, "\nPublic IP has not changed: ", ip.as_str())
                } else {
                    self.tick.narrative.append("\nPublic IP has changed to: ");
                    self.tick.narrative.append(ip.as_str());
                    assert(self.tick.narrative@ =~= old(self)@.tick.narrative + changed_line(ip@));
                    self.tick.observed = ip.clone();
                    self.tick.changed = true;
                    self.last_known = Some(ip);
                    self.phase = Phase::Querying;
                    Some(Action::Query)
                }
            },
            (Phase::Resolving, Event::ResolveFailed) => self.close(
                Verdict::ResolveFailed,
                "\nFailed to resolve public IP",
                "",
            ),
            (Phase::Querying, Event::Records(records)) => {
                match find_record(&records, self.name.as_str()) {
                    Some(record) => {
                        if record.content == self.tick.observed {
                            let ip = self.tick.observed.clone();
                            self.close(
                                Verdict::UpToDate,
                                "\nPublic IP is already up to date: ",
                                ip.as_str(),
                            )
                        } else {
                            let request = update_request(
                                record,
                                self.name.as_str(),
                                self.tick.observed.as_str(),
                            );
                            self.tick.update_attempted = true;
                            self.phase = Phase::Updating;
                            Some(Action::Update(request))
                        }
                    },
                    None => {
                        let name = self.name.clone();
                        self.close(Verdict::NotFound, "\nFailed to find DNS record: ", name.as_str())
                    },
                }
            },
            (Phase::Querying, Event::QueryFailed) => self.close(
                Verdict::QueryFailed,
                "\nFailed to fetch DNS records",
                "",
            ),
            (Phase::Updating, Event::Updated(outcome)) => {
                if outcome.success {
                    let ip = self.tick.observed.clone();
                    self.tick.narrative.append("\nDNS record updated to: ");
                    self.tick.narrative.append(ip.as_str());
                    self.tick.verdict = Verdict::Updated;
                    self.tick.detail = String::new();
                } else {
                    self.tick.narrative.append("\nDNS record update failed: ");
                    self.tick.narrative.append(outcome.first_error());
                    self.tick.verdict = Verdict::Rejected;
                    self.tick.detail = outcome.first_error().to_owned();
                }
                assert(self.tick.narrative@ =~= old(self)@.tick.narrative + update_line(
                    old(self)@.tick.observed,
                    outcome@,
                ));
                let notification = notification_for(self.name.as_str(), &outcome, drawn);
                self.phase = Phase::Notifying;
                Some(Action::Notify(notification))
            },
            (Phase::Updating, Event::UpdateFailed) => self.close(
                Verdict::UpdateFailed,
                "\nFailed to send update request",
                "",
            ),
            (Phase::Notifying, Event::Notified(delivered)) => {
                let verdict = self.tick.verdict;
                if delivered {
                    self.close(verdict, "", "")
                } else {
                    self.close(verdict, "\nNotification could not be delivered", "")
                }
            },
            _ => None,
        }
    }

    /// Answers `event` with the next action; where that is a notification of
    /// success, its colour is drawn at random from the palette. Returns
    /// nothing, and changes nothing, where `event` does not answer what was
    /// asked last.
    pub fn step(&mut self, event: Event) -> (r: Option<Action>)
        ensures
            (final(self)@, action_view(r)) == step_spec(
                old(self)@,
                event@,
                accent_of(action_view(r)),
            ),
            palette().contains(accent_of(action_view(r))),
    {
        let succeeded = match &event {
            Event::Updated(outcome) => outcome.success,
            _ => false,
        };
        proof {
            assert(palette()[3] == Accent::Red);
        }
        if succeeded && self.phase == Phase::Updating {
            let accent = pick_accent(false);
            self.step_with(event, Some(accent))
        } else {
            self.step_with(event, None)
        }
    }
}

} // verus!
