use skysync::notify::{success_palette, Accent, Notification};
use skysync::provider::{DnsRecord, DnsType, UpdateOutcome, UpdateRequest};
use skysync::reconcile::{Action, Event, Phase, Reconciler};
use skysync::tick::{TickOutcome, Verdict};

const HEADER: &str = "Running cron job at 10:00\nNext run at 10:05";

fn record(name: &str, content: &str) -> DnsRecord {
    DnsRecord {
        id: format!("id-of-{}", name),
        name: name.to_string(),
        record_type: "A".to_string(),
        content: content.to_string(),
        ttl: 1,
        proxied: true,
    }
}

/// The outcome that `action` hands to the log.
fn logged(action: Option<Action>) -> TickOutcome {
    match action {
        Some(Action::Log(outcome)) => outcome,
        other => panic!("expected a log, got {:?}", other),
    }
}

fn begin(engine: &mut Reconciler) {
    assert_eq!(engine.begin_tick("10:00", "10:05"), Some(Action::Resolve));
}

/// Runs one tick that finds the record at `ip` already, so that `ip` is the
/// address last seen afterwards.
fn settle(engine: &mut Reconciler, ip: &str) {
    begin(engine);
    assert_eq!(engine.step(Event::Resolved(format!("{}\n", ip))), Some(Action::Query));
    let listed = vec![record("home.example.org", ip)];
    assert_eq!(logged(engine.step(Event::Records(listed))).verdict, Verdict::UpToDate);
    assert_eq!(engine.last_known_ip(), Some(ip));
}

/// Takes a fresh reconciler for `name` up to the update of a stale record.
fn up_to_update(name: &str) -> Reconciler {
    let mut engine = Reconciler::new(name);
    begin(&mut engine);
    assert_eq!(engine.step(Event::Resolved("203.0.113.5".to_string())), Some(Action::Query));
    let asked = engine.step(Event::Records(vec![record(name, "203.0.113.1")]));
    assert!(matches!(asked, Some(Action::Update(_))));
    engine
}

#[test]
fn first_tick_updates_a_stale_record() {
    let mut engine = Reconciler::new("home.example.org");
    assert_eq!(engine.last_known_ip(), None);
    begin(&mut engine);
    assert_eq!(engine.step(Event::Resolved("203.0.113.5\n".to_string())), Some(Action::Query));
    assert_eq!(engine.last_known_ip(), Some("203.0.113.5"));
    let listed =
        vec![record("other.example.org", "198.51.100.7"), record("home.example.org", "203.0.113.1")];
    let expected = UpdateRequest {
        id: "id-of-home.example.org".to_string(),
        record_type: DnsType::A,
        name: "home.example.org".to_string(),
        content: "203.0.113.5".to_string(),
        ttl: 1,
        proxied: false,
    };
    assert_eq!(engine.step(Event::Records(listed)), Some(Action::Update(expected)));
    let answer = UpdateOutcome { success: true, errors: vec![] };
    let told = engine.step_with(Event::Updated(answer), Some(Accent::Kerbal));
    assert_eq!(
        told,
        Some(Action::Notify(Notification {
            body: "O IP público do domínio home.example.org foi atualizado com sucesso!".to_string(),
            is_error: false,
            accent: Accent::Kerbal,
        }))
    );
    let outcome = logged(engine.step(Event::Notified(true)));
    assert_eq!(
        outcome,
        TickOutcome {
            started: "10:00".to_string(),
            observed: "203.0.113.5".to_string(),
            changed: true,
            update_attempted: true,
            verdict: Verdict::Updated,
            detail: String::new(),
            narrative: format!(
                "{}\nPublic IP has changed to: 203.0.113.5\nDNS record updated to: 203.0.113.5",
                HEADER
            ),
        }
    );
    assert_eq!(engine.last_known_ip(), Some("203.0.113.5"));
    assert_eq!(engine.phase(), Phase::Idle);
}

#[test]
fn same_address_only_logs_unchanged() {
    let mut engine = Reconciler::new("home.example.org");
    settle(&mut engine, "203.0.113.5");
    begin(&mut engine);
    let outcome = logged(engine.step(Event::Resolved("203.0.113.5\n".to_string())));
    assert_eq!(
        outcome,
        TickOutcome {
            started: "10:00".to_string(),
            observed: "203.0.113.5".to_string(),
            changed: false,
            update_attempted: false,
            verdict: Verdict::Unchanged,
            detail: String::new(),
            narrative: format!("{}\nPublic IP has not changed: 203.0.113.5", HEADER),
        }
    );
    assert_eq!(engine.phase(), Phase::Idle);
    assert_eq!(engine.last_known_ip(), Some("203.0.113.5"));
}

#[test]
fn changed_address_with_matching_record_sends_no_update() {
    let mut engine = Reconciler::new("home.example.org");
    settle(&mut engine, "203.0.113.1");
    begin(&mut engine);
    assert_eq!(engine.step(Event::Resolved("203.0.113.5\n".to_string())), Some(Action::Query));
    let listed = vec![record("home.example.org", "203.0.113.5")];
    let outcome = logged(engine.step(Event::Records(listed)));
    assert_eq!(
        outcome.narrative,
        format!(
            "{}\nPublic IP has changed to: 203.0.113.5\nPublic IP is already up to date: 203.0.113.5",
            HEADER
        )
    );
    assert_eq!(outcome.verdict, Verdict::UpToDate);
    assert!(outcome.changed);
    assert!(!outcome.update_attempted);
    assert_eq!(engine.last_known_ip(), Some("203.0.113.5"));
    assert_eq!(engine.phase(), Phase::Idle);
}

#[test]
fn rejected_update_is_notified_as_error_and_next_tick_runs() {
    let mut engine = up_to_update("home.example.org");
    let answer = UpdateOutcome {
        success: false,
        errors: vec!["rate limited".to_string(), "try later".to_string()],
    };
    let told = engine.step(Event::Updated(answer));
    assert_eq!(
        told,
        Some(Action::Notify(Notification {
            body: "Falha ao atualizar o IP público do domínio home.example.org!\n\n```rate limited```"
                .to_string(),
            is_error: true,
            accent: Accent::Red,
        }))
    );
    let outcome = logged(engine.step(Event::Notified(true)));
    assert_eq!(
        outcome.narrative,
        format!(
            "{}\nPublic IP has changed to: 203.0.113.5\nDNS record update failed: rate limited",
            HEADER
        )
    );
    assert_eq!(outcome.verdict, Verdict::Rejected);
    assert_eq!(outcome.detail, "rate limited");
    assert!(outcome.update_attempted);
    assert_eq!(engine.begin_tick("10:05", "10:10"), Some(Action::Resolve));
}

#[test]
fn rejected_update_without_errors_quotes_nothing() {
    let mut engine = up_to_update("h");
    let told = engine.step(Event::Updated(UpdateOutcome { success: false, errors: vec![] }));
    assert_eq!(
        told,
        Some(Action::Notify(Notification {
            body: "Falha ao atualizar o IP público do domínio h!\n\n``````".to_string(),
            is_error: true,
            accent: Accent::Red,
        }))
    );
    let outcome = logged(engine.step(Event::Notified(true)));
    assert_eq!(outcome.verdict, Verdict::Rejected);
    assert_eq!(outcome.detail, "");
}

#[test]
fn resolver_failure_ends_the_tick_with_one_log() {
    let mut engine = Reconciler::new("home.example.org");
    begin(&mut engine);
    let outcome = logged(engine.step(Event::ResolveFailed));
    assert_eq!(
        outcome,
        TickOutcome {
            started: "10:00".to_string(),
            observed: String::new(),
            changed: false,
            update_attempted: false,
            verdict: Verdict::ResolveFailed,
            detail: String::new(),
            narrative: format!("{}\nFailed to resolve public IP", HEADER),
        }
    );
    assert_eq!(engine.last_known_ip(), None);
    assert_eq!(engine.phase(), Phase::Idle);
}

#[test]
fn query_failure_ends_the_tick() {
    let mut engine = Reconciler::new("home.example.org");
    begin(&mut engine);
    engine.step(Event::Resolved("203.0.113.5".to_string()));
    let outcome = logged(engine.step(Event::QueryFailed));
    assert_eq!(
        outcome.narrative,
        format!("{}\nPublic IP has changed to: 203.0.113.5\nFailed to fetch DNS records", HEADER)
    );
    assert_eq!(outcome.verdict, Verdict::QueryFailed);
    assert_eq!(engine.phase(), Phase::Idle);
    assert_eq!(engine.last_known_ip(), Some("203.0.113.5"));
}

#[test]
fn missing_record_ends_the_tick() {
    let mut engine = Reconciler::new("home.example.org");
    begin(&mut engine);
    engine.step(Event::Resolved("203.0.113.5".to_string()));
    let outcome =
        logged(engine.step(Event::Records(vec![record("other.example.org", "203.0.113.5")])));
    assert_eq!(
        outcome.narrative,
        format!(
            "{}\nPublic IP has changed to: 203.0.113.5\nFailed to find DNS record: home.example.org",
            HEADER
        )
    );
    assert_eq!(outcome.verdict, Verdict::NotFound);
    assert!(!outcome.update_attempted);
}

#[test]
fn unanswered_update_logs_and_notifies_nothing() {
    let mut engine = up_to_update("home.example.org");
    let outcome = logged(engine.step(Event::UpdateFailed));
    assert_eq!(
        outcome.narrative,
        format!("{}\nPublic IP has changed to: 203.0.113.5\nFailed to send update request", HEADER)
    );
    assert_eq!(outcome.verdict, Verdict::UpdateFailed);
    assert!(outcome.update_attempted);
    assert_eq!(engine.phase(), Phase::Idle);
}

#[test]
fn undelivered_notification_is_logged_and_the_tick_still_ends() {
    let mut engine = up_to_update("home.example.org");
    engine.step(Event::Updated(UpdateOutcome { success: true, errors: vec![] }));
    let outcome = logged(engine.step(Event::Notified(false)));
    assert_eq!(
        outcome.narrative,
        format!(
            "{}\nPublic IP has changed to: 203.0.113.5\nDNS record updated to: 203.0.113.5\nNotification could not be delivered",
            HEADER
        )
    );
    assert_eq!(outcome.verdict, Verdict::Updated);
    assert_eq!(engine.last_known_ip(), Some("203.0.113.5"));
    assert_eq!(engine.phase(), Phase::Idle);
}

#[test]
fn events_out_of_turn_change_nothing() {
    let mut engine = Reconciler::new("home.example.org");
    assert_eq!(engine.step(Event::Resolved("203.0.113.5".to_string())), None);
    assert_eq!(engine.phase(), Phase::Idle);
    assert_eq!(engine.last_known_ip(), None);
    begin(&mut engine);
    assert_eq!(engine.step(Event::QueryFailed), None);
    assert_eq!(engine.step(Event::Notified(true)), None);
    assert_eq!(engine.step(Event::Updated(UpdateOutcome { success: true, errors: vec![] })), None);
    assert_eq!(engine.phase(), Phase::Resolving);
    assert_eq!(engine.begin_tick("10:01", "10:06"), None);
    let outcome = logged(engine.step(Event::ResolveFailed));
    assert_eq!(outcome.narrative, format!("{}\nFailed to resolve public IP", HEADER));
    assert_eq!(outcome.started, "10:00");
}

#[test]
fn success_notification_takes_a_colour_of_the_palette() {
    let palette = success_palette();
    for _ in 0..40 {
        let mut engine = up_to_update("h");
        match engine.step(Event::Updated(UpdateOutcome { success: true, errors: vec![] })) {
            Some(Action::Notify(told)) => {
                assert!(!told.is_error);
                assert!(palette.contains(&told.accent));
            }
            other => panic!("expected a notification, got {:?}", other),
        }
    }
}

#[test]
fn first_record_of_the_name_counts() {
    let mut engine = Reconciler::new("h");
    begin(&mut engine);
    engine.step(Event::Resolved("203.0.113.5".to_string()));
    let mut first = record("h", "203.0.113.1");
    first.id = "first".to_string();
    let mut second = record("h", "203.0.113.5");
    second.id = "second".to_string();
    match engine.step(Event::Records(vec![first, second])) {
        Some(Action::Update(request)) => assert_eq!(request.id, "first"),
        other => panic!("expected an update, got {:?}", other),
    }
}

#[test]
fn reconciler_keeps_its_name() {
    let engine = Reconciler::new("home.example.org");
    assert_eq!(engine.name(), "home.example.org");
    assert_eq!(engine.phase(), Phase::Idle);
}

#[test]
fn outcomes_start_empty_or_with_the_header() {
    let none = TickOutcome::none();
    assert_eq!(none.verdict, Verdict::Pending);
    assert_eq!(none.narrative, "");
    let fresh = TickOutcome::fresh("10:00", "10:05");
    assert_eq!(fresh.narrative, HEADER);
    assert_eq!(fresh.started, "10:00");
    assert_eq!(fresh.verdict, Verdict::Pending);
    assert!(!fresh.changed && !fresh.update_attempted);
}
