use skysync::clock::{next_run, schedule_at, schedule_now, Schedule};
use skysync::config::{Config, ConfigError};
use skysync::notify::{
    accent_for, notification_author, notification_for, notification_title, notify_update,
    pick_accent, success_palette, Accent,
};
use skysync::provider::{
    find_record, records_uri, update_request, update_uri, DnsRecord, DnsType, UpdateOutcome,
    UPDATE_TTL,
};
use skysync::text::{blank, digit, normalize_ip, parse_seconds};

fn named(name: &str, id: &str) -> DnsRecord {
    DnsRecord {
        id: id.to_string(),
        name: name.to_string(),
        record_type: "A".to_string(),
        content: "192.0.2.1".to_string(),
        ttl: 300,
        proxied: false,
    }
}

#[test]
fn normalize_strips_the_trailing_line_feed() {
    assert_eq!(normalize_ip("203.0.113.5\n"), "203.0.113.5");
}

#[test]
fn normalize_strips_blanks_on_both_sides_only() {
    assert_eq!(normalize_ip(" \t203.0.113.5\r\n"), "203.0.113.5");
    assert_eq!(normalize_ip("203.0 .113.5"), "203.0 .113.5");
    assert_eq!(normalize_ip("203.0.113.5"), "203.0.113.5");
    assert_eq!(normalize_ip("\x0c1\x0c"), "1");
}

#[test]
fn normalize_of_blanks_is_empty() {
    assert_eq!(normalize_ip(""), "");
    assert_eq!(normalize_ip("\n"), "");
    assert_eq!(normalize_ip(" \n\t \r"), "");
}

#[test]
fn normalize_keeps_other_characters() {
    assert_eq!(normalize_ip("\né à\n"), "é à");
    assert_eq!(normalize_ip("\u{a0}1\u{a0}"), "\u{a0}1\u{a0}");
}

#[test]
fn blank_and_digit_tell_characters_apart() {
    for c in [' ', '\t', '\n', '\r', '\x0c'] {
        assert!(blank(c));
    }
    for c in ['\x0b', 'a', '0', '\u{a0}'] {
        assert!(!blank(c));
    }
    for c in ['0', '5', '9'] {
        assert!(digit(c));
    }
    for c in ['/', ':', 'a', '٣'] {
        assert!(!digit(c));
    }
}

#[test]
fn parse_seconds_reads_numerals() {
    assert_eq!(parse_seconds("300"), Some(300));
    assert_eq!(parse_seconds("+300"), Some(300));
    assert_eq!(parse_seconds("0"), Some(0));
    assert_eq!(parse_seconds("007"), Some(7));
    assert_eq!(parse_seconds("18446744073709551615"), Some(u64::MAX));
}

#[test]
fn parse_seconds_refuses_everything_else() {
    for text in ["", "+", "-5", "++5", "5+", "3 00", " 300", "300\n", "3e2", "12a", "٣", "1.5"] {
        assert_eq!(parse_seconds(text), None, "{:?}", text);
    }
    assert_eq!(parse_seconds("18446744073709551616"), None);
    assert_eq!(parse_seconds("99999999999999999999999"), None);
}

#[test]
fn parse_seconds_agrees_with_the_standard_reading() {
    for text in ["1", "+1", "", "+", "0000", "18446744073709551615", "18446744073709551616", "x"] {
        assert_eq!(parse_seconds(text), text.parse::<u64>().ok(), "{:?}", text);
    }
}

#[test]
fn settings_with_interval_and_name_pass() {
    assert_eq!(
        Config::from_settings(Some("300"), Some("home.example.org")),
        Ok(Config { interval: 300, name: "home.example.org".to_string() })
    );
}

#[test]
fn settings_fail_with_the_first_fault() {
    assert_eq!(Config::from_settings(None, Some("h")), Err(ConfigError::MissingInterval));
    assert_eq!(Config::from_settings(None, None), Err(ConfigError::MissingInterval));
    assert_eq!(Config::from_settings(Some("5m"), Some("h")), Err(ConfigError::MalformedInterval));
    assert_eq!(Config::from_settings(Some("5m"), None), Err(ConfigError::MalformedInterval));
    assert_eq!(Config::from_settings(Some("0"), Some("h")), Err(ConfigError::ZeroInterval));
    assert_eq!(Config::from_settings(Some("300"), None), Err(ConfigError::MissingName));
}

#[test]
fn config_errors_have_their_messages() {
    assert_eq!(ConfigError::MissingInterval.message(), "Expected a cron interval in the environment");
    assert_eq!(ConfigError::MalformedInterval.message(), "Failed to parse cron interval");
    assert_eq!(ConfigError::ZeroInterval.message(), "Expected a cron interval of one second or more");
    assert_eq!(ConfigError::MissingName.message(), "Expected a DNS name in the environment");
}

#[test]
fn next_run_adds_the_interval() {
    assert_eq!(next_run(1_700_000_000, 300), 1_700_000_300);
    assert_eq!(next_run(-10, 4), -6);
    assert_eq!(next_run(0, 0), 0);
    assert_eq!(next_run(i64::MIN, u64::MAX), i64::MAX);
    assert_eq!(next_run(-1, i64::MAX as u64 + 1), i64::MAX);
}

#[test]
fn next_run_stops_at_the_last_instant() {
    assert_eq!(next_run(i64::MAX, 1), i64::MAX);
    assert_eq!(next_run(i64::MAX - 5, 5), i64::MAX);
    assert_eq!(next_run(i64::MAX - 5, 6), i64::MAX);
    assert_eq!(next_run(0, u64::MAX), i64::MAX);
    assert_eq!(next_run(1, i64::MAX as u64), i64::MAX);
}

#[test]
fn schedule_pairs_start_and_next() {
    assert_eq!(schedule_at(100, 300), Schedule { started: 100, next: 400 });
    let now = schedule_now(300);
    assert_eq!(now.next, next_run(now.started, 300));
}

#[test]
fn dns_types_have_the_providers_names() {
    assert_eq!(DnsType::A.name(), "A");
    assert_eq!(DnsType::AAAA.name(), "AAAA");
    assert_eq!(DnsType::CNAME.name(), "CNAME");
    assert_eq!(DnsType::HTTPS.name(), "HTTPS");
    assert_eq!(DnsType::TXT.name(), "TXT");
    assert_eq!(DnsType::SRV.name(), "SRV");
}

#[test]
fn records_uri_names_zone_and_kind() {
    assert_eq!(
        records_uri("z1", Some(DnsType::A)),
        "https://api.cloudflare.com/client/v4/zones/z1/dns_records?type=A"
    );
    assert_eq!(
        records_uri("z1", None),
        "https://api.cloudflare.com/client/v4/zones/z1/dns_records?type="
    );
}

#[test]
fn update_uri_names_zone_and_record() {
    assert_eq!(
        update_uri("z1", "r9"),
        "https://api.cloudflare.com/client/v4/zones/z1/dns_records/r9"
    );
}

#[test]
fn find_record_takes_the_first_of_the_name() {
    let listed = vec![named("a", "1"), named("b", "2"), named("b", "3")];
    assert_eq!(find_record(&listed, "b").map(|r| r.id.as_str()), Some("2"));
    assert_eq!(find_record(&listed, "a").map(|r| r.id.as_str()), Some("1"));
    assert_eq!(find_record(&listed, "c"), None);
    assert_eq!(find_record(&listed, "B"), None);
    assert_eq!(find_record(&Vec::new(), "a"), None);
}

#[test]
fn update_request_is_an_unproxied_address_record() {
    let request = update_request(&named("old.example.org", "r9"), "home.example.org", "192.168.15.112");
    assert_eq!(request.id, "r9");
    assert_eq!(request.record_type, DnsType::A);
    assert_eq!(request.name, "home.example.org");
    assert_eq!(request.content, "192.168.15.112");
    assert_eq!(request.ttl, 1);
    assert_eq!(UPDATE_TTL, 1);
    assert!(!request.proxied);
}

#[test]
fn first_error_is_the_first_reported() {
    let refused = UpdateOutcome { success: false, errors: vec!["a".to_string(), "b".to_string()] };
    assert_eq!(refused.first_error(), "a");
    assert_eq!(UpdateOutcome { success: false, errors: vec![] }.first_error(), "");
}

#[test]
fn accent_is_red_for_errors_whatever_was_drawn() {
    assert_eq!(accent_for(true, Some(Accent::Kerbal)), Accent::Red);
    assert_eq!(accent_for(true, None), Accent::Red);
    assert_eq!(accent_for(false, Some(Accent::Kerbal)), Accent::Kerbal);
    assert_eq!(accent_for(false, None), Accent::BlitzBlue);
    assert_eq!(pick_accent(true), Accent::Red);
}

#[test]
fn drawn_accent_is_of_the_palette() {
    let palette = success_palette();
    assert_eq!(
        palette,
        vec![Accent::BlitzBlue, Accent::DarkPurple, Accent::Fooyoo, Accent::Red, Accent::Kerbal]
    );
    let mut seen = Vec::new();
    for _ in 0..400 {
        let drawn = pick_accent(false);
        assert!(palette.contains(&drawn));
        if !seen.contains(&drawn) {
            seen.push(drawn);
        }
    }
    assert!(seen.len() > 1);
}

#[test]
fn notification_of_success() {
    let told = notification_for("h", &UpdateOutcome { success: true, errors: vec!["x".to_string()] }, Some(Accent::Fooyoo));
    assert_eq!(told.body, "O IP público do domínio h foi atualizado com sucesso!");
    assert!(!told.is_error);
    assert_eq!(told.accent, Accent::Fooyoo);
}

#[test]
fn notification_of_failure_quotes_the_first_error() {
    let refused = UpdateOutcome { success: false, errors: vec!["rate limited".to_string()] };
    let told = notification_for("h", &refused, Some(Accent::Fooyoo));
    assert_eq!(told.body, "Falha ao atualizar o IP público do domínio h!\n\n```rate limited```");
    assert!(told.is_error);
    assert_eq!(told.accent, Accent::Red);
    let again = notify_update("h", &refused);
    assert_eq!(again, told);
}

#[test]
fn notification_heading() {
    assert_eq!(notification_title(), "**New Call! - Webhook**");
    assert_eq!(notification_author(), "SkySync - Webhook");
}
