use calmerge::fetch::{parse_feed, FetchError, Gathering};
use icalendar::{Calendar, Component};

const FOLDED: &str = "BEGIN:VCALENDAR\r\nVERSION:2.0\r\nBEGIN:VEVENT\r\nUID:1\r\nSUMMARY:Lu\r\n nch\r\nEND:VEVENT\r\nEND:VCALENDAR\r\n";

fn titles(cal: &Calendar) -> Vec<String> {
    cal.events().filter_map(|e| e.get_summary().map(str::to_string)).collect()
}

#[test]
fn parse_feed_unfolds_and_labels() {
    let cal = parse_feed(FOLDED, "A").unwrap();
    assert_eq!(cal.get_name(), Some("A"));
    assert_eq!(titles(&cal), vec!["Lunch".to_string()]);
}

#[test]
fn parse_feed_rejects_non_calendar_text() {
    assert_eq!(parse_feed("BEGIN:", "A").err(), Some(FetchError::Parse));
}

#[test]
fn gathering_collects_every_source_in_order() {
    let mut g = Gathering::new(2);
    assert_eq!(g.next(), Some(0));
    g.record("A", Some(FOLDED.to_string()));
    assert_eq!(g.next(), Some(1));
    g.record("B", Some(FOLDED.replace("Lu\r\n nch", "Call")));
    assert_eq!(g.next(), None);
    let cals = g.finish().unwrap();
    assert_eq!(cals.len(), 2);
    assert_eq!(cals[0].get_name(), Some("A"));
    assert_eq!(titles(&cals[1]), vec!["Call".to_string()]);
}

#[test]
fn gathering_stops_at_first_upstream_failure() {
    let mut g = Gathering::new(3);
    g.record("A", Some(FOLDED.to_string()));
    g.record("B", None);
    assert_eq!(g.next(), None);
    assert_eq!(g.finish().err(), Some(FetchError::Upstream));
}

#[test]
fn gathering_stops_at_first_parse_failure() {
    let mut g = Gathering::new(2);
    g.record("A", Some("BEGIN:".to_string()));
    assert_eq!(g.next(), None);
    assert_eq!(g.finish().err(), Some(FetchError::Parse));
}

#[test]
fn gathering_no_sources_is_empty_success() {
    let g = Gathering::new(0);
    assert_eq!(g.next(), None);
    assert!(g.finish().unwrap().is_empty());
}
