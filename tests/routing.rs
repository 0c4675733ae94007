use calmerge::http::{content_disposition, content_type, reply_for, route, Reply, Route};
use calmerge::registry::{_index, requested_name, CalendarMap, EntryConfig, Source, ENTRY_TTL_SECS};

fn map() -> CalendarMap {
    CalendarMap::new(vec![
        EntryConfig {
            name: "index".to_string(),
            sources: vec![Source { label: "A".to_string(), url: "http://a/cal.ics".to_string() }],
        },
        EntryConfig { name: "Work".to_string(), sources: vec![] },
    ])
}

#[test]
fn lookup_finds_names_case_sensitively() {
    let m = map();
    assert_eq!(m.len(), 2);
    assert_eq!(m.lookup("index"), Some(0));
    assert_eq!(m.lookup("Work"), Some(1));
    assert_eq!(m.lookup("work"), None);
    assert_eq!(m.name_at(1), "Work");
    assert_eq!(m.sources_at(0)[0].url, "http://a/cal.ics");
    assert_eq!(m.sources_at(0)[0].label, "A");
}

#[test]
fn registry_policy_is_one_hour() {
    let p = map().policy();
    assert_eq!(ENTRY_TTL_SECS, 3600);
    assert_eq!(p.success_ttl, 3600);
    assert_eq!(p.failure_ttl, 3600);
}

#[test]
fn default_name_is_index() {
    assert_eq!(_index(), "index");
    assert_eq!(requested_name(None), "index");
    assert_eq!(requested_name(Some("Work".to_string())), "Work");
}

#[test]
fn unknown_name_is_not_found() {
    let m = map();
    assert_eq!(route(&m, "missing"), Route::NotFound);
    assert_eq!(route(&m, "Work"), Route::Read(1));
    assert_eq!(Reply::NotFound.status(), 404);
    assert_eq!(Reply::NotFound.message(), "Could not find Calendar");
}

#[test]
fn cached_error_is_server_error_with_fixed_message() {
    let a: Result<u8, String> = Err("secret upstream detail".to_string());
    let b: Result<u8, String> = Err("other".to_string());
    assert_eq!(reply_for(&a), Reply::ServerError);
    assert_eq!(reply_for(&b), Reply::ServerError);
    assert_eq!(reply_for(&a).status(), 500);
    assert_eq!(reply_for(&a).message(), "Internal Server Error");
}

#[test]
fn cached_success_is_attachment() {
    let v: Result<u8, String> = Ok(1);
    assert_eq!(reply_for(&v), Reply::Attachment);
    assert_eq!(Reply::Attachment.status(), 200);
    assert_eq!(Reply::Attachment.message(), "");
    assert_eq!(content_type(), "text/calendar");
    assert_eq!(content_disposition("Work"), "attachment; filename=Work.ics");
}
