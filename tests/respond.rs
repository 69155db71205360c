use static_server::clock::{http_date, CivilTime};
use static_server::config::{RenderMode, ServerConfig};
use static_server::dispatch::{after_canonical, after_entries, after_kind, after_modified, after_read, start, Action, EntryKind};
use static_server::error::{IoFailure, ServerError};
use static_server::listing::DirEntryRecord;
use static_server::respond::{file_reply, is_not_modified, Response};

fn stamp_time() -> CivilTime {
    CivilTime { year: 2024, month: 3, day: 5, hour: 7, minute: 8, second: 9, weekday: 1 }
}

fn config() -> ServerConfig {
    ServerConfig::new("/srv/www".to_string(), vec![".env".to_string()], RenderMode::Styled)
}

#[test]
fn last_modified_text() {
    assert_eq!(http_date(&stamp_time()), "Tue, 05 Mar 2024 07:08:09 GMT");
    let far = CivilTime { year: 12345, month: 12, day: 31, hour: 23, minute: 59, second: 59, weekday: 6 };
    assert_eq!(http_date(&far), "Sun, 31 Dec +12345 23:59:59 GMT");
    let early = CivilTime { year: -1, month: 1, day: 1, hour: 0, minute: 0, second: 0, weekday: 4 };
    assert_eq!(http_date(&early), "Fri, 01 Jan -0001 00:00:00 GMT");
    let small = CivilTime { year: 33, month: 7, day: 9, hour: 0, minute: 1, second: 2, weekday: 2 };
    assert_eq!(http_date(&small), "Wed, 09 Jul 0033 00:01:02 GMT");
}

#[test]
fn revalidation_with_the_returned_header() {
    let t = stamp_time();
    let header = http_date(&t);
    assert!(is_not_modified(Some(header.as_str()), Some(t)));
    let mut later = t;
    later.second = 10;
    assert!(!is_not_modified(Some(header.as_str()), Some(later)));
    assert!(!is_not_modified(None, Some(t)));
    assert!(!is_not_modified(Some(header.as_str()), None));
    // The header is compared as text, not as a date.
    assert!(!is_not_modified(Some("tue, 05 Mar 2024 07:08:09 GMT"), Some(t)));
}

fn local(secs: i64) -> CivilTime {
    DirEntryRecord::with_timestamp("f".to_string(), false, 0, Some((secs, 0))).modified.unwrap()
}

#[test]
fn unchanged_file_gets_not_modified_and_changed_file_gets_body() {
    let secs: i64 = 1_700_000_000;
    let header = http_date(&local(secs));
    match after_modified("/srv/www/a.txt".to_string(), Some(header.as_str()), Some((secs, 0))) {
        Action::Reply(r) => {
            assert!(matches!(r, Response::NotModified));
            assert_eq!(r.status_code(), 304);
        }
        _ => panic!("expected not modified"),
    }
    match after_modified("/srv/www/a.txt".to_string(), Some(header.as_str()), Some((secs + 60, 0))) {
        Action::ReadFile(p) => assert_eq!(p, "/srv/www/a.txt"),
        _ => panic!("expected a full read"),
    }
    assert!(matches!(after_modified("/srv/www/a.txt".to_string(), None, Some((secs, 0))), Action::ReadFile(_)));
    assert!(matches!(after_modified("/srv/www/a.txt".to_string(), Some(header.as_str()), None), Action::ReadFile(_)));
    let r = after_read("/srv/www/a.txt", Ok((b"hello".to_vec(), secs + 60, 0)));
    assert_eq!(r.status_code(), 200);
    match r {
        Response::File(f) => {
            assert_eq!(f.body, b"hello".to_vec());
            assert_eq!(f.last_modified, http_date(&local(secs + 60)));
            assert_ne!(f.last_modified, header);
            assert_eq!(f.content_type, "text/plain");
        }
        _ => panic!("expected a file"),
    }
    assert_eq!(after_read("/srv/www/a.txt", Ok((vec![], i64::MAX, 0))).status_code(), 500);
}

#[test]
fn file_headers() {
    let f = file_reply("/srv/www/index.html", vec![1, 2, 3], &stamp_time());
    assert_eq!(f.content_type, "text/html");
    assert_eq!(f.last_modified, "Tue, 05 Mar 2024 07:08:09 GMT");
    assert_eq!(f.cache_control, "public, max-age=3600");
    assert_eq!(f.body, vec![1, 2, 3]);
    let g = file_reply("/srv/www/blob.unknownext", vec![], &stamp_time());
    assert_eq!(g.content_type, "application/octet-stream");
}

#[test]
fn local_time_fields_are_in_range() {
    let t = local(1_700_000_000);
    assert!(1 <= t.month && t.month <= 12);
    assert!(1 <= t.day && t.day <= 31);
    assert!(t.hour < 24 && t.minute < 60 && t.second < 61 && t.weekday < 7);
    assert!(t.year == 2023);
    let far = DirEntryRecord::with_timestamp("f".to_string(), false, 0, Some((i64::MAX, 0)));
    assert!(far.modified.is_none());
    assert!(DirEntryRecord::with_timestamp("f".to_string(), false, 0, None).modified.is_none());
}

#[test]
fn request_for_restricted_name_is_forbidden() {
    match start("x/.env", &config()) {
        Action::Reply(r) => assert_eq!(r.status_code(), 403),
        _ => panic!("expected a reply"),
    }
    match start("docs", &config()) {
        Action::Canonicalize(c) => assert_eq!(c, "/srv/www/docs"),
        _ => panic!("expected canonicalization"),
    }
}

#[test]
fn request_for_missing_path_is_not_found() {
    let a = after_canonical("nope", "/srv/www/nope".to_string(), Ok("/srv/www".to_string()), Err(IoFailure::NotFound));
    match a {
        Action::Reply(r) => assert_eq!(r.status_code(), 404),
        _ => panic!("expected a reply"),
    }
}

#[test]
fn request_routes_by_entry_kind() {
    assert!(matches!(after_kind("d", "/srv/www/d".to_string(), EntryKind::Directory, true), Action::ReadDirectory(_)));
    assert!(matches!(after_kind("f", "/srv/www/f".to_string(), EntryKind::File, true), Action::CheckModified(_)));
    assert!(matches!(after_kind("f", "/srv/www/f".to_string(), EntryKind::File, false), Action::ReadFile(_)));
    match after_kind("dev", "/srv/www/dev".to_string(), EntryKind::Other, false) {
        Action::Reply(Response::Failure(ServerError::NotFound(p))) => assert_eq!(p, "dev"),
        _ => panic!("expected not found"),
    }
    match after_canonical("d", "/srv/www/d".to_string(), Ok("/srv/www".to_string()), Ok("/srv/www/d".to_string())) {
        Action::Inspect(p) => assert_eq!(p, "/srv/www/d"),
        _ => panic!("expected inspection"),
    }
}

#[test]
fn directory_and_read_failures() {
    let entries = vec![DirEntryRecord::new("a".to_string(), false, 1, None)];
    let r = after_entries("", Ok(entries), &config());
    assert_eq!(r.status_code(), 200);
    assert!(matches!(r, Response::Listing(_)));
    assert_eq!(after_entries("", Err("io".to_string()), &config()).status_code(), 500);
    assert_eq!(after_read("/srv/www/a", Err("io".to_string())).status_code(), 500);
}
