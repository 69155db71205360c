use static_server::config::{RenderMode, ServerConfig};
use static_server::error::{IoFailure, ServerError};
use static_server::resolve::{conclude, contains_pattern, has_restricted, is_contained, join_path, screen};

fn config() -> ServerConfig {
    let patterns = vec![".env".to_string(), ".git".to_string(), "Cargo.toml".to_string()];
    ServerConfig::new("/srv/www".to_string(), patterns, RenderMode::Plain)
}

#[test]
fn restricted_names_are_refused_before_lookup() {
    match screen("app/.env", &config()) {
        Err(ServerError::UnsafePath(p)) => assert_eq!(p, "app/.env"),
        _ => panic!("expected an unsafe path"),
    }
    assert!(matches!(screen(".git/config", &config()), Err(ServerError::UnsafePath(_))));
}

#[test]
fn other_names_are_joined_onto_the_base() {
    match screen("docs/a.txt", &config()) {
        Ok(c) => assert_eq!(c, "/srv/www/docs/a.txt"),
        _ => panic!("expected a candidate"),
    }
    match screen("", &config()) {
        Ok(c) => assert_eq!(c, "/srv/www/"),
        _ => panic!("expected a candidate"),
    }
}

#[test]
fn join_rules() {
    assert_eq!(join_path("base", "x"), "base/x");
    assert_eq!(join_path("base/", "x"), "base/x");
    assert_eq!(join_path("", "x"), "x");
    assert_eq!(join_path("base", "/etc/passwd"), "/etc/passwd");
}

#[test]
fn substring_search() {
    assert!(contains_pattern("a/.env.local", ".env"));
    assert!(!contains_pattern("a/env", ".env"));
    assert!(contains_pattern("abc", ""));
    assert!(!contains_pattern("ab", "abc"));
    assert!(has_restricted("x/Cargo.toml", &config().restricted_files));
    assert!(!has_restricted("x/Cargo.lock", &config().restricted_files));
}

#[test]
fn containment_is_by_whole_components() {
    assert!(is_contained("/srv/www", "/srv/www"));
    assert!(is_contained("/srv/www", "/srv/www/a/b"));
    assert!(!is_contained("/srv/www", "/srv/wwwx"));
    assert!(!is_contained("/srv/www", "/srv"));
    assert!(is_contained("/", "/etc"));
}

#[test]
fn traversal_outside_the_base_is_unsafe() {
    let r = conclude(
        "../etc/passwd",
        "/srv/www/../etc/passwd".to_string(),
        Ok("/srv/www".to_string()),
        Ok("/srv/etc/passwd".to_string()),
    );
    match r {
        Err(ServerError::UnsafePath(p)) => assert_eq!(p, "../etc/passwd"),
        _ => panic!("expected an unsafe path"),
    }
}

#[test]
fn missing_entries_are_not_found() {
    let r = conclude("nope", "/srv/www/nope".to_string(), Ok("/srv/www".to_string()), Err(IoFailure::NotFound));
    match r {
        Err(e) => {
            assert_eq!(e.status_code(), 404);
            assert_eq!(e.body_html(), "<h1>找不到路徑: nope</h1>");
        }
        _ => panic!("expected not found"),
    }
}

#[test]
fn lookup_failures_are_filesystem_errors() {
    let r = conclude("a", "/srv/www/a".to_string(), Err(IoFailure::Other("denied".to_string())), Ok("/srv/www/a".to_string()));
    assert!(matches!(r, Err(ServerError::Filesystem(_))));
    let r = conclude("a", "/srv/www/a".to_string(), Ok("/srv/www".to_string()), Err(IoFailure::Other("loop".to_string())));
    match r {
        Err(e) => {
            assert_eq!(e.status_code(), 500);
            assert_eq!(e.body_html(), "<h1>伺服器內部錯誤</h1>");
        }
        _ => panic!("expected a filesystem error"),
    }
}

#[test]
fn contained_paths_resolve_to_the_joined_path() {
    let r = conclude("docs", "/srv/www/docs".to_string(), Ok("/srv/www".to_string()), Ok("/data/www/docs".to_string()));
    assert!(matches!(r, Err(ServerError::UnsafePath(_))));
    let r = conclude("link", "/srv/www/link".to_string(), Ok("/srv/www".to_string()), Ok("/srv/www/real".to_string()));
    match r {
        Ok(p) => assert_eq!(p, "/srv/www/link"),
        _ => panic!("expected the joined path"),
    }
}

#[test]
fn unsafe_paths_are_forbidden() {
    let e = ServerError::UnsafePath("x/.git".to_string());
    assert_eq!(e.status_code(), 403);
    assert_eq!(e.body_html(), "<h1>禁止訪問: x/.git</h1>");
    assert_eq!(ServerError::ServerError("bad".to_string()).status_code(), 500);
}
