use static_server::clock::CivilTime;
use static_server::config::RenderMode;
use static_server::listing::{format_plain_size, format_styled_size, render_listing, DirEntryRecord};
use static_server::order::sort_entries;

fn file(name: &str, size: u64) -> DirEntryRecord {
    DirEntryRecord::new(name.to_string(), false, size, None)
}

fn names(v: &[DirEntryRecord]) -> Vec<String> {
    v.iter().map(|e| e.name.clone()).collect()
}

#[test]
fn listing_order_ignores_case() {
    let sorted = sort_entries(vec![file("b.txt", 1), file("A.txt", 1), file("c.TXT", 1)]);
    assert_eq!(names(&sorted), vec!["A.txt", "b.txt", "c.TXT"]);
}

#[test]
fn listing_order_lowercases_before_comparing() {
    // Byte order alone would put "B" before "a".
    let sorted = sort_entries(vec![file("B", 1), file("a", 1)]);
    assert_eq!(names(&sorted), vec!["a", "B"]);
}

#[test]
fn listing_order_keeps_equal_keys_in_given_order() {
    let sorted = sort_entries(vec![file("X", 1), file("y", 1), file("x", 2)]);
    assert_eq!(names(&sorted), vec!["X", "x", "y"]);
    assert_eq!(sorted[0].size, 1);
    assert_eq!(sorted[1].size, 2);
}

#[test]
fn listing_of_empty_directory() {
    assert!(sort_entries(vec![]).is_empty());
    let page = render_listing("", vec![], RenderMode::Plain);
    assert_eq!(
        page,
        "<html>\n<head><title>Index of /</title>\n</head>\n<body>\n<h1>Index of /</h1>\n<hr><pre><a href=\"../\">../</a>\n</pre><hr>\n</body>\n</html>"
    );
}

#[test]
fn plain_sizes_round_to_units() {
    assert_eq!(format_plain_size(10_000), "    10K");
    assert_eq!(format_plain_size(500), "   500");
    assert_eq!(format_plain_size(9_999), "  9999");
    assert_eq!(format_plain_size(0), "     0");
    assert_eq!(format_plain_size(1_048_575), "  1024K");
    assert_eq!(format_plain_size(1_048_576), "     1M");
    assert_eq!(format_plain_size(1_572_864), "     2M");
    assert_eq!(format_plain_size(1_073_741_824), "     1G");
    assert_eq!(format_plain_size(u64::MAX), "17179869184G");
}

#[test]
fn styled_sizes_use_one_decimal() {
    assert_eq!(format_styled_size(500), "500 B");
    assert_eq!(format_styled_size(1023), "1023 B");
    assert_eq!(format_styled_size(1024), "1.0 KB");
    assert_eq!(format_styled_size(1_048_576), "1.0 MB");
    assert_eq!(format_styled_size(1_073_741_824), "1.0 GB");
    assert_eq!(format_styled_size(1536), "1.5 KB");
    assert_eq!(format_styled_size(10_000), "9.8 KB");
    assert_eq!(format_styled_size(1_048_577), "1.0 MB");
    assert_eq!(format_styled_size(3 * 1_073_741_824), "3.0 GB");
}

#[test]
fn plain_rows_pad_and_align() {
    let t = CivilTime { year: 2024, month: 3, day: 5, hour: 7, minute: 8, second: 9, weekday: 1 };
    let entries = vec![
        DirEntryRecord::new("docs".to_string(), true, 4096, Some(t)),
        DirEntryRecord::new("a.txt".to_string(), false, 500, None),
    ];
    let page = render_listing("sub", entries, RenderMode::Plain);
    let file_row = format!("<a href=\"/sub/a.txt\">a.txt</a>{}- {}\n", " ".repeat(45), "       500");
    let dir_row =
        format!("<a href=\"/sub/docs/\">docs/</a>{}05-Mar-2024 07:08 {}\n", " ".repeat(45), "         -");
    let expected = format!(
        "<html>\n<head><title>Index of /sub</title>\n</head>\n<body>\n<h1>Index of /sub</h1>\n<hr><pre><a href=\"../\">../</a>\n{}{}</pre><hr>\n</body>\n</html>",
        file_row, dir_row
    );
    assert_eq!(page, expected);
}

#[test]
fn plain_rows_never_pad_long_names() {
    let long = "n".repeat(60);
    let page = render_listing("", vec![file(&long, 1)], RenderMode::Plain);
    assert!(page.contains(&format!("<a href=\"/{}\">{}</a>- {}\n", long, long, "         1")));
}

#[test]
fn styled_rows_form_a_table() {
    let page = render_listing("d/", vec![file("a.bin", 1536)], RenderMode::Styled);
    assert!(page.starts_with("<html>\n<head>\n<title>Index of /d/</title>\n<style>\n"));
    assert!(page.contains("<tr><td><a href=\"../\">../</a></td><td></td><td></td></tr>\n"));
    assert!(page.contains("<tr><td><a href=\"/d//a.bin\">a.bin</a></td><td>-</td><td>1.5 KB</td></tr>\n"));
    assert!(page.ends_with("Powered by Rust Static Server</p>\n</body>\n</html>"));
}

#[test]
fn listing_links_follow_sorted_order() {
    let page = render_listing("", vec![file("b.txt", 1), file("A.txt", 1), file("c.TXT", 1)], RenderMode::Styled);
    let a = page.find("href=\"/A.txt\"").unwrap();
    let b = page.find("href=\"/b.txt\"").unwrap();
    let c = page.find("href=\"/c.TXT\"").unwrap();
    assert!(a < b && b < c);
}

#[test]
fn each_entry_gets_its_own_link() {
    let entries = vec![
        file("a", 1),
        file("A", 1),
        DirEntryRecord::new("ab".to_string(), true, 0, None),
        file("ab.txt", 1),
    ];
    let page = render_listing("top", entries, RenderMode::Plain);
    for href in ["href=\"/top/a\"", "href=\"/top/A\"", "href=\"/top/ab/\"", "href=\"/top/ab.txt\""] {
        assert_eq!(page.matches(href).count(), 1, "{}", href);
    }
    assert_eq!(page.matches("href=\"../\"").count(), 1);
}
