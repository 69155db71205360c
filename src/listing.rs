//! Directory index pages, in the plain and the styled form.

use vstd::prelude::*;
use vstd::utf8::encode_utf8;
use crate::clock::{listing_stamp, local_time_of, push_listing_stamp, representable, CivilTime};
use crate::config::RenderMode;
use crate::order::{sort_entries, sorted_by_name};
use crate::text::{
    decimal, digit_char, pad_left, push_char, push_decimal, push_padded_decimal, push_repeated,
    push_str, repeated, chars_of, digit_of,
};

verus! {

/// What an index page shows of one directory entry.
pub struct DirEntryRecord {
    pub name: String,
    pub is_dir: bool,
    /// Length in bytes.
    pub size: u64,
    /// Last modification, where the filesystem reports one.
    pub modified: Option<CivilTime>,
}

impl DirEntryRecord {
    pub fn new(name: String, is_dir: bool, size: u64, modified: Option<CivilTime>) -> (r: Self)
        ensures
            r.name@ == name@,
            r.is_dir == is_dir,
            r.size == size,
            r.modified == modified,
    {
        DirEntryRecord { name, is_dir, size, modified }
    }

    /// An entry whose modification time, where known, is given as seconds
    /// and nanoseconds since the Unix epoch. The time is kept in local time;
    /// one that cannot be represented is shown as unknown.
    pub fn with_timestamp(name: String, is_dir: bool, size: u64, modified: Option<(i64, u32)>) -> (r: Self)
        ensures
            r.name@ == name@,
            r.is_dir == is_dir,
            r.size == size,
            modified is None ==> r.modified is None,
            modified matches Some((secs, nanos)) ==> (representable(secs, nanos) ==> r.modified is Some),
            r.modified matches Some(t) ==> t.wf(),
    {
        let local = match modified {
            Some((secs, nanos)) => local_time_of(secs, nanos),
            None => None,
        };
        DirEntryRecord { name, is_dir, size, modified: local }
    }
}

pub const KIB: u64 = 1024;
pub const MIB: u64 = 1048576;
pub const GIB: u64 = 1073741824;

/// `sz / unit` rounded to the nearest integer, halves rounded up.
pub open spec fn rounded_div(sz: nat, unit: nat) -> nat
    recommends
        unit > 0,
{
    (sz + unit / 2) / unit
}

/// The plain page's size column before alignment: bytes up to 9999, then
/// kibibytes, mebibytes or gibibytes, rounded, right-aligned in six places
/// and followed by the unit letter.
pub open spec fn plain_size(sz: nat) -> Seq<char> {
    if sz > GIB - 1 {
        pad_left(decimal(rounded_div(sz, GIB as nat)), 6, ' ').push('G')
    } else if sz > MIB - 1 {
        pad_left(decimal(rounded_div(sz, MIB as nat)), 6, ' ').push('M')
    } else if sz > 9999 {
        pad_left(decimal(rounded_div(sz, KIB as nat)), 6, ' ').push('K')
    } else {
        pad_left(decimal(sz), 6, ' ')
    }
}

/// `a / b` rounded to the nearest integer, halves rounded to even.
pub open spec fn half_even_div(a: nat, b: nat) -> nat
    recommends
        b > 0,
{
    let q = a / b;
    let r = a % b;
    if 2 * r > b || (2 * r == b && q % 2 == 1) {
        q + 1
    } else {
        q
    }
}

/// `sz / unit` with one decimal place.
pub open spec fn one_decimal(sz: nat, unit: nat) -> Seq<char> {
    let tenths = half_even_div(10 * sz, unit);
    decimal(tenths / 10) + seq!['.', digit_char(tenths % 10)]
}

/// The styled page's size column: bytes below 1024, otherwise the largest of
/// KB, MB and GB in which the size is at least 1, with one decimal place.
pub open spec fn styled_size(sz: nat) -> Seq<char> {
    if sz >= GIB {
        one_decimal(sz, GIB as nat) + " GB"@
    } else if sz >= MIB {
        one_decimal(sz, MIB as nat) + " MB"@
    } else if sz >= KIB {
        one_decimal(sz, KIB as nat) + " KB"@
    } else {
        decimal(sz) + " B"@
    }
}

/// The text shown for an entry: its name, with a `/` after a directory's.
pub open spec fn display_name(e: DirEntryRecord) -> Seq<char> {
    if e.is_dir {
        e.name@.push('/')
    } else {
        e.name@
    }
}

/// The link target of an entry below the request path (without the leading
/// `/`): the display name alone at the root, otherwise the path, a
/// separator and the display name.
pub open spec fn entry_href(path: Seq<char>, e: DirEntryRecord) -> Seq<char> {
    if path.len() == 0 {
        display_name(e)
    } else {
        path + seq!['/'] + display_name(e)
    }
}

pub open spec fn date_column(e: DirEntryRecord) -> Seq<char> {
    match e.modified {
        Some(t) => listing_stamp(t),
        None => "-"@,
    }
}

/// Spaces that bring the display name to a 50-byte column; none when the
/// name is that long already.
pub open spec fn name_padding(e: DirEntryRecord) -> nat {
    let name_bytes = encode_utf8(display_name(e)).len();
    if name_bytes < 50 {
        (50 - name_bytes) as nat
    } else {
        0
    }
}

pub open spec fn plain_size_column(e: DirEntryRecord) -> Seq<char> {
    if e.is_dir {
        "-"@
    } else {
        plain_size(e.size as nat)
    }
}

/// The plain row: link, spaces up to a 50-byte column, date, and the size
/// right-aligned in ten places.
pub open spec fn plain_row(path: Seq<char>, e: DirEntryRecord) -> Seq<char> {
    "<a href=\"/"@ + entry_href(path, e) + "\">"@ + display_name(e) + "</a>"@ + repeated(
        ' ',
        name_padding(e),
    ) + date_column(e) + seq![' '] + pad_left(plain_size_column(e), 10, ' ') + seq!['\n']
}

pub open spec fn styled_row(path: Seq<char>, e: DirEntryRecord) -> Seq<char> {
    let size: Seq<char> = if e.is_dir { "-"@ } else { styled_size(e.size as nat) };
    "<tr><td><a href=\"/"@ + entry_href(path, e) + "\">"@ + display_name(e) + "</a></td><td>"@
        + date_column(e) + "</td><td>"@ + size + "</td></tr>\n"@
}

pub open spec fn row(path: Seq<char>, e: DirEntryRecord, mode: RenderMode) -> Seq<char> {
    match mode {
        RenderMode::Plain => plain_row(path, e),
        RenderMode::Styled => styled_row(path, e),
    }
}

pub open spec fn rows(path: Seq<char>, s: Seq<DirEntryRecord>, mode: RenderMode) -> Seq<char>
    decreases s.len(),
{
    if s.len() == 0 {
        Seq::empty()
    } else {
        rows(path, s.drop_last(), mode) + row(path, s.last(), mode)
    }
}

pub open spec fn page_head(path: Seq<char>, mode: RenderMode) -> Seq<char> {
    match mode {
        RenderMode::Plain => "<html>\n<head><title>Index of /"@ + path + "</title>\n</head>\n"@
            + "<body>\n<h1>Index of /"@ + path + "</h1>\n<hr><pre><a href=\"../\">../</a>\n"@,
        RenderMode::Styled => "<html>\n<head>\n<title>Index of /"@ + path + "</title>\n"@
            + STYLE@ + "<body>\n<h1>Index of /"@ + path + "</h1>\n"@ + TABLE_HEAD@,
    }
}

pub open spec fn page_tail(mode: RenderMode) -> Seq<char> {
    match mode {
        RenderMode::Plain => "</pre><hr>\n</body>\n</html>"@,
        RenderMode::Styled => TABLE_TAIL@,
    }
}

/// The whole index page for `path` whose entries, already in order, are `s`.
pub open spec fn index_page(path: Seq<char>, s: Seq<DirEntryRecord>, mode: RenderMode) -> Seq<char> {
    page_head(path, mode) + rows(path, s, mode) + page_tail(mode)
}

pub const STYLE: &'static str = "<style>\nbody { font-family: system-ui, -apple-system, sans-serif; padding: 2em; }\ntable { border-collapse: collapse; width: 100%; }\nth, td { text-align: left; padding: 8px; }\ntr:nth-child(even) { background-color: #f2f2f2; }\nth { background-color: #4CAF50; color: white; }\na { text-decoration: none; }\na:hover { text-decoration: underline; }\n</style>\n</head>\n";

pub const TABLE_HEAD: &'static str = "<table>\n<tr><th>Name</th><th>Last Modified</th><th>Size</th></tr>\n<tr><td><a href=\"../\">../</a></td><td></td><td></td></tr>\n";

pub const TABLE_TAIL: &'static str = "</table>\n<hr>\n<p style=\"font-size: 0.8em; color: #666;\">Powered by Rust Static Server</p>\n</body>\n</html>";

fn push_right_aligned(s: &mut String, t: &str, width: usize)
    ensures
        final(s)@ == old(s)@ + pad_left(t@, width as nat, ' '),
{
    let ghost start = s@;
    let n = chars_of(t).len();
    if n < width {
        push_repeated(s, ' ', width - n);
    }
    push_str(s, t);
    assert(s@ =~= start + pad_left(t@, width as nat, ' '));
}

fn push_plain_size(s: &mut String, sz: u64)
    ensures
        final(s)@ == old(s)@ + plain_size(sz as nat),
{
    let ghost start = s@;
    let wide = sz as u128;
    if sz > GIB - 1 {
        push_padded_decimal(s, ((wide + (GIB / 2) as u128) / (GIB as u128)) as u64, 6, ' ');
        push_char(s, 'G');
    } else if sz > MIB - 1 {
        push_padded_decimal(s, ((wide + (MIB / 2) as u128) / (MIB as u128)) as u64, 6, ' ');
        push_char(s, 'M');
    } else if sz > 9999 {
        push_padded_decimal(s, ((wide + (KIB / 2) as u128) / (KIB as u128)) as u64, 6, ' ');
        push_char(s, 'K');
    } else {
        push_padded_decimal(s, sz, 6, ' ');
    }
    assert(s@ =~= start + plain_size(sz as nat));
}

fn push_one_decimal(s: &mut String, sz: u64, unit: u64)
    requires
        unit >= KIB,
    ensures
        final(s)@ == old(s)@ + one_decimal(sz as nat, unit as nat),
{
    let ghost start = s@;
    let a: u128 = (sz as u128) * 10;
    let b: u128 = unit as u128;
    let q: u128 = a / b;
    let r: u128 = a % b;
    assert(q <= a / 1024) by (nonlinear_arith)
        requires
            q == a / b,
            b >= 1024,
    ;
    let tenths: u128 = if 2 * r > b || (2 * r == b && q % 2 == 1) {
        q + 1
    } else {
        q
    };
    push_decimal(s, (tenths / 10) as u64);
    push_char(s, '.');
    push_char(s, digit_of((tenths % 10) as u64));
    assert(s@ =~= start + one_decimal(sz as nat, unit as nat));
}

fn push_styled_size(s: &mut String, sz: u64)
    ensures
        final(s)@ == old(s)@ + styled_size(sz as nat),
{
    let ghost start = s@;
    if sz >= GIB {
        push_one_decimal(s, sz, GIB);
        push_str(s, " GB");
    } else if sz >= MIB {
        push_one_decimal(s, sz, MIB);
        push_str(s, " MB");
    } else if sz >= KIB {
        push_one_decimal(s, sz, KIB);
        push_str(s, " KB");
    } else {
        push_decimal(s, sz);
        push_str(s, " B");
    }
    assert(s@ =~= start + styled_size(sz as nat));
}

/// The plain page's size text for a file of `sz` bytes, before the column
/// alignment: `500` shows as `   500`, 10000 as `    10K`.
pub fn format_plain_size(sz: u64) -> (r: String)
    ensures
        r@ == plain_size(sz as nat),
{
    let mut s = String::new();
    push_plain_size(&mut s, sz);
    s
}

/// The styled page's size text for a file of `sz` bytes, such as `1.5 KB`.
pub fn format_styled_size(sz: u64) -> (r: String)
    ensures
        r@ == styled_size(sz as nat),
{
    let mut s = String::new();
    push_styled_size(&mut s, sz);
    s
}

fn display_of(e: &DirEntryRecord) -> (r: String)
    ensures
        r@ == display_name(*e),
{
    let mut d = String::new();
    push_str(&mut d, e.name.as_str());
    if e.is_dir {
        push_char(&mut d, '/');
    }
    assert(d@ =~= display_name(*e));
    d
}

fn push_href(s: &mut String, path: &str, display: &str, e: &DirEntryRecord)
    requires
        display@ == display_name(*e),
    ensures
        final(s)@ == old(s)@ + entry_href(path@, *e),
{
    let ghost start = s@;
    let pv = chars_of(path);
    push_str(s, path);
    if pv.len() != 0 {
        push_char(s, '/');
    }
    push_str(s, display);
    assert(s@ =~= start + entry_href(path@, *e));
}

fn push_date(s: &mut String, e: &DirEntryRecord)
    ensures
        final(s)@ == old(s)@ + date_column(*e),
{
    match &e.modified {
        Some(t) => push_listing_stamp(s, t),
        None => push_str(s, "-"),
    }
}

fn push_name_padding(s: &mut String, display: &str, e: &DirEntryRecord)
    requires
        display@ == display_name(*e),
    ensures
        final(s)@ == old(s)@ + repeated(' ', name_padding(*e)),
{
    let name_bytes = display.as_bytes().len();
    let pad: usize = if name_bytes < 50 {
        50 - name_bytes
    } else {
        0
    };
    push_repeated(s, ' ', pad);
}

fn push_plain_size_column(s: &mut String, e: &DirEntryRecord)
    ensures
        final(s)@ == old(s)@ + pad_left(plain_size_column(*e), 10, ' '),
{
    let mut size = String::new();
    if e.is_dir {
        push_str(&mut size, "-");
    } else {
        push_plain_size(&mut size, e.size);
    }
    assert(size@ =~= plain_size_column(*e));
    push_right_aligned(s, size.as_str(), 10);
}

fn push_plain_row(s: &mut String, path: &str, e: &DirEntryRecord)
    ensures
        final(s)@ == old(s)@ + plain_row(path@, *e),
{
    let ghost start = s@;
    let display = display_of(e);
    push_str(s, "<a href=\"/");
    push_href(s, path, display.as_str(), e);
    push_str(s, "\">");
    push_str(s, display.as_str());
    push_str(s, "</a>");
    push_name_padding(s, display.as_str(), e);
    push_date(s, e);
    push_char(s, ' ');
    push_plain_size_column(s, e);
    push_char(s, '\n');
    assert(s@ =~= start + plain_row(path@, *e));
}

fn push_styled_row(s: &mut String, path: &str, e: &DirEntryRecord)
    ensures
        final(s)@ == old(s)@ + styled_row(path@, *e),
{
    let ghost start = s@;
    let display = display_of(e);
    push_str(s, "<tr><td><a href=\"/");
    push_href(s, path, display.as_str(), e);
    push_str(s, "\">");
    push_str(s, display.as_str());
    push_str(s, "</a></td><td>");
    push_date(s, e);
    push_str(s, "</td><td>");
    if e.is_dir {
        push_str(s, "-");
    } else {
        push_styled_size(s, e.size);
    }
    push_str(s, "</td></tr>\n");
    assert(s@ =~= start + styled_row(path@, *e));
}

fn push_row(s: &mut String, path: &str, e: &DirEntryRecord, mode: RenderMode)
    ensures
        final(s)@ == old(s)@ + row(path@, *e, mode),
{
    match mode {
        RenderMode::Plain => push_plain_row(s, path, e),
        RenderMode::Styled => push_styled_row(s, path, e),
    }
}

/// The index page for the directory at request path `path`: the entries
/// sorted by lowercase name (stable), a link to `../` first, then one row
/// per entry in the form `mode` selects.
pub fn render_listing(path: &str, entries: Vec<DirEntryRecord>, mode: RenderMode) -> (r: String)
    ensures
        r@ == index_page(path@, sorted_by_name(entries@), mode),
{
    let sorted = sort_entries(entries);
    let mut s = String::new();
    match mode {
        RenderMode::Plain => {
            push_str(&mut s, "<html>\n<head><title>Index of /");
            push_str(&mut s, path);
            push_str(&mut s, "</title>\n</head>\n");
            push_str(&mut s, "<body>\n<h1>Index of /");
            push_str(&mut s, path);
            push_str(&mut s, "</h1>\n<hr><pre><a href=\"../\">../</a>\n");
        },
        RenderMode::Styled => {
            push_str(&mut s, "<html>\n<head>\n<title>Index of /");
            push_str(&mut s, path);
            push_str(&mut s, "</title>\n");
            push_str(&mut s, STYLE);
            push_str(&mut s, "<body>\n<h1>Index of /");
            push_str(&mut s, path);
            push_str(&mut s, "</h1>\n");
            push_str(&mut s, TABLE_HEAD);
        },
    }
    let ghost head = s@;
    assert(head =~= page_head(path@, mode));
    let mut i: usize = 0;
    assert(sorted@.subrange(0, 0) =~= Seq::<DirEntryRecord>::empty());
    while i < sorted.len()
        invariant
            i <= sorted.len(),
            s@ == head + rows(path@, sorted@.subrange(0, i as int), mode),
        decreases sorted.len() - i,
    {
        push_row(&mut s, path, &sorted[i], mode);
        let ghost pre = sorted@.subrange(0, i + 1);
        assert(pre.drop_last() =~= sorted@.subrange(0, i as int));
        i = i + 1;
        assert(s@ =~= head + rows(path@, sorted@.subrange(0, i as int), mode));
    }
    assert(sorted@.subrange(0, i as int) =~= sorted@);
    match mode {
        RenderMode::Plain => push_str(&mut s, "</pre><hr>\n</body>\n</html>"),
        RenderMode::Styled => push_str(&mut s, TABLE_TAIL),
    }
    assert(s@ =~= index_page(path@, sorted_by_name(entries@), mode));
    s
}

} // verus!
