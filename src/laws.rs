//! Properties that relate several parts of the pipeline.

use vstd::prelude::*;
use crate::clock::{http_stamp, month_abbrev, two_digits, weekday_abbrev, year_text, CivilTime};
use crate::listing::{display_name, entry_href, DirEntryRecord};
use crate::order::{lemma_sorted_by_name, name_sorted, sorted_by_name};
use crate::respond::not_modified;
use crate::text::{decimal, digit_char, pad_left, repeated};

verus! {

/// Two entries of one directory with different names, neither containing a
/// separator, are linked from the index page by different paths; so the
/// links of a page lead to each of its entries once.
pub proof fn lemma_entry_links_distinct(path: Seq<char>, e1: DirEntryRecord, e2: DirEntryRecord)
    requires
        e1.name@ != e2.name@,
        !e1.name@.contains('/'),
        !e2.name@.contains('/'),
    ensures
        entry_href(path, e1) != entry_href(path, e2),
{
    let pre: Seq<char> = if path.len() == 0 {
        Seq::empty()
    } else {
        path + seq!['/']
    };
    assert(entry_href(path, e1) =~= pre + display_name(e1));
    assert(entry_href(path, e2) =~= pre + display_name(e2));
    if entry_href(path, e1) == entry_href(path, e2) {
        let n = pre.len() as int;
        let h = entry_href(path, e1);
        assert(display_name(e1) =~= h.subrange(n, h.len() as int));
        assert(display_name(e2) =~= entry_href(path, e2).subrange(n, h.len() as int));
        let d = display_name(e1);
        if e1.is_dir && e2.is_dir {
            assert(e1.name@ =~= d.drop_last());
            assert(e2.name@ =~= d.drop_last());
        } else if e1.is_dir {
            assert(e2.name@[e2.name@.len() - 1] == '/');
        } else if e2.is_dir {
            assert(e1.name@[e1.name@.len() - 1] == '/');
        }
    }
}

/// The rows of an index page hold exactly the directory's entries, in
/// ascending order of lowercase name: no entry has a key below that of an
/// entry listed before it.
pub proof fn lemma_listing_order(entries: Seq<DirEntryRecord>)
    ensures
        name_sorted(sorted_by_name(entries)),
        sorted_by_name(entries).to_multiset() == entries.to_multiset(),
{
    lemma_sorted_by_name(entries);
}

proof fn lemma_decimal_shape(n: nat)
    ensures
        decimal(n).len() >= 1,
        48 <= decimal(n)[0] as u32 <= 57,
        n > 0 ==> decimal(n)[0] != '0',
        n >= 10 ==> decimal(n).len() >= 2,
    decreases n,
{
    if n >= 10 {
        lemma_decimal_shape(n / 10);
        assert(decimal(n)[0] == decimal(n / 10)[0]);
    }
}

proof fn lemma_decimal_injective(a: nat, b: nat)
    requires
        decimal(a) == decimal(b),
    ensures
        a == b,
    decreases a,
{
    lemma_decimal_shape(a);
    lemma_decimal_shape(b);
    if a >= 10 && b >= 10 {
        assert(decimal(a).drop_last() =~= decimal(a / 10));
        assert(decimal(b).drop_last() =~= decimal(b / 10));
        assert(decimal(a).last() == digit_char(a % 10));
        assert(decimal(b).last() == digit_char(b % 10));
        lemma_decimal_injective(a / 10, b / 10);
    }
}

proof fn lemma_padded_zero_at(da: Seq<char>, db: Seq<char>, w: nat)
    requires
        1 <= da.len() < db.len(),
        pad_left(da, w, '0') == pad_left(db, w, '0'),
    ensures
        db[0] == '0',
{
    let pa = pad_left(da, w, '0');
    let pb = pad_left(db, w, '0');
    assert(da.len() < w) by {
        if da.len() >= w {
            assert(pa.len() == da.len());
        }
    }
    assert(pa =~= repeated('0', (w - da.len()) as nat) + da);
    assert(db.len() <= w);
    let j = (w - db.len()) as int;
    if db.len() < w {
        assert(pb =~= repeated('0', (w - db.len()) as nat) + db);
    }
    assert(pb[j] == db[0]);
    assert(pa[j] == '0');
}

proof fn lemma_padded_injective(a: nat, b: nat, w: nat)
    requires
        pad_left(decimal(a), w, '0') == pad_left(decimal(b), w, '0'),
    ensures
        a == b,
{
    lemma_decimal_shape(a);
    lemma_decimal_shape(b);
    let da = decimal(a);
    let db = decimal(b);
    let pa = pad_left(da, w, '0');
    let pb = pad_left(db, w, '0');
    if da.len() < db.len() {
        // The shorter one is padded; where the longer one starts, it shows a zero.
        lemma_padded_zero_at(da, db, w);
    } else if db.len() < da.len() {
        lemma_padded_zero_at(db, da, w);
    } else {
        let k = (pa.len() - da.len()) as int;
        assert(da =~= pa.subrange(k, pa.len() as int));
        assert(db =~= pad_left(db, w, '0').subrange(k, pa.len() as int));
        lemma_decimal_injective(a, b);
    }
}

proof fn lemma_two_digits_len(n: u8)
    ensures
        two_digits(n).len() == 2 || n >= 100,
{
    lemma_decimal_shape(n as nat);
    if 10 <= n < 100 {
        assert(decimal(n as nat) =~= decimal((n / 10) as nat).push(digit_char((n % 10) as nat)));
    }
}

proof fn lemma_year_text_injective(y1: i32, y2: i32)
    requires
        year_text(y1) == year_text(y2),
    ensures
        y1 == y2,
{
    let t = year_text(y1);
    lemma_decimal_shape(y1 as nat);
    lemma_decimal_shape(y2 as nat);
    lemma_decimal_shape((-y1) as nat);
    lemma_decimal_shape((-y2) as nat);
    if 0 <= y1 <= 9999 {
        assert(48 <= t[0] as u32 <= 57);
    } else {
        assert(t[0] == '+' || t[0] == '-');
    }
    if 0 <= y2 <= 9999 {
        assert(48 <= year_text(y2)[0] as u32 <= 57);
    } else {
        assert(year_text(y2)[0] == '+' || year_text(y2)[0] == '-');
    }
    if 0 <= y1 <= 9999 {
        lemma_padded_injective(y1 as nat, y2 as nat, 4);
    } else if y1 > 9999 {
        assert(decimal(y1 as nat) =~= t.drop_first());
        assert(decimal(y2 as nat) =~= year_text(y2).drop_first());
        lemma_decimal_injective(y1 as nat, y2 as nat);
    } else {
        assert(pad_left(decimal((-y1) as nat), 4, '0') =~= t.drop_first());
        assert(pad_left(decimal((-y2) as nat), 4, '0') =~= year_text(y2).drop_first());
        lemma_padded_injective((-y1) as nat, (-y2) as nat, 4);
    }
}

proof fn lemma_names_injective(t1: CivilTime, t2: CivilTime)
    requires
        t1.wf(),
        t2.wf(),
    ensures
        weekday_abbrev(t1.weekday).len() == 3,
        month_abbrev(t1.month).len() == 3,
        weekday_abbrev(t1.weekday) == weekday_abbrev(t2.weekday) ==> t1.weekday == t2.weekday,
        month_abbrev(t1.month) == month_abbrev(t2.month) ==> t1.month == t2.month,
{
    reveal_strlit("Mon");
    reveal_strlit("Tue");
    reveal_strlit("Wed");
    reveal_strlit("Thu");
    reveal_strlit("Fri");
    reveal_strlit("Sat");
    reveal_strlit("Sun");
    reveal_strlit("Jan");
    reveal_strlit("Feb");
    reveal_strlit("Mar");
    reveal_strlit("Apr");
    reveal_strlit("May");
    reveal_strlit("Jun");
    reveal_strlit("Jul");
    reveal_strlit("Aug");
    reveal_strlit("Sep");
    reveal_strlit("Oct");
    reveal_strlit("Nov");
    reveal_strlit("Dec");
    let w1 = weekday_abbrev(t1.weekday);
    let w2 = weekday_abbrev(t2.weekday);
    if w1 == w2 {
        assert(w1[0] == w2[0] && w1[1] == w2[1]);
    }
    let m1 = month_abbrev(t1.month);
    let m2 = month_abbrev(t2.month);
    if m1 == m2 {
        assert(m1[0] == m2[0] && m1[1] == m2[1] && m1[2] == m2[2]);
    }
}

/// Different times give different `Last-Modified` texts.
proof fn lemma_http_stamp_injective(t1: CivilTime, t2: CivilTime)
    requires
        t1.wf(),
        t2.wf(),
        http_stamp(t1) == http_stamp(t2),
    ensures
        t1 == t2,
{
    reveal_strlit(", ");
    reveal_strlit(" GMT");
    lemma_names_injective(t1, t2);
    lemma_names_injective(t2, t1);
    lemma_two_digits_len(t1.day);
    lemma_two_digits_len(t2.day);
    lemma_two_digits_len(t1.hour);
    lemma_two_digits_len(t2.hour);
    lemma_two_digits_len(t1.minute);
    lemma_two_digits_len(t2.minute);
    lemma_two_digits_len(t1.second);
    lemma_two_digits_len(t2.second);
    let s = http_stamp(t1);
    let head1 = weekday_abbrev(t1.weekday) + ", "@ + two_digits(t1.day) + seq![' '] + month_abbrev(
        t1.month,
    ) + seq![' '];
    let head2 = weekday_abbrev(t2.weekday) + ", "@ + two_digits(t2.day) + seq![' '] + month_abbrev(
        t2.month,
    ) + seq![' '];
    let tail1 = seq![' '] + two_digits(t1.hour) + seq![':'] + two_digits(t1.minute) + seq![':']
        + two_digits(t1.second) + " GMT"@;
    let tail2 = seq![' '] + two_digits(t2.hour) + seq![':'] + two_digits(t2.minute) + seq![':']
        + two_digits(t2.second) + " GMT"@;
    assert(s =~= head1 + year_text(t1.year) + tail1);
    assert(s =~= head2 + year_text(t2.year) + tail2);
    assert(head1.len() == 12 && head2.len() == 12);
    assert(tail1.len() == 13 && tail2.len() == 13);
    let n = s.len() as int;
    assert(head1 =~= s.subrange(0, 12));
    assert(head2 =~= s.subrange(0, 12));
    assert(tail1 =~= s.subrange(n - 13, n));
    assert(tail2 =~= s.subrange(n - 13, n));
    assert(year_text(t1.year) =~= s.subrange(12, n - 13));
    assert(year_text(t2.year) =~= s.subrange(12, n - 13));
    lemma_year_text_injective(t1.year, t2.year);
    assert(weekday_abbrev(t1.weekday) =~= head1.subrange(0, 3));
    assert(weekday_abbrev(t2.weekday) =~= head2.subrange(0, 3));
    assert(two_digits(t1.day) =~= head1.subrange(5, 7));
    assert(two_digits(t2.day) =~= head2.subrange(5, 7));
    assert(month_abbrev(t1.month) =~= head1.subrange(8, 11));
    assert(month_abbrev(t2.month) =~= head2.subrange(8, 11));
    assert(two_digits(t1.hour) =~= tail1.subrange(1, 3));
    assert(two_digits(t2.hour) =~= tail2.subrange(1, 3));
    assert(two_digits(t1.minute) =~= tail1.subrange(4, 6));
    assert(two_digits(t2.minute) =~= tail2.subrange(4, 6));
    assert(two_digits(t1.second) =~= tail1.subrange(7, 9));
    assert(two_digits(t2.second) =~= tail2.subrange(7, 9));
    lemma_padded_injective(t1.day as nat, t2.day as nat, 2);
    lemma_padded_injective(t1.hour as nat, t2.hour as nat, 2);
    lemma_padded_injective(t1.minute as nat, t2.minute as nat, 2);
    lemma_padded_injective(t1.second as nat, t2.second as nat, 2);
}

/// A client that sends back as `If-Modified-Since` the `Last-Modified` text
/// it was given for a file gets "not modified" while the file's modification
/// time is unchanged, and the full file once that time has changed.
pub proof fn lemma_revalidation(before: CivilTime, now: CivilTime)
    requires
        before.wf(),
        now.wf(),
    ensures
        not_modified(Some(http_stamp(before)), Some(before)),
        not_modified(Some(http_stamp(before)), Some(now)) <==> before == now,
{
    if http_stamp(before) == http_stamp(now) {
        lemma_http_stamp_injective(before, now);
    }
}

} // verus!
