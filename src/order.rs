//! The order of an index page: names compared case-insensitively, equal keys
//! kept in enumeration order.

use vstd::prelude::*;
use crate::listing::DirEntryRecord;
use crate::text::chars_of;

verus! {

/// What `str::to_lowercase` gives for a string.
pub uninterp spec fn lowercase_of(s: Seq<char>) -> Seq<char>;

/// Relies on `str::to_lowercase`: the lowercase form of `s`, which depends on
/// its characters alone.
#[verifier::external_body]
fn to_lowercase(s: &str) -> (r: String)
    ensures
        r@ == lowercase_of(s@),
{
    s.to_lowercase()
}

/// `a` comes strictly before `b` in lexicographic order of code points, which
/// is the byte order of their UTF-8 encodings.
pub open spec fn lex_lt(a: Seq<char>, b: Seq<char>) -> bool
    decreases a.len(),
{
    if a.len() == 0 {
        b.len() > 0
    } else if b.len() == 0 {
        false
    } else if a[0] != b[0] {
        a[0] < b[0]
    } else {
        lex_lt(a.drop_first(), b.drop_first())
    }
}

/// The sort key of an entry: its name in lowercase.
pub open spec fn name_key(e: DirEntryRecord) -> Seq<char> {
    lowercase_of(e.name@)
}

/// `x` placed into `s` after every entry whose key is not greater than its own.
pub open spec fn insert_by_name(s: Seq<DirEntryRecord>, x: DirEntryRecord) -> Seq<DirEntryRecord>
    decreases s.len(),
{
    if s.len() == 0 {
        seq![x]
    } else if lex_lt(name_key(x), name_key(s[0])) {
        seq![x] + s
    } else {
        seq![s[0]] + insert_by_name(s.drop_first(), x)
    }
}

/// The stable sort of `s` by `name_key`.
pub open spec fn sorted_by_name(s: Seq<DirEntryRecord>) -> Seq<DirEntryRecord>
    decreases s.len(),
{
    if s.len() == 0 {
        s
    } else {
        insert_by_name(sorted_by_name(s.drop_last()), s.last())
    }
}

fn lex_less_from(a: &Vec<char>, b: &Vec<char>, i: usize) -> (r: bool)
    requires
        i <= a.len(),
        i <= b.len(),
    ensures
        r == lex_lt(a@.subrange(i as int, a.len() as int), b@.subrange(i as int, b.len() as int)),
    decreases a.len() - i,
{
    let ghost sa = a@.subrange(i as int, a.len() as int);
    let ghost sb = b@.subrange(i as int, b.len() as int);
    if i == a.len() {
        return i < b.len();
    }
    if i == b.len() {
        return false;
    }
    assert(sa[0] == a@[i as int] && sb[0] == b@[i as int]);
    if a[i] != b[i] {
        return a[i] < b[i];
    }
    assert(sa.drop_first() =~= a@.subrange(i + 1, a.len() as int));
    assert(sb.drop_first() =~= b@.subrange(i + 1, b.len() as int));
    lex_less_from(a, b, i + 1)
}

fn lex_less(a: &Vec<char>, b: &Vec<char>) -> (r: bool)
    ensures
        r == lex_lt(a@, b@),
{
    assert(a@.subrange(0, a.len() as int) =~= a@);
    assert(b@.subrange(0, b.len() as int) =~= b@);
    lex_less_from(a, b, 0)
}

proof fn lemma_insert_at(s: Seq<DirEntryRecord>, x: DirEntryRecord, j: int)
    requires
        0 <= j <= s.len(),
        forall|k: int| 0 <= k < j ==> !lex_lt(name_key(x), #[trigger] name_key(s[k])),
        j < s.len() ==> lex_lt(name_key(x), name_key(s[j])),
    ensures
        insert_by_name(s, x) == s.insert(j, x),
    decreases j,
{
    if j == 0 {
        assert(insert_by_name(s, x) =~= s.insert(j, x));
    } else {
        assert(!lex_lt(name_key(x), name_key(s[0])));
        let t = s.drop_first();
        assert forall|k: int| 0 <= k < j - 1 implies !lex_lt(name_key(x), #[trigger] name_key(t[k])) by {
            assert(t[k] == s[k + 1]);
        }
        if j < s.len() {
            assert(t[j - 1] == s[j]);
        }
        lemma_insert_at(t, x, j - 1);
        assert(insert_by_name(s, x) =~= s.insert(j, x));
    }
}

/// The entries in index order: ascending by lowercase name, entries with
/// equal keys in the order given.
pub fn sort_entries(entries: Vec<DirEntryRecord>) -> (r: Vec<DirEntryRecord>)
    ensures
        r@ == sorted_by_name(entries@),
{
    let ghost orig = entries@;
    let n = entries.len();
    let mut rest = entries;
    let mut out: Vec<DirEntryRecord> = Vec::new();
    let mut keys: Vec<Vec<char>> = Vec::new();
    let mut i: usize = 0;
    assert(orig.subrange(0, 0) =~= Seq::<DirEntryRecord>::empty());
    while i < n
        invariant
            n == orig.len(),
            i <= n,
            rest@ == orig.subrange(i as int, n as int),
            out@ == sorted_by_name(orig.subrange(0, i as int)),
            keys.len() == out.len(),
            forall|k: int| 0 <= k < keys.len() ==> #[trigger] keys@[k]@ == name_key(out@[k]),
        decreases n - i,
    {
        let x = rest.remove(0);
        let xk = chars_of(to_lowercase(x.name.as_str()).as_str());
        let mut j: usize = 0;
        while j < out.len() && !lex_less(&xk, &keys[j])
            invariant
                j <= out.len(),
                keys.len() == out.len(),
                xk@ == name_key(x),
                forall|k: int| 0 <= k < keys.len() ==> #[trigger] keys@[k]@ == name_key(out@[k]),
                forall|k: int| 0 <= k < j ==> !lex_lt(name_key(x), #[trigger] name_key(out@[k])),
            decreases out.len() - j,
        {
            assert(keys@[j as int]@ == name_key(out@[j as int]));
            j = j + 1;
        }
        proof {
            if j < out.len() {
                assert(keys@[j as int]@ == name_key(out@[j as int]));
            }
            lemma_insert_at(out@, x, j as int);
            let pre = orig.subrange(0, i as int + 1);
            assert(pre.drop_last() =~= orig.subrange(0, i as int));
            assert(pre.last() == x);
        }
        let ghost old_out = out@;
        let ghost old_keys = keys@;
        out.insert(j, x);
        keys.insert(j, xk);
        assert forall|k: int| 0 <= k < keys.len() implies #[trigger] keys@[k]@ == name_key(out@[k]) by {
            if k < j {
                assert(keys@[k] == old_keys[k] && out@[k] == old_out[k]);
            } else if k > j {
                assert(keys@[k] == old_keys[k - 1] && out@[k] == old_out[k - 1]);
            }
        }
        i = i + 1;
        assert(rest@ =~= orig.subrange(i as int, n as int));
    }
    assert(orig.subrange(0, n as int) =~= orig);
    out
}

/// No entry of `s` has a key strictly below that of an entry before it.
pub open spec fn name_sorted(s: Seq<DirEntryRecord>) -> bool {
    forall|i: int, j: int| 0 <= i < j < s.len() ==> !lex_lt(name_key(#[trigger] s[j]), name_key(#[trigger] s[i]))
}

proof fn lemma_lex_trichotomy(a: Seq<char>, b: Seq<char>)
    ensures
        a == b || lex_lt(a, b) || lex_lt(b, a),
        !(lex_lt(a, b) && lex_lt(b, a)),
    decreases a.len(),
{
    if a.len() > 0 && b.len() > 0 && a[0] == b[0] {
        lemma_lex_trichotomy(a.drop_first(), b.drop_first());
        if a.drop_first() == b.drop_first() {
            assert(a =~= seq![a[0]] + a.drop_first());
            assert(b =~= seq![b[0]] + b.drop_first());
        }
    } else if a.len() > 0 && b.len() > 0 {
        assert(a[0] < b[0] || b[0] < a[0]);
    } else if a.len() == 0 && b.len() == 0 {
        assert(a =~= b);
    }
}

proof fn lemma_lex_transitive(a: Seq<char>, b: Seq<char>, c: Seq<char>)
    requires
        lex_lt(a, b),
        lex_lt(b, c),
    ensures
        lex_lt(a, c),
    decreases a.len(),
{
    if a.len() > 0 && a[0] == b[0] && b[0] == c[0] {
        lemma_lex_transitive(a.drop_first(), b.drop_first(), c.drop_first());
    }
}

pub(crate) proof fn lemma_insert_sorted(s: Seq<DirEntryRecord>, x: DirEntryRecord)
    requires
        name_sorted(s),
    ensures
        name_sorted(insert_by_name(s, x)),
        insert_by_name(s, x).to_multiset() == s.to_multiset().insert(x),
        forall|i: int| 0 <= i < insert_by_name(s, x).len() ==> (#[trigger] insert_by_name(s, x)[i] == x
            || s.contains(insert_by_name(s, x)[i])),
    decreases s.len(),
{
    broadcast use vstd::seq_lib::group_to_multiset_ensures;

    let r = insert_by_name(s, x);
    if s.len() == 0 {
        assert(r =~= seq![x]);
        assert(r =~= s.push(x));
    } else if lex_lt(name_key(x), name_key(s[0])) {
        assert(r =~= s.insert(0, x));
        vstd::seq_lib::to_multiset_insert(s, 0, x);
        assert forall|i: int, j: int| 0 <= i < j < r.len() implies !lex_lt(
            name_key(#[trigger] r[j]),
            name_key(#[trigger] r[i]),
        ) by {
            if i == 0 {
                let y = s[j - 1];
                assert(r[j] == y);
                lemma_lex_trichotomy(name_key(x), name_key(s[0]));
                if j - 1 > 0 {
                    assert(!lex_lt(name_key(s[j - 1]), name_key(s[0])));
                    if lex_lt(name_key(y), name_key(x)) {
                        lemma_lex_transitive(name_key(y), name_key(x), name_key(s[0]));
                    }
                }
            } else {
                assert(r[i] == s[i - 1] && r[j] == s[j - 1]);
            }
        }
        assert forall|i: int| 0 <= i < r.len() implies (#[trigger] r[i] == x || s.contains(r[i])) by {
            if i > 0 {
                assert(r[i] == s[i - 1]);
            }
        }
    } else {
        let rest = s.drop_first();
        assert forall|i: int, j: int| 0 <= i < j < rest.len() implies !lex_lt(
            name_key(#[trigger] rest[j]),
            name_key(#[trigger] rest[i]),
        ) by {
            assert(rest[i] == s[i + 1] && rest[j] == s[j + 1]);
        }
        lemma_insert_sorted(rest, x);
        let t = insert_by_name(rest, x);
        assert(r =~= seq![s[0]] + t);
        assert forall|i: int, j: int| 0 <= i < j < r.len() implies !lex_lt(
            name_key(#[trigger] r[j]),
            name_key(#[trigger] r[i]),
        ) by {
            assert(r[j] == t[j - 1]);
            if i == 0 {
                if t[j - 1] != x {
                    let m = choose|m: int| 0 <= m < rest.len() && rest[m] == t[j - 1];
                    assert(s[m + 1] == rest[m]);
                }
            } else {
                assert(r[i] == t[i - 1]);
            }
        }
        assert forall|i: int| 0 <= i < r.len() implies (#[trigger] r[i] == x || s.contains(r[i])) by {
            if i > 0 {
                assert(r[i] == t[i - 1]);
                if t[i - 1] != x {
                    let m = choose|m: int| 0 <= m < rest.len() && rest[m] == t[i - 1];
                    assert(s[m + 1] == rest[m]);
                }
            } else {
                assert(s[0] == r[0]);
            }
        }
        vstd::seq_lib::lemma_multiset_commutative(seq![s[0]], t);
        vstd::seq_lib::lemma_multiset_commutative(seq![s[0]], rest);
        assert(s =~= seq![s[0]] + rest);
        assert(t.to_multiset() == rest.to_multiset().insert(x));
        assert(r.to_multiset() =~= s.to_multiset().insert(x));
    }
}

pub(crate) proof fn lemma_sorted_by_name(s: Seq<DirEntryRecord>)
    ensures
        name_sorted(sorted_by_name(s)),
        sorted_by_name(s).to_multiset() == s.to_multiset(),
    decreases s.len(),
{
    broadcast use vstd::seq_lib::group_to_multiset_ensures;

    if s.len() > 0 {
        lemma_sorted_by_name(s.drop_last());
        lemma_insert_sorted(sorted_by_name(s.drop_last()), s.last());
        assert(s =~= s.drop_last().push(s.last()));
    } else {
        assert(s.to_multiset() =~= vstd::multiset::Multiset::empty());
    }
}

} // verus!
