//! Ordering of messages: lexicographic comparison of dates and a stable sort.
use vstd::prelude::*;
use crate::message::{Message, MessageView, views};

verus! {

/// Lexicographic order on texts, comparing characters by their code point.
pub open spec fn text_le(a: Seq<char>, b: Seq<char>) -> bool
    decreases a.len(),
{
    if a.len() == 0 {
        true
    } else if b.len() == 0 {
        false
    } else if a[0] != b[0] {
        (a[0] as int) < (b[0] as int)
    } else {
        text_le(a.drop_first(), b.drop_first())
    }
}

/// Of two texts, one comes no later than the other.
pub proof fn lemma_text_le_total(a: Seq<char>, b: Seq<char>)
    ensures
        text_le(a, b) || text_le(b, a),
    decreases a.len(),
{
    if a.len() > 0 && b.len() > 0 {
        if a[0] == b[0] {
            lemma_text_le_total(a.drop_first(), b.drop_first());
        } else {
            assert((a[0] as int) != (b[0] as int));
        }
    }
}

/// The order on texts is transitive.
pub proof fn lemma_text_le_trans(a: Seq<char>, b: Seq<char>, c: Seq<char>)
    requires
        text_le(a, b),
        text_le(b, c),
    ensures
        text_le(a, c),
    decreases a.len(),
{
    if a.len() > 0 && b.len() > 0 && c.len() > 0 && a[0] == b[0] && b[0] == c[0] {
        lemma_text_le_trans(a.drop_first(), b.drop_first(), c.drop_first());
    }
}

/// Whether `a` comes no later than `b` in lexicographic order.
pub fn text_less_eq(a: &str, b: &str) -> (r: bool)
    ensures
        r == text_le(a@, b@),
{
    let n = a.unicode_len();
    let m = b.unicode_len();
    let mut i: usize = 0;
    assert(a@.subrange(0, n as int) =~= a@);
    assert(b@.subrange(0, m as int) =~= b@);
    while i < n && i < m
        invariant
            n == a@.len(),
            m == b@.len(),
            i <= n,
            i <= m,
            a@.subrange(0, i as int) == b@.subrange(0, i as int),
            text_le(a@, b@) == text_le(a@.subrange(i as int, n as int), b@.subrange(i as int, m as int)),
        decreases n - i,
    {
        let x = a.get_char(i);
        let y = b.get_char(i);
        if x != y {
            return (x as u32) < (y as u32);
        }
        assert(a@.subrange(i as int, n as int).drop_first() =~= a@.subrange(i + 1, n as int));
        assert(b@.subrange(i as int, m as int).drop_first() =~= b@.subrange(i + 1, m as int));
        assert(a@.subrange(0, i + 1) =~= a@.subrange(0, i as int).push(x));
        assert(b@.subrange(0, i + 1) =~= b@.subrange(0, i as int).push(y));
        i = i + 1;
    }
    i == n
}

/// `m` placed into `s` after every element whose date is no later than its own.
pub open spec fn insert_by_date(s: Seq<MessageView>, m: MessageView) -> Seq<MessageView>
    decreases s.len(),
{
    if s.len() == 0 {
        seq![m]
    } else if text_le(s.last().date, m.date) {
        s.push(m)
    } else {
        insert_by_date(s.drop_last(), m).push(s.last())
    }
}

/// The messages ordered by date, oldest first; messages of one date keep the
/// order in which they were given.
pub open spec fn sort_by_date(s: Seq<MessageView>) -> Seq<MessageView>
    decreases s.len(),
{
    if s.len() == 0 {
        s
    } else {
        insert_by_date(sort_by_date(s.drop_last()), s.last())
    }
}

/// Every message's date is no later than the date of any message after it.
pub open spec fn ascending_by_date(s: Seq<MessageView>) -> bool {
    forall|i: int, j: int| 0 <= i < j < s.len() ==> text_le(#[trigger] s[i].date, #[trigger] s[j].date)
}

/// Holds of the messages dated `d`.
pub open spec fn dated(d: Seq<char>) -> spec_fn(MessageView) -> bool {
    |x: MessageView| x.date == d
}

proof fn lemma_insert_at(s: Seq<MessageView>, m: MessageView, j: int)
    requires
        0 <= j <= s.len(),
        forall|k: int| j <= k < s.len() ==> !text_le(#[trigger] s[k].date, m.date),
        j == 0 || text_le(s[j - 1].date, m.date),
    ensures
        insert_by_date(s, m) == s.subrange(0, j).push(m) + s.subrange(j, s.len() as int),
    decreases s.len(),
{
    if s.len() == 0 {
        assert(seq![m] =~= s.subrange(0, j).push(m) + s.subrange(j, s.len() as int));
    } else if j == s.len() {
        assert(s.push(m) =~= s.subrange(0, j).push(m) + s.subrange(j, s.len() as int));
    } else {
        let t = s.drop_last();
        assert forall|k: int| j <= k < t.len() implies !text_le(#[trigger] t[k].date, m.date) by {
            assert(t[k] == s[k]);
        }
        lemma_insert_at(t, m, j);
        assert(insert_by_date(t, m).push(s.last()) =~= s.subrange(0, j).push(m) + s.subrange(j, s.len() as int));
    }
}

proof fn lemma_insert_keeps_order(s: Seq<MessageView>, m: MessageView)
    requires
        ascending_by_date(s),
    ensures
        ascending_by_date(insert_by_date(s, m)),
        insert_by_date(s, m).len() == s.len() + 1,
        forall|x: MessageView| #[trigger] insert_by_date(s, m).contains(x) ==> x == m || s.contains(x),
    decreases s.len(),
{
    let r = insert_by_date(s, m);
    if s.len() == 0 {
    } else if text_le(s.last().date, m.date) {
        assert forall|i: int, j: int| 0 <= i < j < r.len() implies text_le(#[trigger] r[i].date, #[trigger] r[j].date) by {
            if j == s.len() {
                if i < s.len() - 1 {
                    lemma_text_le_trans(s[i].date, s.last().date, m.date);
                }
            }
        }
        assert forall|x: MessageView| #[trigger] r.contains(x) implies x == m || s.contains(x) by {
            let k = choose|k: int| 0 <= k < r.len() && r[k] == x;
            if k < s.len() {
                assert(s[k] == x);
            }
        }
    } else {
        let t = s.drop_last();
        let last = s.last();
        let q = insert_by_date(t, m);
        assert(ascending_by_date(t)) by {
            assert forall|i: int, j: int| 0 <= i < j < t.len() implies text_le(#[trigger] t[i].date, #[trigger] t[j].date) by {
                assert(t[i] == s[i] && t[j] == s[j]);
            }
        }
        lemma_insert_keeps_order(t, m);
        lemma_text_le_total(last.date, m.date);
        assert forall|i: int| 0 <= i < q.len() implies text_le(#[trigger] q[i].date, last.date) by {
            assert(q.contains(q[i]));
            if q[i] != m {
                let k = choose|k: int| 0 <= k < t.len() && t[k] == q[i];
                assert(s[k] == t[k]);
            }
        }
        assert forall|i: int, j: int| 0 <= i < j < r.len() implies text_le(#[trigger] r[i].date, #[trigger] r[j].date) by {
            if j == q.len() {
                assert(r[i] == q[i]);
            } else {
                assert(r[i] == q[i] && r[j] == q[j]);
            }
        }
        assert forall|x: MessageView| #[trigger] r.contains(x) implies x == m || s.contains(x) by {
            let k = choose|k: int| 0 <= k < r.len() && r[k] == x;
            if k < q.len() {
                assert(q.contains(q[k]));
                if x != m {
                    let k2 = choose|k2: int| 0 <= k2 < t.len() && t[k2] == x;
                    assert(s[k2] == x);
                }
            } else {
                assert(s[s.len() - 1] == x);
            }
        }
    }
}

proof fn lemma_insert_filter(s: Seq<MessageView>, m: MessageView, d: Seq<char>)
    ensures
        insert_by_date(s, m).filter(dated(d)) == (if m.date == d {
            s.filter(dated(d)).push(m)
        } else {
            s.filter(dated(d))
        }),
    decreases s.len(),
{
    reveal(Seq::filter);
    let p = dated(d);
    if s.len() == 0 {
        assert(seq![m].drop_last() =~= s);
        assert(s.filter(p) =~= s);
    } else if text_le(s.last().date, m.date) {
        assert(s.push(m).drop_last() =~= s);
    } else {
        let t = s.drop_last();
        lemma_insert_filter(t, m, d);
        lemma_text_le_total(m.date, m.date);
        assert(insert_by_date(t, m).push(s.last()).drop_last() =~= insert_by_date(t, m));
    }
}

/// Sorting by date yields messages in ascending date order.
pub proof fn lemma_sort_ascending(s: Seq<MessageView>)
    ensures
        ascending_by_date(sort_by_date(s)),
        sort_by_date(s).len() == s.len(),
    decreases s.len(),
{
    if s.len() > 0 {
        lemma_sort_ascending(s.drop_last());
        lemma_insert_keeps_order(sort_by_date(s.drop_last()), s.last());
    }
}

/// Sorting by date keeps, for every date, the messages of that date in the
/// order in which they were given.
pub proof fn lemma_sort_stable(s: Seq<MessageView>, d: Seq<char>)
    ensures
        sort_by_date(s).filter(dated(d)) == s.filter(dated(d)),
    decreases s.len(),
{
    reveal(Seq::filter);
    if s.len() > 0 {
        lemma_sort_stable(s.drop_last(), d);
        lemma_insert_filter(sort_by_date(s.drop_last()), s.last(), d);
    }
}

/// The messages ordered by date, oldest first, by a stable insertion sort.
pub fn order_by_date(messages: &Vec<Message>) -> (r: Vec<Message>)
    ensures
        views(r@) == sort_by_date(views(messages@)),
{
    let n = messages.len();
    let mut out: Vec<Message> = Vec::new();
    let mut i: usize = 0;
    while i < n
        invariant
            n == messages@.len(),
            i <= n,
            views(out@) == sort_by_date(views(messages@.subrange(0, i as int))),
        decreases n - i,
    {
        let m = messages[i].duplicate();
        let ghost before = views(out@);
        let mut j: usize = out.len();
        while j > 0 && !text_less_eq(out[j - 1].date.as_str(), m.date.as_str())
            invariant
                j <= out@.len(),
                before == views(out@),
                forall|k: int| j <= k < out@.len() ==> !text_le(#[trigger] out@[k].date@, m.date@),
            decreases j,
        {
            j = j - 1;
        }
        proof {
            assert forall|k: int| j <= k < before.len() implies !text_le(#[trigger] before[k].date, m@.date) by {
                assert(before[k] == out@[k]@);
            }
            if j > 0 {
                assert(before[j - 1] == out@[j - 1]@);
            }
            lemma_insert_at(before, m@, j as int);
        }
        out.insert(j, m);
        proof {
            let pre = views(messages@.subrange(0, i as int));
            let cur = views(messages@.subrange(0, i + 1));
            assert(cur.drop_last() =~= pre);
            assert(cur.last() == messages@[i as int]@);
            assert(views(out@) =~= before.subrange(0, j as int).push(m@) + before.subrange(j as int, before.len() as int));
        }
        i = i + 1;
    }
    assert(messages@.subrange(0, n as int) =~= messages@);
    out
}

} // verus!
