//! Listing sessions: most recently updated first, one page at a time.

use vstd::prelude::*;
use crate::models::ChatSession;

verus! {

broadcast use vstd::seq_lib::group_to_multiset_ensures;

/// Where a session goes among sessions ordered newest first: before the
/// first one updated no later than it.
pub open spec fn insert_pos(sorted: Seq<ChatSession>, x: ChatSession) -> int
    decreases sorted.len(),
{
    if sorted.len() == 0 {
        0
    } else if sorted[0].updated_at.micros <= x.updated_at.micros {
        0
    } else {
        1 + insert_pos(sorted.drop_first(), x)
    }
}

/// The sessions ordered by `updated_at`, newest first; sessions updated at
/// the same time keep their given order.
pub open spec fn by_recency(s: Seq<ChatSession>) -> Seq<ChatSession>
    decreases s.len(),
{
    if s.len() == 0 {
        Seq::empty()
    } else {
        let rest = by_recency(s.drop_first());
        rest.insert(insert_pos(rest, s[0]), s[0])
    }
}

/// Whether the sessions run from the most recently updated to the least.
pub open spec fn newest_first(s: Seq<ChatSession>) -> bool {
    forall|i: int, j: int|
        0 <= i < j < s.len() ==> s[i].updated_at.micros >= s[j].updated_at.micros
}

/// The page that starts `offset` sessions in (none when negative) and holds
/// at most `limit` of them (all when negative).
pub open spec fn page(s: Seq<ChatSession>, limit: i64, offset: i64) -> Seq<ChatSession> {
    let start: int = if offset <= 0 {
        0
    } else if offset >= s.len() {
        s.len() as int
    } else {
        offset as int
    };
    let end: int = if limit < 0 || start + limit >= s.len() {
        s.len() as int
    } else {
        start + limit
    };
    s.subrange(start, end)
}

proof fn lemma_insert_pos(r: Seq<ChatSession>, x: ChatSession)
    ensures
        0 <= insert_pos(r, x) <= r.len(),
        forall|k: int|
            0 <= k < insert_pos(r, x) ==> r[k].updated_at.micros > x.updated_at.micros,
        insert_pos(r, x) < r.len() ==> r[insert_pos(r, x)].updated_at.micros
            <= x.updated_at.micros,
    decreases r.len(),
{
    if r.len() > 0 && r[0].updated_at.micros > x.updated_at.micros {
        lemma_insert_pos(r.drop_first(), x);
        assert forall|k: int| 0 <= k < insert_pos(r, x) implies r[k].updated_at.micros
            > x.updated_at.micros by {
            if k > 0 {
                assert(r[k] == r.drop_first()[k - 1]);
            }
        }
    }
}

/// Ordering by recency gives the sessions newest first, and exactly the
/// sessions that were given, each as often as it was given.
pub proof fn lemma_by_recency(s: Seq<ChatSession>)
    ensures
        newest_first(by_recency(s)),
        by_recency(s).to_multiset() == s.to_multiset(),
    decreases s.len(),
{
    if s.len() > 0 {
        let x = s[0];
        let r = by_recency(s.drop_first());
        lemma_by_recency(s.drop_first());
        lemma_insert_pos(r, x);
        let p = insert_pos(r, x);
        let t = r.insert(p, x);
        assert forall|i: int, j: int| 0 <= i < j < t.len() implies t[i].updated_at.micros
            >= t[j].updated_at.micros by {
            if j < p {
            } else if j == p {
            } else if i < p {
                assert(t[j] == r[j - 1]);
                if p < r.len() {
                    assert(r[p].updated_at.micros <= x.updated_at.micros);
                }
            } else if i == p {
                assert(t[j] == r[j - 1]);
                assert(r[p].updated_at.micros >= r[j - 1].updated_at.micros);
            } else {
                assert(t[i] == r[i - 1]);
                assert(t[j] == r[j - 1]);
            }
        }
        assert(t.remove(p) =~= r);
        assert(s.remove(0) =~= s.drop_first());
        assert(t.to_multiset().remove(x) == r.to_multiset());
        assert(s.to_multiset().remove(x) == s.drop_first().to_multiset());
        assert(t[p] == x);
        assert(t.to_multiset().count(x) > 0);
        assert(s.to_multiset().count(x) > 0);
        assert(t.to_multiset() =~= s.to_multiset());
    }
}

/// Where `x` goes among sessions ordered newest first.
fn position_for(sorted: &Vec<ChatSession>, x: &ChatSession) -> (r: usize)
    ensures
        r == insert_pos(sorted@, *x),
{
    let n = sorted.len();
    let mut i: usize = 0;
    proof {
        assert(sorted@.subrange(0, n as int) =~= sorted@);
    }
    while i < n && sorted[i].updated_at.micros > x.updated_at.micros
        invariant
            n == sorted@.len(),
            i <= n,
            insert_pos(sorted@, *x) == i + insert_pos(sorted@.subrange(i as int, n as int), *x),
        decreases n - i,
    {
        proof {
            let sub = sorted@.subrange(i as int, n as int);
            assert(sub[0] == sorted@[i as int]);
            assert(sub.drop_first() =~= sorted@.subrange(i + 1, n as int));
        }
        i = i + 1;
    }
    proof {
        let sub = sorted@.subrange(i as int, n as int);
        if i < n {
            assert(sub[0] == sorted@[i as int]);
        }
    }
    i
}

/// The sessions ordered by `updated_at`, newest first.
pub fn order_by_recency(sessions: Vec<ChatSession>) -> (r: Vec<ChatSession>)
    ensures
        r@ == by_recency(sessions@),
{
    let ghost all = sessions@;
    let n = sessions.len();
    let mut rest = sessions;
    let mut out: Vec<ChatSession> = Vec::new();
    proof {
        assert(all.subrange(n as int, n as int) =~= Seq::<ChatSession>::empty());
        assert(all.subrange(0, n as int) =~= all);
    }
    while rest.len() > 0
        invariant
            n == all.len(),
            all == sessions@,
            rest@.len() <= n,
            rest@ == all.subrange(0, rest@.len() as int),
            out@ == by_recency(all.subrange(rest@.len() as int, n as int)),
        decreases rest@.len(),
    {
        let k = rest.len();
        let x = match rest.pop() {
            Some(x) => x,
            None => {
                return out;
            },
        };
        proof {
            let t = all.subrange(k - 1, n as int);
            assert(t[0] == x);
            assert(t.drop_first() =~= all.subrange(k as int, n as int));
            assert(rest@ =~= all.subrange(0, k - 1));
        }
        let p = position_for(&out, &x);
        proof {
            lemma_insert_pos(out@, x);
        }
        out.insert(p, x);
    }
    out
}

/// One page of the sessions, newest first: `limit` defaults to 50 and
/// `offset` to 0.
pub fn sessions_page(sessions: Vec<ChatSession>, limit: Option<i64>, offset: Option<i64>) -> (r:
    Vec<ChatSession>)
    ensures
        r@ == page(
            by_recency(sessions@),
            match limit {
                Some(l) => l,
                None => 50,
            },
            match offset {
                Some(o) => o,
                None => 0,
            },
        ),
{
    let limit: i64 = match limit {
        Some(l) => l,
        None => 50,
    };
    let offset: i64 = match offset {
        Some(o) => o,
        None => 0,
    };
    let mut ordered = order_by_recency(sessions);
    let ghost all = ordered@;
    let len = ordered.len();
    let start: usize = if offset <= 0 {
        0
    } else if offset as u64 >= len as u64 {
        len
    } else {
        offset as usize
    };
    let mut tail = ordered.split_off(start);
    let count: usize = len - start;
    if limit >= 0 && (limit as u64) < count as u64 {
        tail.truncate(limit as usize);
    }
    proof {
        assert(tail@ =~= page(all, limit, offset));
    }
    tail
}

} // verus!
