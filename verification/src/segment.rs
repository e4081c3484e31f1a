//! Single-pass month segmentation: an ordered quote sequence is split into
//! contiguous runs that share a (month, year) key. This is a boundary-change
//! detector, not a partition by key: a key that reappears later, after a
//! different key intervened, opens a fresh group rather than merging.

use vstd::prelude::*;
use crate::calendar::{get_month_and_year, month_of, year_of};
use crate::quote::{Quote, MAX_TIMESTAMP};

verus! {

/// The (month, year) grouping key of a quote, by UTC calendar conversion.
pub open spec fn quote_key(q: Quote) -> (int, int) {
    (month_of(q.timestamp), year_of(q.timestamp))
}

/// One step of the boundary detector: a quote joins the open (last) group
/// when it shares that group's key, and opens a new group otherwise.
pub open spec fn seg_step(acc: Seq<Seq<Quote>>, q: Quote) -> Seq<Seq<Quote>> {
    if acc.len() > 0 && acc.last().len() > 0 && quote_key(acc.last().last()) == quote_key(q) {
        acc.update(acc.len() - 1, acc.last().push(q))
    } else {
        acc.push(seq![q])
    }
}

/// The contiguous month runs of a quote sequence, in order.
pub open spec fn segment_spec(s: Seq<Quote>) -> Seq<Seq<Quote>>
    decreases s.len(),
{
    if s.len() == 0 {
        Seq::empty()
    } else {
        seg_step(segment_spec(s.drop_last()), s.last())
    }
}

/// The members of a sequence of groups, concatenated in order.
pub open spec fn concat_all(gs: Seq<Seq<Quote>>) -> Seq<Quote>
    decreases gs.len(),
{
    if gs.len() == 0 {
        Seq::empty()
    } else {
        concat_all(gs.drop_last()) + gs.last()
    }
}

/// Concatenating the members of all month groups, in order, reproduces the
/// input sequence exactly: no quote is dropped, duplicated or reordered.
pub proof fn lemma_segment_concat(s: Seq<Quote>)
    ensures
        concat_all(segment_spec(s)) == s,
    decreases s.len(),
{
    if s.len() == 0 {
        assert(concat_all(segment_spec(s)) =~= s);
    } else {
        let pre = segment_spec(s.drop_last());
        let q = s.last();
        lemma_segment_concat(s.drop_last());
        if pre.len() > 0 && pre.last().len() > 0 && quote_key(pre.last().last()) == quote_key(q) {
            let upd = pre.update(pre.len() - 1, pre.last().push(q));
            assert(upd.drop_last() =~= pre.drop_last());
            assert(concat_all(upd) == concat_all(pre.drop_last()) + pre.last().push(q));
            assert(concat_all(pre.drop_last()) + pre.last().push(q) =~= (concat_all(pre.drop_last())
                + pre.last()) + seq![q]);
            assert(concat_all(segment_spec(s)) =~= s);
        } else {
            let ext = pre.push(seq![q]);
            assert(ext.drop_last() =~= pre);
            assert(concat_all(segment_spec(s)) =~= s);
        }
    }
}

/// A sequence that lies entirely within one calendar month yields exactly one
/// group, holding the whole sequence.
pub proof fn lemma_segment_single_key(s: Seq<Quote>)
    requires
        s.len() > 0,
        forall|i: int, j: int|
            0 <= i < s.len() && 0 <= j < s.len() ==> quote_key(s[i]) == quote_key(s[j]),
    ensures
        segment_spec(s) == seq![s],
    decreases s.len(),
{
    if s.len() == 1 {
        assert(s.drop_last().len() == 0);
        assert(segment_spec(s.drop_last()) =~= Seq::<Seq<Quote>>::empty());
        assert(s =~= seq![s.last()]);
        assert(segment_spec(s) =~= seq![s]);
    } else {
        lemma_segment_single_key(s.drop_last());
        let pre = segment_spec(s.drop_last());
        assert(pre.last() == s.drop_last());
        assert(pre.last().last() == s[s.len() - 2]);
        assert(quote_key(s[s.len() - 2]) == quote_key(s.last()));
        assert(segment_spec(s) == pre.update(0, s.drop_last().push(s.last())));
        assert(s.drop_last().push(s.last()) =~= s);
        assert(segment_spec(s) =~= seq![s]);
    }
}

/// A non-empty run whose quotes all share the key of its first member.
pub open spec fn uniform_key(g: Seq<Quote>) -> bool {
    &&& g.len() > 0
    &&& forall|k: int| 0 <= k < g.len() ==> #[trigger] quote_key(g[k]) == quote_key(g[0])
}

/// Boundary-detector semantics: every group is a non-empty run with one key,
/// and adjacent groups carry different keys. Nothing relates non-adjacent
/// groups: a key that reappears later opens a second group with the same
/// label rather than merging.
pub proof fn lemma_segment_boundaries(s: Seq<Quote>)
    ensures
        forall|i: int|
            0 <= i < segment_spec(s).len() ==> #[trigger] uniform_key(segment_spec(s)[i]),
        forall|i: int|
            0 <= i && i + 1 < segment_spec(s).len() ==> quote_key(#[trigger] segment_spec(s)[i][0])
                != quote_key(segment_spec(s)[i + 1][0]),
    decreases s.len(),
{
    if s.len() > 0 {
        lemma_segment_boundaries(s.drop_last());
        let pre = segment_spec(s.drop_last());
        let q = s.last();
        if pre.len() > 0 && pre.last().len() > 0 && quote_key(pre.last().last()) == quote_key(q) {
            let g0 = pre.last();
            let upd = pre.update(pre.len() - 1, g0.push(q));
            assert(uniform_key(g0));
            assert(quote_key(g0[g0.len() - 1]) == quote_key(g0[0]));
            assert forall|k: int| 0 <= k < g0.push(q).len() implies #[trigger] quote_key(
                g0.push(q)[k],
            ) == quote_key(g0.push(q)[0]) by {
                if k < g0.len() {
                    assert(g0.push(q)[k] == g0[k]);
                }
            }
            assert(uniform_key(g0.push(q)));
            assert forall|i: int| 0 <= i < upd.len() implies #[trigger] uniform_key(upd[i]) by {
                if i < pre.len() - 1 {
                    assert(upd[i] == pre[i]);
                }
            }
        } else {
            let ext = pre.push(seq![q]);
            assert(uniform_key(seq![q]));
            assert forall|i: int| 0 <= i < ext.len() implies #[trigger] uniform_key(ext[i]) by {
                if i < pre.len() {
                    assert(ext[i] == pre[i]);
                }
            }
            if pre.len() > 0 {
                assert(uniform_key(pre.last()));
                assert(quote_key(pre.last()[pre.last().len() - 1]) == quote_key(pre.last()[0]));
                assert(quote_key(ext[ext.len() - 2][0]) != quote_key(ext[ext.len() - 1][0]));
            }
            assert forall|i: int|
                0 <= i && i + 1 < ext.len() implies quote_key(#[trigger] ext[i][0]) != quote_key(
                ext[i + 1][0],
            ) by {
                if i + 1 < pre.len() {
                    assert(ext[i] == pre[i]);
                    assert(ext[i + 1] == pre[i + 1]);
                }
            }
        }
    }
}

/// A contiguous run of quotes sharing one (month, year) key, labeled with
/// that key.
pub struct MonthGroup {
    pub month: u32,
    pub year: i32,
    pub members: Vec<Quote>,
}

impl MonthGroup {
    /// The group is non-empty, its label is the key of its members, and the
    /// label is a real calendar key.
    pub open spec fn wf(self) -> bool {
        &&& self.members@.len() > 0
        &&& forall|i: int|
            0 <= i < self.members@.len() ==> #[trigger] quote_key(self.members@[i]) == (
            self.month as int,
            self.year as int,
        )
        &&& 1 <= self.month <= 12
        &&& 1970 <= self.year <= 9999
    }
}

/// The member sequences of a vector of groups.
pub open spec fn groups_view(groups: Seq<MonthGroup>) -> Seq<Seq<Quote>> {
    groups.map_values(|g: MonthGroup| g.members@)
}

/// Walks the quotes once with a (month, year) cursor, starting from the
/// sentinel (0, 0) that no real date matches, and flushes a group whenever
/// the derived key changes; the last open group is flushed at the end.
pub fn segment_quotes(quotes: &Vec<Quote>) -> (groups: Vec<MonthGroup>)
    requires
        forall|i: int| 0 <= i < quotes@.len() ==> #[trigger] quotes@[i].timestamp <= MAX_TIMESTAMP,
    ensures
        groups_view(groups@) == segment_spec(quotes@),
        forall|i: int| 0 <= i < groups@.len() ==> #[trigger] groups@[i].wf(),
        quotes@.len() == 0 ==> groups@.len() == 0,
{
    let mut groups: Vec<MonthGroup> = Vec::new();
    let mut cur: Vec<Quote> = Vec::new();
    let mut cur_month: u32 = 0;
    let mut cur_year: i32 = 0;
    let n = quotes.len();
    let mut i: usize = 0;
    while i < n
        invariant
            0 <= i <= n,
            n == quotes@.len(),
            forall|k: int| 0 <= k < quotes@.len() ==> #[trigger] quotes@[k].timestamp <= MAX_TIMESTAMP,
            i == 0 ==> groups@.len() == 0 && cur@.len() == 0 && cur_month == 0,
            i > 0 ==> {
                &&& cur@.len() > 0
                &&& groups_view(groups@).push(cur@) == segment_spec(quotes@.take(i as int))
                &&& cur@.last() == quotes@[i - 1]
                &&& forall|k: int|
                    0 <= k < cur@.len() ==> #[trigger] quote_key(cur@[k]) == (
                    cur_month as int,
                    cur_year as int,
                )
                &&& 1 <= cur_month <= 12
                &&& 1970 <= cur_year <= 9999
            },
            forall|k: int| 0 <= k < groups@.len() ==> #[trigger] groups@[k].wf(),
        decreases n - i,
    {
        let q = quotes[i];
        let (m, y) = get_month_and_year(&q.timestamp);
        proof {
            assert(quotes@.take(i + 1).drop_last() =~= quotes@.take(i as int));
            assert(quotes@.take(i + 1).last() == quotes@[i as int]);
        }
        if m != cur_month || y != cur_year {
            let ghost cur0 = cur@;
            let ghost groups0 = groups@;
            let ghost pm = cur_month;
            let ghost py = cur_year;
            if cur.len() > 0 {
                let flushed = MonthGroup { month: cur_month, year: cur_year, members: cur };
                groups.push(flushed);
            }
            cur = Vec::new();
            cur.push(q);
            cur_month = m;
            cur_year = y;
            proof {
                assert(cur@ =~= seq![q]);
                if i == 0 {
                    assert(groups_view(groups@) =~= Seq::<Seq<Quote>>::empty());
                    assert(quotes@.take(i as int).len() == 0);
                    assert(segment_spec(quotes@.take(i as int)) =~= Seq::<Seq<Quote>>::empty());
                } else {
                    let acc = groups_view(groups0).push(cur0);
                    assert(acc == segment_spec(quotes@.take(i as int)));
                    assert(acc.last() == cur0);
                    assert(quote_key(cur0[cur0.len() - 1]) == (pm as int, py as int));
                    assert(quote_key(acc.last().last()) != quote_key(q));
                    assert(segment_spec(quotes@.take(i + 1)) == acc.push(seq![q]));
                    assert(groups_view(groups@) =~= acc);
                }
                assert(groups_view(groups@).push(cur@) =~= segment_spec(quotes@.take(i + 1)));
            }
        } else {
            let ghost cur0 = cur@;
            cur.push(q);
            proof {
                assert(m >= 1);
                assert(i > 0);
                let acc = groups_view(groups@).push(cur0);
                assert(acc == segment_spec(quotes@.take(i as int)));
                assert(acc.last() == cur0);
                assert(quote_key(cur0[cur0.len() - 1]) == (cur_month as int, cur_year as int));
                assert(quote_key(acc.last().last()) == quote_key(q));
                assert(segment_spec(quotes@.take(i + 1)) == acc.update(acc.len() - 1, cur0.push(q)));
                assert(acc.update(acc.len() - 1, cur0.push(q)) =~= groups_view(groups@).push(
                    cur0.push(q),
                ));
                assert(cur@ == cur0.push(q));
            }
        }
        i = i + 1;
    }
    proof {
        assert(quotes@.take(n as int) =~= quotes@);
    }
    if cur.len() > 0 {
        let flushed = MonthGroup { month: cur_month, year: cur_year, members: cur };
        groups.push(flushed);
        proof {
            assert(groups_view(groups@) =~= groups_view(groups@.drop_last()).push(
                groups@.last().members@,
            ));
        }
    }
    groups
}

} // verus!
