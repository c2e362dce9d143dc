//! Counting the points where the device is drained, by call site.

use vstd::prelude::*;

verus! {

/// A call site: a file, by a number of the caller's choice, and a line.
#[derive(Clone, Copy, PartialEq, Eq, Structural, Debug)]
pub struct Site {
    pub file: u32,
    pub line: u32,
}

/// How often a site drained the device, and how many command buffers in all.
#[derive(Clone, Copy, PartialEq, Eq, Structural, Debug)]
pub struct DrainCount {
    pub site: Site,
    pub count: u64,
    pub drained: u64,
}

/// The counts since the last report.
pub struct DrainTrace {
    pub on: bool,
    pub rows: Vec<DrainCount>,
}

/// A report: the totals, and the counts, the most frequent site first.
pub struct DrainReport {
    pub total: u64,
    pub drained: u64,
    pub rows: Vec<DrainCount>,
}

/// All drains of the rows.
pub open spec fn total_count(rows: Seq<DrainCount>) -> int
    decreases rows.len(),
{
    if rows.len() == 0 {
        0
    } else {
        total_count(rows.drop_last()) + rows.last().count
    }
}

/// All command buffers that the rows drained.
pub open spec fn total_drained(rows: Seq<DrainCount>) -> int
    decreases rows.len(),
{
    if rows.len() == 0 {
        0
    } else {
        total_drained(rows.drop_last()) + rows.last().drained
    }
}

/// The place of a site among the rows, or their number.
pub open spec fn place_of(rows: Seq<DrainCount>, site: Site) -> int
    decreases rows.len(),
{
    if rows.len() == 0 {
        0
    } else if place_of(rows.drop_last(), site) < rows.len() - 1 {
        place_of(rows.drop_last(), site)
    } else if rows.last().site == site {
        rows.len() - 1
    } else {
        rows.len() as int
    }
}

/// The rows after one more drain at `site` with `n` command buffers pending.
pub open spec fn with_drain(rows: Seq<DrainCount>, site: Site, n: int) -> Seq<DrainCount> {
    let i = place_of(rows, site);
    if i < rows.len() {
        rows.update(
            i,
            DrainCount {
                site,
                count: (rows[i].count + 1) as u64,
                drained: (rows[i].drained + n) as u64,
            },
        )
    } else {
        rows.push(DrainCount { site, count: 1, drained: n as u64 })
    }
}

/// Every site has one row.
pub open spec fn one_row_each(rows: Seq<DrainCount>) -> bool {
    forall|i: int, j: int|
        0 <= i < j < rows.len() ==> (#[trigger] rows[i]).site != (#[trigger] rows[j]).site
}

/// The most frequent site comes first.
pub open spec fn frequent_first(rows: Seq<DrainCount>) -> bool {
    forall|i: int, j: int|
        0 <= i <= j < rows.len() ==> (#[trigger] rows[i]).count >= (#[trigger] rows[j]).count
}

proof fn lemma_place(rows: Seq<DrainCount>, site: Site)
    ensures
        0 <= place_of(rows, site) <= rows.len(),
        place_of(rows, site) < rows.len() ==> rows[place_of(rows, site)].site == site,
        forall|j: int|
            0 <= j < place_of(rows, site) ==> (#[trigger] rows[j]).site != site,
    decreases rows.len(),
{
    if rows.len() > 0 {
        let init = rows.drop_last();
        lemma_place(init, site);
        assert forall|j: int| 0 <= j < place_of(rows, site) implies (#[trigger] rows[j]).site
            != site by {
            if j < init.len() {
                assert(init[j] == rows[j]);
            }
        }
    }
}

/// Where the first row of a site is known, that is its place.
proof fn lemma_place_is(rows: Seq<DrainCount>, site: Site, i: int)
    requires
        0 <= i <= rows.len(),
        i < rows.len() ==> rows[i].site == site,
        forall|j: int| 0 <= j < i ==> (#[trigger] rows[j]).site != site,
    ensures
        place_of(rows, site) == i,
{
    lemma_place(rows, site);
    let p = place_of(rows, site);
    if p < i {
        assert(rows[p].site == site);
    }
}

proof fn lemma_totals_update(rows: Seq<DrainCount>, i: int, c: DrainCount)
    requires
        0 <= i < rows.len(),
    ensures
        total_count(rows.update(i, c)) == total_count(rows) - rows[i].count + c.count,
        total_drained(rows.update(i, c)) == total_drained(rows) - rows[i].drained + c.drained,
    decreases rows.len(),
{
    let init = rows.drop_last();
    let next = rows.update(i, c);
    if i == rows.len() - 1 {
        assert(next.drop_last() =~= init);
    } else {
        assert(next.drop_last() =~= init.update(i, c));
        lemma_totals_update(init, i, c);
    }
}

/// Recording a drain counts one more, adds what was pending, and keeps one row
/// to a site.
pub proof fn law_drain_counts_once(rows: Seq<DrainCount>, site: Site, n: int)
    requires
        one_row_each(rows),
        0 <= n <= u64::MAX,
        forall|i: int|
            0 <= i < rows.len() ==> (#[trigger] rows[i]).count < u64::MAX && rows[i].drained + n
                <= u64::MAX,
    ensures
        one_row_each(with_drain(rows, site, n)),
        total_count(with_drain(rows, site, n)) == total_count(rows) + 1,
        total_drained(with_drain(rows, site, n)) == total_drained(rows) + n,
{
    lemma_place(rows, site);
    let i = place_of(rows, site);
    if i < rows.len() {
        lemma_totals_update(
            rows,
            i,
            DrainCount {
                site,
                count: (rows[i].count + 1) as u64,
                drained: (rows[i].drained + n) as u64,
            },
        );
    } else {
        let next = with_drain(rows, site, n);
        assert(next.drop_last() =~= rows);
    }
}

impl DrainTrace {
    /// Nothing counted.
    pub fn new(on: bool) -> (r: DrainTrace)
        ensures
            r.on == on,
            r.rows@ == Seq::<DrainCount>::empty(),
    {
        DrainTrace { on, rows: Vec::new() }
    }

    fn find(&self, site: Site) -> (r: usize)
        ensures
            r == place_of(self.rows@, site),
            r <= self.rows@.len(),
    {
        let mut i: usize = 0;
        while i < self.rows.len()
            invariant
                i <= self.rows@.len(),
                forall|j: int| 0 <= j < i ==> (#[trigger] self.rows@[j]).site != site,
            decreases self.rows@.len() - i,
        {
            if self.rows[i].site == site {
                proof {
                    lemma_place_is(self.rows@, site, i as int);
                }
                return i;
            }
            i = i + 1;
        }
        proof {
            lemma_place_is(self.rows@, site, i as int);
        }
        i
    }

    /// Counts a drain at `site` with `n_pending` command buffers pending.
    pub fn record(&mut self, site: Site, n_pending: u64)
        requires
            forall|i: int|
                0 <= i < old(self).rows@.len() ==> (#[trigger] old(self).rows@[i]).count < u64::MAX
                    && old(self).rows@[i].drained + n_pending <= u64::MAX,
        ensures
            final(self).on == old(self).on,
            final(self).rows@ == if old(self).on {
                with_drain(old(self).rows@, site, n_pending as int)
            } else {
                old(self).rows@
            },
    {
        if !self.on {
            return;
        }
        let i: usize = self.find(site);
        if i < self.rows.len() {
            let row: DrainCount = self.rows[i];
            self.rows.set(
                i,
                DrainCount { site, count: row.count + 1, drained: row.drained + n_pending },
            );
        } else {
            self.rows.push(DrainCount { site, count: 1, drained: n_pending });
        }
    }

    fn sorted(&self) -> (r: Vec<DrainCount>)
        ensures
            r@.to_multiset() == self.rows@.to_multiset(),
            frequent_first(r@),
    {
        let mut out: Vec<DrainCount> = Vec::new();
        let mut i: usize = 0;
        assert(self.rows@.take(0) =~= out@);
        while i < self.rows.len()
            invariant
                i <= self.rows@.len(),
                out@.to_multiset() == self.rows@.take(i as int).to_multiset(),
                frequent_first(out@),
            decreases self.rows@.len() - i,
        {
            let row: DrainCount = self.rows[i];
            let mut at: usize = 0;
            while at < out.len() && out[at].count >= row.count
                invariant
                    at <= out@.len(),
                    forall|j: int| 0 <= j < at ==> (#[trigger] out@[j]).count >= row.count,
                decreases out@.len() - at,
            {
                at = at + 1;
            }
            proof {
                let head = self.rows@.take(i as int);
                vstd::seq_lib::to_multiset_insert(out@, at as int, row);
                vstd::seq_lib::to_multiset_build(head, row);
                assert(self.rows@.take(i + 1) =~= head.push(row));
            }
            let ghost before = out@;
            out.insert(at, row);
            i = i + 1;
            assert(frequent_first(out@)) by {
                assert forall|a: int, b: int| 0 <= a <= b < out@.len() implies (#[trigger] out@[a]).count
                    >= (#[trigger] out@[b]).count by {
                    let x = if a < at {
                        a
                    } else {
                        a - 1
                    };
                    let y = if b < at {
                        b
                    } else {
                        b - 1
                    };
                    if a != at && b != at {
                        assert(before[x].count >= before[y].count);
                    } else if a == at && b != at {
                        assert(before[at as int].count >= before[y].count);
                    } else if a != at && b == at {
                        assert(before[x].count >= row.count);
                    }
                }
            }
        }
        assert(self.rows@.take(i as int) =~= self.rows@);
        out
    }

    /// The report since the last one, if there is anything to report. Counting
    /// starts again.
    pub fn dump_and_reset(&mut self) -> (r: Option<DrainReport>)
        requires
            total_count(old(self).rows@) <= u64::MAX,
            total_drained(old(self).rows@) <= u64::MAX,
        ensures
            final(self).on == old(self).on,
            !old(self).on ==> r is None && final(self).rows@ == old(self).rows@,
            old(self).on ==> final(self).rows@ == Seq::<DrainCount>::empty(),
            old(self).on ==> (r is Some <==> old(self).rows@.len() > 0),
            r matches Some(rep) ==> {
                &&& rep.total == total_count(old(self).rows@)
                &&& rep.drained == total_drained(old(self).rows@)
                &&& rep.rows@.to_multiset() == old(self).rows@.to_multiset()
                &&& frequent_first(rep.rows@)
            },
    {
        if !self.on {
            return None;
        }
        if self.rows.len() == 0 {
            assert(self.rows@ =~= Seq::<DrainCount>::empty());
            return None;
        }
        let mut total: u64 = 0;
        let mut drained: u64 = 0;
        let mut i: usize = 0;
        while i < self.rows.len()
            invariant
                i <= self.rows@.len(),
                total == total_count(self.rows@.take(i as int)),
                drained == total_drained(self.rows@.take(i as int)),
                total_count(self.rows@) <= u64::MAX,
                total_drained(self.rows@) <= u64::MAX,
            decreases self.rows@.len() - i,
        {
            proof {
                lemma_prefix(self.rows@, i + 1);
                assert(self.rows@.take(i + 1).drop_last() =~= self.rows@.take(i as int));
            }
            total = total + self.rows[i].count;
            drained = drained + self.rows[i].drained;
            i = i + 1;
        }
        assert(self.rows@.take(i as int) =~= self.rows@);
        let rows: Vec<DrainCount> = self.sorted();
        self.rows = Vec::new();
        Some(DrainReport { total, drained, rows })
    }
}

/// The totals of a prefix are no larger than those of the whole.
proof fn lemma_prefix(rows: Seq<DrainCount>, n: int)
    requires
        0 <= n <= rows.len(),
    ensures
        total_count(rows.take(n)) <= total_count(rows),
        total_drained(rows.take(n)) <= total_drained(rows),
    decreases rows.len() - n,
{
    if n == rows.len() {
        assert(rows.take(n) =~= rows);
    } else {
        lemma_prefix(rows, n + 1);
        assert(rows.take(n + 1).drop_last() =~= rows.take(n));
    }
}

} // verus!
