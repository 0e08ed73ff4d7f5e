use vstd::prelude::*;

verus! {

/// One persisted row of the append-only request log.  Rows are never
/// rewritten or deleted; `created_at` carries the append timestamp the
/// caller measured.
pub struct LogRecord {
    pub prompt_text: String,
    pub winner: String,
    pub response_text: String,
    pub duration_ms: u64,
    pub created_at: u64,
}

/// The mathematical value of a log record.
pub ghost struct LogRecordView {
    pub prompt_text: Seq<char>,
    pub winner: Seq<char>,
    pub response_text: Seq<char>,
    pub duration_ms: u64,
    pub created_at: u64,
}

impl View for LogRecord {
    type V = LogRecordView;

    open spec fn view(&self) -> LogRecordView {
        LogRecordView {
            prompt_text: self.prompt_text@,
            winner: self.winner@,
            response_text: self.response_text@,
            duration_ms: self.duration_ms,
            created_at: self.created_at,
        }
    }
}

impl Clone for LogRecord {
    fn clone(&self) -> (res: LogRecord)
        ensures
            res@ == self@,
    {
        LogRecord {
            prompt_text: self.prompt_text.clone(),
            winner: self.winner.clone(),
            response_text: self.response_text.clone(),
            duration_ms: self.duration_ms,
            created_at: self.created_at,
        }
    }
}

/// How many records the recent-log view hands back at most.
pub const RECENT_LOG_LIMIT: usize = 5;

/// The append-only request log, oldest record first.  This is the store the
/// read-side aggregates are recomputed from on every query.
pub struct RequestLog {
    pub records: Vec<LogRecord>,
}

/// One derived leaderboard row: a winner name with the number of log records
/// it won.  Never stored; always recomputed from the log.
pub struct LeaderboardEntry {
    pub winner: String,
    pub win_count: u64,
}

/// The mathematical value of a leaderboard row.
pub ghost struct LeaderboardEntryView {
    pub winner: Seq<char>,
    pub win_count: u64,
}

impl View for LeaderboardEntry {
    type V = LeaderboardEntryView;

    open spec fn view(&self) -> LeaderboardEntryView {
        LeaderboardEntryView { winner: self.winner@, win_count: self.win_count }
    }
}

impl Clone for LeaderboardEntry {
    fn clone(&self) -> (res: LeaderboardEntry)
        ensures
            res@ == self@,
    {
        LeaderboardEntry { winner: self.winner.clone(), win_count: self.win_count }
    }
}

/// How many records of `rs` were won by `w`.
pub open spec fn win_count_of(rs: Seq<LogRecordView>, w: Seq<char>) -> nat
    decreases rs.len(),
{
    if rs.len() == 0 {
        0
    } else {
        win_count_of(rs.drop_last(), w) + if rs.last().winner == w {
            1nat
        } else {
            0nat
        }
    }
}

/// A winner no record carries wins nothing.
pub proof fn lemma_absent_winner_count_zero(rs: Seq<LogRecordView>, w: Seq<char>)
    requires
        forall|m: int| 0 <= m < rs.len() ==> (#[trigger] rs[m].winner) != w,
    ensures
        win_count_of(rs, w) == 0,
    decreases rs.len(),
{
    if rs.len() > 0 {
        assert(rs[rs.len() - 1].winner != w);
        lemma_absent_winner_count_zero(rs.drop_last(), w);
    }
}

/// Whether one of the first `n` rows has the value `v`.
pub open spec fn has_row(rows: Seq<LeaderboardEntry>, n: int, v: LeaderboardEntryView) -> bool {
    exists|j: int| 0 <= j < n && (#[trigger] rows[j])@ == v
}

/// Whether some row carries the winner name `w`.
pub open spec fn has_winner(rows: Seq<LeaderboardEntry>, w: Seq<char>) -> bool {
    exists|j: int| 0 <= j < rows.len() && (#[trigger] rows[j])@.winner == w
}

impl RequestLog {
    pub open spec fn view_seq(&self) -> Seq<LogRecordView> {
        self.records@.map_values(|r: LogRecord| r@)
    }

    pub fn new() -> (r: RequestLog)
        ensures
            r.view_seq() == Seq::<LogRecordView>::empty(),
    {
        let r = RequestLog { records: Vec::new() };
        proof {
            assert(r.view_seq() =~= Seq::<LogRecordView>::empty());
        }
        r
    }

    pub fn len(&self) -> (n: usize)
        ensures
            n == self.view_seq().len(),
    {
        self.records.len()
    }

    /// Append one record.  Records are only ever added at the end, never
    /// rewritten: the new log is the old log plus this record.
    pub fn append(&mut self, rec: LogRecord)
        ensures
            final(self).view_seq() == old(self).view_seq().push(rec@),
    {
        let ghost pre = self.view_seq();
        let ghost rv = rec@;
        self.records.push(rec);
        proof {
            assert(self.view_seq() =~= pre.push(rv));
        }
    }

    /// The `limit` most recent records, most recent first.
    pub fn recent(&self, limit: usize) -> (r: Vec<LogRecord>)
        ensures
            r@.len() == if limit <= self.view_seq().len() {
                limit as int
            } else {
                self.view_seq().len() as int
            },
            forall|i: int|
                0 <= i < r@.len() ==> (#[trigger] r@[i])@ == self.view_seq()[self.view_seq().len()
                    - 1 - i],
    {
        let n = self.records.len();
        let mut out: Vec<LogRecord> = Vec::new();
        let mut i: usize = 0;
        while i < limit && i < n
            invariant
                n == self.view_seq().len(),
                i <= limit,
                i <= n,
                out@.len() == i,
                forall|k: int| 0 <= k < i ==> (#[trigger] out@[k])@ == self.view_seq()[n - 1 - k],
            decreases n - i,
        {
            out.push(self.records[n - 1 - i].clone());
            i = i + 1;
        }
        out
    }

    /// The leaderboard derived from the log: one row per distinct winner with
    /// its exact win count, ordered by win count, largest first.
    pub fn leaderboard(&self) -> (r: Vec<LeaderboardEntry>)
        ensures
            forall|i: int|
                0 <= i < r@.len() ==> (#[trigger] r@[i])@.win_count == win_count_of(
                    self.view_seq(),
                    r@[i]@.winner,
                ),
            forall|i: int| 0 <= i < r@.len() ==> (#[trigger] r@[i])@.win_count > 0,
            forall|i: int, j: int| 0 <= i < j < r@.len() ==> r@[i]@.winner != r@[j]@.winner,
            forall|k: int|
                0 <= k < self.view_seq().len() ==> #[trigger] has_winner(
                    r@,
                    self.view_seq()[k].winner,
                ),
            forall|i: int, j: int| 0 <= i < j < r@.len() ==> r@[i]@.win_count >= r@[j]@.win_count,
    {
        let tally = self.tally();
        let ghost tv = tally@;
        let r = sort_by_wins_desc(tally);
        proof {
            let logv = self.view_seq();
            assert forall|i: int| 0 <= i < r@.len() implies (#[trigger] r@[i])@.win_count
                == win_count_of(logv, r@[i]@.winner) && r@[i]@.win_count > 0 by {
                assert(has_row(tv, tv.len() as int, r@[i]@));
                let j = choose|j: int| 0 <= j < tv.len() && (#[trigger] tv[j])@ == r@[i]@;
            }
            assert forall|k: int| 0 <= k < logv.len() implies #[trigger] has_winner(
                r@,
                logv[k].winner,
            ) by {
                assert(has_winner(tv, logv[k].winner));
                let j = choose|j: int|
                    0 <= j < tv.len() && (#[trigger] tv[j])@.winner == logv[k].winner;
                assert(has_row(r@, r@.len() as int, tv[j]@));
                let i = choose|i: int| 0 <= i < r@.len() && (#[trigger] r@[i])@ == tv[j]@;
                assert(r@[i]@.winner == logv[k].winner);
            }
        }
        r
    }

    /// One unsorted row per distinct winner, with its exact win count.
    fn tally(&self) -> (t: Vec<LeaderboardEntry>)
        ensures
            forall|i: int|
                0 <= i < t@.len() ==> (#[trigger] t@[i])@.win_count == win_count_of(
                    self.view_seq(),
                    t@[i]@.winner,
                ),
            forall|i: int| 0 <= i < t@.len() ==> (#[trigger] t@[i])@.win_count > 0,
            forall|i: int, j: int| 0 <= i < j < t@.len() ==> t@[i]@.winner != t@[j]@.winner,
            forall|k: int|
                0 <= k < self.view_seq().len() ==> #[trigger] has_winner(
                    t@,
                    self.view_seq()[k].winner,
                ),
    {
        let ghost logv = self.view_seq();
        let n = self.records.len();
        let mut tally: Vec<LeaderboardEntry> = Vec::new();
        let mut k: usize = 0;
        proof {
            assert(logv.take(0) =~= Seq::<LogRecordView>::empty());
        }
        while k < n
            invariant
                n == logv.len(),
                logv == self.view_seq(),
                k <= n,
                forall|i: int|
                    0 <= i < tally@.len() ==> (#[trigger] tally@[i])@.win_count == win_count_of(
                        logv.take(k as int),
                        tally@[i]@.winner,
                    ),
                forall|i: int| 0 <= i < tally@.len() ==> (#[trigger] tally@[i])@.win_count > 0,
                forall|i: int| 0 <= i < tally@.len() ==> (#[trigger] tally@[i])@.win_count <= k,
                forall|i: int, j: int|
                    0 <= i < j < tally@.len() ==> tally@[i]@.winner != tally@[j]@.winner,
                forall|m: int| 0 <= m < k ==> #[trigger] has_winner(tally@, logv[m].winner),
            decreases n - k,
        {
            let ghost pre = tally@;
            let w = &self.records[k].winner;
            proof {
                assert(logv.take(k as int + 1).drop_last() =~= logv.take(k as int));
                assert(logv.take(k as int + 1).last() == logv[k as int]);
                assert(w@ == logv[k as int].winner);
            }
            match find_winner(&tally, w) {
                Some(idx) => {
                    let e = tally.remove(idx);
                    tally.push(LeaderboardEntry { winner: e.winner, win_count: e.win_count + 1 });
                    proof {
                        pre.remove_ensures(idx as int);
                        let post = tally@;
                        assert(forall|i: int| 0 <= i < idx ==> #[trigger] post[i] == pre[i]);
                        assert(forall|i: int|
                            idx <= i < pre.len() - 1 ==> #[trigger] post[i] == pre[i + 1]);
                        assert(post[post.len() - 1]@.winner == pre[idx as int]@.winner);
                        assert(post[post.len() - 1]@.win_count == pre[idx as int]@.win_count + 1);
                        assert forall|i: int|
                            0 <= i < post.len() implies (#[trigger] post[i])@.win_count
                            == win_count_of(logv.take(k as int + 1), post[i]@.winner) by {
                            if i < post.len() - 1 {
                                assert(post[i]@.winner != logv[k as int].winner);
                            }
                        }
                        assert forall|m: int| 0 <= m < k + 1 implies #[trigger] has_winner(
                            post,
                            logv[m].winner,
                        ) by {
                            if m < k {
                                assert(has_winner(pre, logv[m].winner));
                                let i0 = choose|j: int|
                                    0 <= j < pre.len() && (#[trigger] pre[j])@.winner
                                        == logv[m].winner;
                                if i0 == idx {
                                    assert(post[post.len() - 1]@.winner == logv[m].winner);
                                } else if i0 < idx {
                                    assert(post[i0]@.winner == logv[m].winner);
                                } else {
                                    assert(post[i0 - 1]@.winner == logv[m].winner);
                                }
                            } else {
                                assert(post[post.len() - 1]@.winner == logv[m].winner);
                            }
                        }
                    }
                },
                None => {
                    tally.push(LeaderboardEntry { winner: w.clone(), win_count: 1 });
                    proof {
                        let post = tally@;
                        assert forall|i: int|
                            0 <= i < post.len() implies (#[trigger] post[i])@.win_count
                            == win_count_of(logv.take(k as int + 1), post[i]@.winner) by {
                            if i < post.len() - 1 {
                                assert(post[i]@.winner != logv[k as int].winner);
                            } else {
                                assert forall|m: int|
                                    0 <= m < logv.take(k as int).len() implies (#[trigger] logv.take(
                                    k as int,
                                )[m].winner) != logv[k as int].winner by {
                                    assert(has_winner(pre, logv[m].winner));
                                    let j = choose|j: int|
                                        0 <= j < pre.len() && (#[trigger] pre[j])@.winner
                                            == logv[m].winner;
                                }
                                lemma_absent_winner_count_zero(
                                    logv.take(k as int),
                                    logv[k as int].winner,
                                );
                            }
                        }
                        assert forall|m: int| 0 <= m < k + 1 implies #[trigger] has_winner(
                            post,
                            logv[m].winner,
                        ) by {
                            if m < k {
                                assert(has_winner(pre, logv[m].winner));
                                let j = choose|j: int|
                                    0 <= j < pre.len() && (#[trigger] pre[j])@.winner
                                        == logv[m].winner;
                                assert(post[j]@.winner == logv[m].winner);
                            } else {
                                assert(post[post.len() - 1]@.winner == logv[m].winner);
                            }
                        }
                    }
                },
            }
            k = k + 1;
        }
        proof {
            assert(logv.take(n as int) =~= logv);
        }
        tally
    }
}

/// The index of the tally row for winner `w`, if the tally holds one.
fn find_winner(tally: &Vec<LeaderboardEntry>, w: &String) -> (r: Option<usize>)
    ensures
        r matches Some(i) ==> 0 <= i < tally@.len() && tally@[i as int]@.winner == w@,
        r is None ==> !has_winner(tally@, w@),
{
    let n = tally.len();
    let mut i: usize = 0;
    while i < n
        invariant
            i <= n,
            n == tally@.len(),
            forall|k: int| 0 <= k < i ==> (#[trigger] tally@[k])@.winner != w@,
        decreases n - i,
    {
        if tally[i].winner.eq(w) {
            return Some(i);
        }
        i = i + 1;
    }
    None
}

/// Order the tally rows by win count, largest first, keeping exactly the
/// same set of rows and their distinct winners.
fn sort_by_wins_desc(tally: Vec<LeaderboardEntry>) -> (r: Vec<LeaderboardEntry>)
    requires
        forall|i: int, j: int|
            0 <= i < j < tally@.len() ==> tally@[i]@.winner != tally@[j]@.winner,
    ensures
        r@.len() == tally@.len(),
        forall|i: int|
            0 <= i < r@.len() ==> #[trigger] has_row(tally@, tally@.len() as int, r@[i]@),
        forall|j: int|
            0 <= j < tally@.len() ==> #[trigger] has_row(r@, r@.len() as int, tally@[j]@),
        forall|i: int, j: int| 0 <= i < j < r@.len() ==> r@[i]@.winner != r@[j]@.winner,
        forall|i: int, j: int| 0 <= i < j < r@.len() ==> r@[i]@.win_count >= r@[j]@.win_count,
{
    let m = tally.len();
    let mut out: Vec<LeaderboardEntry> = Vec::new();
    let mut t: usize = 0;
    while t < m
        invariant
            t <= m,
            m == tally@.len(),
            out@.len() == t,
            forall|i: int, j: int|
                0 <= i < j < tally@.len() ==> tally@[i]@.winner != tally@[j]@.winner,
            forall|i: int| 0 <= i < out@.len() ==> #[trigger] has_row(tally@, t as int, out@[i]@),
            forall|j: int| 0 <= j < t ==> #[trigger] has_row(out@, out@.len() as int, tally@[j]@),
            forall|i: int, j: int| 0 <= i < j < out@.len() ==> out@[i]@.winner != out@[j]@.winner,
            forall|i: int, j: int|
                0 <= i < j < out@.len() ==> out@[i]@.win_count >= out@[j]@.win_count,
        decreases m - t,
    {
        let ghost pre = out@;
        let e = tally[t].clone();
        let ghost ev = e;
        let p = insert_position(&out, e.win_count);
        out.insert(p, e);
        proof {
            pre.insert_ensures(p as int, ev);
            assert(out@ == pre.insert(p as int, ev));
            let post = out@;
            assert(post[p as int]@ == tally@[t as int]@);
            assert(forall|i: int| 0 <= i < p ==> #[trigger] post[i] == pre[i]);
            assert(forall|i: int| p < i < post.len() ==> #[trigger] post[i] == pre[i - 1]);
            assert forall|i: int, j: int|
                0 <= i < j < post.len() implies post[i]@.win_count >= post[j]@.win_count by {
                if i < p && j > p {
                    assert(post[i]@ == pre[i]@);
                    assert(post[j]@ == pre[j - 1]@);
                } else if i == p && j > p {
                    assert(post[j]@ == pre[j - 1]@);
                } else if j == p && i < p {
                    assert(post[i]@ == pre[i]@);
                }
            }
            assert forall|i: int, j: int|
                0 <= i < j < post.len() implies post[i]@.winner != post[j]@.winner by {
                if i == p || j == p {
                    let q: int = if i == p {
                        j
                    } else {
                        i
                    };
                    let q0: int = if q < p {
                        q
                    } else {
                        q - 1
                    };
                    assert(post[q]@ == pre[q0]@);
                    assert(has_row(tally@, t as int, pre[q0]@));
                    let j0 = choose|j0: int| 0 <= j0 < t && (#[trigger] tally@[j0])@ == pre[q0]@;
                    assert(tally@[j0]@.winner != tally@[t as int]@.winner);
                } else {
                    let i0: int = if i < p {
                        i
                    } else {
                        i - 1
                    };
                    let j0: int = if j < p {
                        j
                    } else {
                        j - 1
                    };
                    assert(post[i]@ == pre[i0]@);
                    assert(post[j]@ == pre[j0]@);
                    assert(i0 < j0);
                }
            }
            assert forall|i: int| 0 <= i < post.len() implies #[trigger] has_row(
                tally@,
                t as int + 1,
                post[i]@,
            ) by {
                if i < p {
                    assert(post[i]@ == pre[i]@);
                    assert(has_row(tally@, t as int, pre[i]@));
                    let j0 = choose|j0: int| 0 <= j0 < t && (#[trigger] tally@[j0])@ == pre[i]@;
                    assert((tally@[j0])@ == post[i]@);
                } else if i > p {
                    assert(post[i]@ == pre[i - 1]@);
                    assert(has_row(tally@, t as int, pre[i - 1]@));
                    let j0 = choose|j0: int| 0 <= j0 < t && (#[trigger] tally@[j0])@ == pre[i
                        - 1]@;
                    assert((tally@[j0])@ == post[i]@);
                } else {
                    assert((tally@[t as int])@ == post[i]@);
                }
            }
            assert forall|j: int| 0 <= j < t + 1 implies #[trigger] has_row(
                post,
                post.len() as int,
                tally@[j]@,
            ) by {
                if j < t {
                    assert(has_row(pre, pre.len() as int, tally@[j]@));
                    let i0 = choose|i0: int|
                        0 <= i0 < pre.len() && (#[trigger] pre[i0])@ == tally@[j]@;
                    if i0 < p {
                        assert((post[i0])@ == tally@[j]@);
                    } else {
                        assert((post[i0 + 1])@ == tally@[j]@);
                    }
                } else {
                    assert((post[p as int])@ == tally@[j]@);
                }
            }
        }
        t = t + 1;
    }
    out
}

/// The first position whose win count is below `wins`; inserting there keeps
/// the sequence ordered largest-first.
fn insert_position(out: &Vec<LeaderboardEntry>, wins: u64) -> (p: usize)
    requires
        forall|i: int, j: int|
            0 <= i < j < out@.len() ==> out@[i]@.win_count >= out@[j]@.win_count,
    ensures
        p <= out@.len(),
        forall|i: int| 0 <= i < p ==> (#[trigger] out@[i])@.win_count >= wins,
        forall|i: int| p <= i < out@.len() ==> (#[trigger] out@[i])@.win_count < wins,
{
    let n = out.len();
    let mut p: usize = 0;
    while p < n
        invariant
            p <= n,
            n == out@.len(),
            forall|i: int, j: int|
                0 <= i < j < out@.len() ==> out@[i]@.win_count >= out@[j]@.win_count,
            forall|i: int| 0 <= i < p ==> (#[trigger] out@[i])@.win_count >= wins,
        decreases n - p,
    {
        if out[p].win_count < wins {
            return p;
        }
        p = p + 1;
    }
    n
}

} // verus!
