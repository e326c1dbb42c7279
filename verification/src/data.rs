//! The usage ledger: how often each caller has come, when last, and how
//! many tokens each has used on each day.

use crate::text::same_text;
use crate::time::{Moment, Span, MAX_STORED_SECS, NANOS_PER_SEC};
use crate::types::UserStats;
use vstd::prelude::*;

verus! {

/// The largest amount of tokens that the store keeps: it holds amounts as
/// signed 64-bit integers.
pub const MAX_STORED_AMOUNT: u64 = 0x7fff_ffff_ffff_ffff;

/// What the ledger keeps of one caller's requests.
#[derive(Clone, Copy, Debug, PartialEq, Eq, Structural)]
pub struct HitRecord {
    /// How many requests the caller has made, admitted or not.
    pub count_of_all: u64,
    /// The second, counted from the epoch, of the latest one.
    pub time_of_last: u64,
}

/// What one request learns from the ledger when it is counted.
#[derive(Clone, Copy, Debug, PartialEq, Eq, Structural)]
pub struct HitOutcome {
    /// How many requests the caller had made before this one.
    pub prior_count: u64,
    /// The time since the one before; `None` where this is the first.
    pub elapsed: Option<Span>,
}

/// Why the ledger refuses an operation. It is unchanged when it does.
#[derive(Clone, Copy, Debug, PartialEq, Eq, Structural)]
pub enum LedgerError {
    /// The time is later than the store can keep.
    TimeOutOfRange,
    /// The caller's latest request lies after the time given.
    ClockWentBack,
    /// The amount, or the total it would lead to, is more than the store
    /// can keep.
    AmountOutOfRange,
}

/// Why the store behind the ledger failed.
#[derive(Clone, Copy, Debug, PartialEq, Eq, Structural)]
pub enum StorageError {
    LockTimeout,
    IOFailure,
    SchemaFailure,
}

/// Timings and token counts that the upstream service reports.
#[derive(Clone, Copy, Debug, PartialEq, Eq, Structural)]
pub struct UsageStats {
    pub queue_time_ms: i64,
    pub prompt_time_ms: i64,
    pub completion_time_ms: i64,
    pub total_time_ms: i64,
    pub prompt_tokens: i64,
    pub completion_tokens: i64,
    pub total_tokens: i64,
}

/// One line of the record of handled requests.
#[derive(Clone, Debug, PartialEq, Eq)]
pub struct RequestLog {
    pub id: i64,
    pub uid: String,
    pub timestamp: i64,
    pub endpoint: String,
    pub model: String,
    pub input_tokens: i64,
    pub output_tokens: i64,
    pub status_code: i32,
    pub duration_ms: i64,
    pub error_message: Option<String>,
    pub request_id: String,
}

/// `a + 1`, held at the largest `u64`.
pub open spec fn next_count(a: u64) -> u64 {
    if a == u64::MAX {
        a
    } else {
        (a + 1) as u64
    }
}

/// What counting a request at `now` does to a caller's record `prev`, and
/// what the request learns. A first request leaves a record of one request
/// and learns of none before it. A later one raises the count, puts `now`
/// in place of the time, and learns the count and the time as they were.
pub open spec fn spec_hit_step(prev: Option<HitRecord>, now: Moment) -> Result<
    (HitRecord, HitOutcome),
    LedgerError,
> {
    if now.secs > MAX_STORED_SECS {
        Err(LedgerError::TimeOutOfRange)
    } else {
        match prev {
            None => Ok(
                (
                    HitRecord { count_of_all: 1, time_of_last: now.secs },
                    HitOutcome { prior_count: 0, elapsed: None },
                ),
            ),
            Some(rec) => match now.spec_since(rec.time_of_last) {
                None => Err(LedgerError::ClockWentBack),
                Some(elapsed) => Ok(
                    (
                        HitRecord {
                            count_of_all: next_count(rec.count_of_all),
                            time_of_last: now.secs,
                        },
                        HitOutcome { prior_count: rec.count_of_all, elapsed: Some(elapsed) },
                    ),
                ),
            },
        }
    }
}

/// Counts a request at `now` against a caller's record `prev`: the record
/// to keep and what the request learns.
pub fn hit(prev: Option<HitRecord>, now: &Moment) -> (r: Result<
    (HitRecord, HitOutcome),
    LedgerError,
>)
    ensures
        r == spec_hit_step(prev, *now),
        now.wf() ==> (r matches Ok((_, out)) ==> (out.elapsed matches Some(e) ==> e.wf())),
{
    if now.secs > MAX_STORED_SECS {
        return Err(LedgerError::TimeOutOfRange);
    }
    match prev {
        None => Ok(
            (
                HitRecord { count_of_all: 1, time_of_last: now.secs },
                HitOutcome { prior_count: 0, elapsed: None },
            ),
        ),
        Some(rec) => match now.since(rec.time_of_last) {
            None => Err(LedgerError::ClockWentBack),
            Some(elapsed) => Ok(
                (
                    HitRecord {
                        count_of_all: rec.count_of_all.saturating_add(1),
                        time_of_last: now.secs,
                    },
                    HitOutcome { prior_count: rec.count_of_all, elapsed: Some(elapsed) },
                ),
            ),
        },
    }
}

/// What is left of the daily allowance `max` once `used` is spent; nothing
/// where more than the allowance is spent.
pub open spec fn remaining(max: u64, used: u64) -> nat {
    if used >= max {
        0
    } else {
        (max - used) as nat
    }
}

/// Whether `requested` tokens fit into what is left of the daily allowance
/// `max` once `used` are spent.
pub fn tokens_fit(max: u64, used: u64, requested: u64) -> (fits: bool)
    ensures
        fits == (requested <= remaining(max, used)),
{
    max.saturating_sub(used) >= requested
}

/// The total after `amount` more tokens: both the amount and the new total
/// must be such as the store can keep.
pub open spec fn spec_tokens_add(total: u64, amount: u64) -> Result<u64, LedgerError> {
    if amount > MAX_STORED_AMOUNT || total + amount > MAX_STORED_AMOUNT {
        Err(LedgerError::AmountOutOfRange)
    } else {
        Ok((total + amount) as u64)
    }
}

/// The total after `amount` more tokens.
pub fn tokens_add(total: u64, amount: u64) -> (r: Result<u64, LedgerError>)
    ensures
        r == spec_tokens_add(total, amount),
{
    if amount > MAX_STORED_AMOUNT || total > MAX_STORED_AMOUNT - amount {
        Err(LedgerError::AmountOutOfRange)
    } else {
        Ok(total + amount)
    }
}

/// The count of a caller's requests never falls, and rises by one with
/// each request that is counted until it stands at the largest number.
pub proof fn lemma_count_rises(prev: Option<HitRecord>, now: Moment)
    requires
        spec_hit_step(prev, now) is Ok,
    ensures
        ({
            let (kept, learned) = spec_hit_step(prev, now)->Ok_0;
            let before = match prev {
                Some(rec) => rec.count_of_all,
                None => 0,
            };
            &&& learned.prior_count == before
            &&& kept.count_of_all >= before
            &&& before < u64::MAX ==> kept.count_of_all == before + 1
            &&& kept.time_of_last == now.secs
        }),
{
}

/// Booking never lowers a total.
pub proof fn lemma_total_rises(total: u64, amount: u64)
    ensures
        spec_tokens_add(total, amount) matches Ok(after) ==> after == total + amount,
{
}

/// The budget rule: while no more than the allowance is spent, a request
/// fits exactly when it asks for no more than the allowance less what is
/// spent.
pub proof fn lemma_budget_rule(max: u64, spent: u64, requested: u64)
    requires
        spent <= max,
    ensures
        (requested <= remaining(max, spent)) == !(requested > max - spent),
{
}

/// Two requests of one caller in a row: if the first was counted at
/// `first` and the second comes at `second`, not in an earlier second and
/// not later than the store can keep, the second one is counted too, and
/// learns the count that the first left and the time since the second in
/// which the first came. That time is never less than the time between
/// the two requests, and less than one second more.
pub proof fn lemma_second_hit(prev: Option<HitRecord>, first: Moment, second: Moment)
    requires
        spec_hit_step(prev, first) is Ok,
        first.secs <= second.secs <= MAX_STORED_SECS,
    ensures
        first.wf() && second.wf() && first.as_nanos() <= second.as_nanos() ==> ({
            let elapsed = Span { secs: (second.secs - first.secs) as u64, nanos: second.nanos };
            &&& elapsed.wf()
            &&& elapsed.as_nanos() >= second.as_nanos() - first.as_nanos()
            &&& elapsed.as_nanos() < second.as_nanos() - first.as_nanos() + NANOS_PER_SEC
        }),
        ({
            let kept = spec_hit_step(prev, first)->Ok_0.0;
            spec_hit_step(Some(kept), second) == Ok::<(HitRecord, HitOutcome), LedgerError>(
                (
                    HitRecord {
                        count_of_all: next_count(kept.count_of_all),
                        time_of_last: second.secs,
                    },
                    HitOutcome {
                        prior_count: kept.count_of_all,
                        elapsed: Some(
                            Span { secs: (second.secs - first.secs) as u64, nanos: second.nanos },
                        ),
                    },
                ),
            )
        }),
{
    assert((second.secs - first.secs) as nat * (NANOS_PER_SEC as nat) + (first.secs as nat) * (
    NANOS_PER_SEC as nat) == (second.secs as nat) * (NANOS_PER_SEC as nat)) by (nonlinear_arith)
        requires
            first.secs <= second.secs,
    ;
}

/// The calendar day in UTC, written as year, month and day with hyphens
/// between, in which second `secs` after the epoch falls, as the `chrono`
/// crate writes it; `None` where the crate has no date that far from the
/// epoch.
pub uninterp spec fn utc_day(secs: i64) -> Option<Seq<char>>;

/// `chrono::DateTime::from_timestamp`, and `format` with `%Y-%m-%d` on the
/// time in UTC that it gives: the day in which second `secs` falls. The
/// text depends on `secs` alone, so it has a name.
#[verifier::external_body]
fn format_day(secs: i64) -> (r: Option<String>)
    ensures
        r matches Some(day) ==> utc_day(secs) == Some(day@),
        r is None ==> utc_day(secs) is None,
{
    let time = chrono::DateTime::<chrono::Utc>::from_timestamp(secs, 0)?;
    Some(time.format("%Y-%m-%d").to_string())
}

/// The day under which the tokens used at `now` are booked: the calendar
/// day in UTC; none for a time that the store cannot keep.
pub open spec fn spec_day_of(now: Moment) -> Option<Seq<char>> {
    if now.secs > MAX_STORED_SECS {
        None
    } else {
        utc_day(now.secs as i64)
    }
}

/// The day under which the tokens used at `now` are booked.
pub fn day_of(now: &Moment) -> (r: Option<String>)
    ensures
        r matches Some(day) ==> spec_day_of(*now) == Some(day@),
        r is None ==> spec_day_of(*now) is None,
{
    if now.secs > MAX_STORED_SECS {
        None
    } else {
        format_day(now.secs as i64)
    }
}

/// One caller's requests, as the ledger keeps them.
struct HitsRow {
    uid: String,
    count_of_all: u64,
    time_of_last: u64,
}

/// One caller's tokens on one day, as the ledger keeps them.
struct TokensRow {
    uid: String,
    date: String,
    total: u64,
}

/// A caller and a day.
pub type DayKey = (Seq<char>, Seq<char>);

/// The records in `rows`, by caller.
spec fn hits_of(rows: Seq<HitsRow>) -> Map<Seq<char>, HitRecord>
    decreases rows.len(),
{
    if rows.len() == 0 {
        Map::empty()
    } else {
        hits_of(rows.drop_last()).insert(
            rows.last().uid@,
            HitRecord {
                count_of_all: rows.last().count_of_all,
                time_of_last: rows.last().time_of_last,
            },
        )
    }
}

/// The totals in `rows`, by caller and day.
spec fn totals_of(rows: Seq<TokensRow>) -> Map<DayKey, u64>
    decreases rows.len(),
{
    if rows.len() == 0 {
        Map::empty()
    } else {
        totals_of(rows.drop_last()).insert((rows.last().uid@, rows.last().date@), rows.last().total)
    }
}

/// No caller has two rows.
spec fn hits_distinct(rows: Seq<HitsRow>) -> bool {
    forall|i: int, j: int| 0 <= i < j < rows.len() ==> rows[i].uid@ != rows[j].uid@
}

/// No caller has two rows for one day.
spec fn totals_distinct(rows: Seq<TokensRow>) -> bool {
    forall|i: int, j: int|
        0 <= i < j < rows.len() ==> (rows[i].uid@, rows[i].date@) != (rows[j].uid@, rows[j].date@)
}

proof fn lemma_hits_absent(rows: Seq<HitsRow>, uid: Seq<char>)
    requires
        forall|j: int| 0 <= j < rows.len() ==> rows[j].uid@ != uid,
    ensures
        !hits_of(rows).contains_key(uid),
    decreases rows.len(),
{
    if rows.len() > 0 {
        lemma_hits_absent(rows.drop_last(), uid);
    }
}

proof fn lemma_hits_found(rows: Seq<HitsRow>, i: int)
    requires
        0 <= i < rows.len(),
        forall|j: int| i < j < rows.len() ==> rows[j].uid@ != rows[i].uid@,
    ensures
        hits_of(rows).contains_key(rows[i].uid@),
        hits_of(rows)[rows[i].uid@] == (HitRecord {
            count_of_all: rows[i].count_of_all,
            time_of_last: rows[i].time_of_last,
        }),
    decreases rows.len(),
{
    if i < rows.len() - 1 {
        lemma_hits_found(rows.drop_last(), i);
    }
}

proof fn lemma_hits_update(rows: Seq<HitsRow>, i: int, row: HitsRow)
    requires
        0 <= i < rows.len(),
        row.uid@ == rows[i].uid@,
        forall|j: int| i < j < rows.len() ==> rows[j].uid@ != rows[i].uid@,
    ensures
        hits_of(rows.update(i, row)) =~= hits_of(rows).insert(
            row.uid@,
            HitRecord { count_of_all: row.count_of_all, time_of_last: row.time_of_last },
        ),
    decreases rows.len(),
{
    let after = rows.update(i, row);
    if i < rows.len() - 1 {
        assert(after.drop_last() =~= rows.drop_last().update(i, row));
        lemma_hits_update(rows.drop_last(), i, row);
    } else {
        assert(after.drop_last() =~= rows.drop_last());
    }
}

proof fn lemma_totals_absent(rows: Seq<TokensRow>, key: DayKey)
    requires
        forall|j: int| 0 <= j < rows.len() ==> (rows[j].uid@, rows[j].date@) != key,
    ensures
        !totals_of(rows).contains_key(key),
    decreases rows.len(),
{
    if rows.len() > 0 {
        lemma_totals_absent(rows.drop_last(), key);
    }
}

proof fn lemma_totals_found(rows: Seq<TokensRow>, i: int)
    requires
        0 <= i < rows.len(),
        forall|j: int|
            i < j < rows.len() ==> (rows[j].uid@, rows[j].date@) != (rows[i].uid@, rows[i].date@),
    ensures
        totals_of(rows).contains_key((rows[i].uid@, rows[i].date@)),
        totals_of(rows)[(rows[i].uid@, rows[i].date@)] == rows[i].total,
    decreases rows.len(),
{
    if i < rows.len() - 1 {
        lemma_totals_found(rows.drop_last(), i);
    }
}

proof fn lemma_totals_update(rows: Seq<TokensRow>, i: int, row: TokensRow)
    requires
        0 <= i < rows.len(),
        row.uid@ == rows[i].uid@,
        row.date@ == rows[i].date@,
        forall|j: int|
            i < j < rows.len() ==> (rows[j].uid@, rows[j].date@) != (rows[i].uid@, rows[i].date@),
    ensures
        totals_of(rows.update(i, row)) =~= totals_of(rows).insert(
            (row.uid@, row.date@),
            row.total,
        ),
    decreases rows.len(),
{
    let after = rows.update(i, row);
    if i < rows.len() - 1 {
        assert(after.drop_last() =~= rows.drop_last().update(i, row));
        lemma_totals_update(rows.drop_last(), i, row);
    } else {
        assert(after.drop_last() =~= rows.drop_last());
    }
}

/// What `m` holds under `k`, if anything.
pub open spec fn lookup<K, V>(m: Map<K, V>, k: K) -> Option<V> {
    if m.contains_key(k) {
        Some(m[k])
    } else {
        None
    }
}

/// The tokens booked under `key`; none where nothing is booked.
pub open spec fn used(totals: Map<DayKey, u64>, key: DayKey) -> u64 {
    if totals.contains_key(key) {
        totals[key]
    } else {
        0
    }
}

/// The report on a caller from the caller's record and today's total; a
/// caller of whom nothing is kept has come never and used nothing.
pub open spec fn spec_user_stats(uid: Seq<char>, hits: Option<HitRecord>, total: Option<u64>)
    -> (Seq<char>, u64, u64, u64) {
    (
        uid,
        match hits {
            Some(h) => h.count_of_all,
            None => 0,
        },
        match hits {
            Some(h) => h.time_of_last,
            None => 0,
        },
        match total {
            Some(t) => t,
            None => 0,
        },
    )
}

/// The report on a caller from the caller's record and today's total.
pub fn user_stats(uid: &str, hits: Option<HitRecord>, total: Option<u64>) -> (stats: UserStats)
    ensures
        (stats.uid@, stats.total_hits, stats.last_hit_time, stats.tokens_used_today)
            == spec_user_stats(uid@, hits, total),
{
    let (total_hits, last_hit_time): (u64, u64) = match hits {
        Some(h) => (h.count_of_all, h.time_of_last),
        None => (0, 0),
    };
    let tokens_used_today: u64 = match total {
        Some(t) => t,
        None => 0,
    };
    UserStats { uid: uid.to_string(), total_hits, last_hit_time, tokens_used_today }
}

/// A ledger kept in memory. It holds one record for each caller that has
/// come, and one total for each caller and day that was asked about.
pub struct Ledger {
    hits: Vec<HitsRow>,
    tokens: Vec<TokensRow>,
    max_tokens_per_day: u64,
}

impl Ledger {
    /// No caller has two records, and none has two totals for one day.
    pub closed spec fn wf(&self) -> bool {
        hits_distinct(self.hits@) && totals_distinct(self.tokens@)
    }

    /// The record of each caller that has come.
    pub closed spec fn hits(&self) -> Map<Seq<char>, HitRecord> {
        hits_of(self.hits@)
    }

    /// The total of each caller and day that was asked about.
    pub closed spec fn totals(&self) -> Map<DayKey, u64> {
        totals_of(self.tokens@)
    }

    /// The most tokens that one caller may use on one day.
    pub closed spec fn daily_max(&self) -> u64 {
        self.max_tokens_per_day
    }

    /// A ledger without records, for the daily allowance given.
    pub fn new(max_tokens_per_day: u64) -> (ledger: Ledger)
        ensures
            ledger.wf(),
            ledger.hits() == Map::<Seq<char>, HitRecord>::empty(),
            ledger.totals() == Map::<DayKey, u64>::empty(),
            ledger.daily_max() == max_tokens_per_day,
    {
        Ledger { hits: Vec::new(), tokens: Vec::new(), max_tokens_per_day }
    }

    /// The place of the row of `uid`.
    fn find_hits(&self, uid: &str) -> (r: Option<usize>)
        ensures
            match r {
                Some(i) => i < self.hits@.len() && self.hits@[i as int].uid@ == uid@,
                None => forall|j: int| 0 <= j < self.hits@.len() ==> self.hits@[j].uid@ != uid@,
            },
    {
        let mut i: usize = 0;
        while i < self.hits.len()
            invariant
                i <= self.hits@.len(),
                forall|j: int| 0 <= j < i ==> self.hits@[j].uid@ != uid@,
            decreases self.hits@.len() - i,
        {
            if same_text(self.hits[i].uid.as_str(), uid) {
                return Some(i);
            }
            i = i + 1;
        }
        None
    }

    /// The place of the row of `uid` and `date`.
    fn find_tokens(&self, uid: &str, date: &str) -> (r: Option<usize>)
        ensures
            match r {
                Some(i) => i < self.tokens@.len() && self.tokens@[i as int].uid@ == uid@
                    && self.tokens@[i as int].date@ == date@,
                None => forall|j: int|
                    0 <= j < self.tokens@.len() ==> (self.tokens@[j].uid@, self.tokens@[j].date@)
                        != (uid@, date@),
            },
    {
        let mut i: usize = 0;
        while i < self.tokens.len()
            invariant
                i <= self.tokens@.len(),
                forall|j: int|
                    0 <= j < i ==> (self.tokens@[j].uid@, self.tokens@[j].date@) != (uid@, date@),
            decreases self.tokens@.len() - i,
        {
            if same_text(self.tokens[i].uid.as_str(), uid) && same_text(
                self.tokens[i].date.as_str(),
                date,
            ) {
                return Some(i);
            }
            i = i + 1;
        }
        None
    }

    /// The record of `uid`, if the caller has come.
    pub fn hit_record(&self, uid: &str) -> (r: Option<HitRecord>)
        requires
            self.wf(),
        ensures
            r == lookup(self.hits(), uid@),
    {
        match self.find_hits(uid) {
            None => {
                proof {
                    lemma_hits_absent(self.hits@, uid@);
                }
                None
            },
            Some(i) => {
                proof {
                    lemma_hits_found(self.hits@, i as int);
                }
                Some(
                    HitRecord {
                        count_of_all: self.hits[i].count_of_all,
                        time_of_last: self.hits[i].time_of_last,
                    },
                )
            },
        }
    }

    /// The total of `uid` on `date`, if it was asked about.
    pub fn total(&self, uid: &str, date: &str) -> (r: Option<u64>)
        requires
            self.wf(),
        ensures
            r == lookup(self.totals(), (uid@, date@)),
    {
        match self.find_tokens(uid, date) {
            None => {
                proof {
                    lemma_totals_absent(self.tokens@, (uid@, date@));
                }
                None
            },
            Some(i) => {
                proof {
                    lemma_totals_found(self.tokens@, i as int);
                }
                Some(self.tokens[i].total)
            },
        }
    }

    /// Counts a request of `uid` at `now`: the caller's record is made or
    /// brought up to date, whether or not the request is let through later,
    /// and the request learns how things stood before it.
    pub fn hit(&mut self, uid: &str, now: &Moment) -> (r: Result<HitOutcome, LedgerError>)
        requires
            old(self).wf(),
        ensures
            final(self).wf(),
            final(self).totals() == old(self).totals(),
            final(self).daily_max() == old(self).daily_max(),
            match spec_hit_step(lookup(old(self).hits(), uid@), *now) {
                Ok((rec, out)) => r == Ok::<HitOutcome, LedgerError>(out) && final(self).hits()
                    == old(self).hits().insert(uid@, rec),
                Err(e) => r == Err::<HitOutcome, LedgerError>(e) && final(self).hits() == old(
                    self,
                ).hits(),
            },
            now.wf() ==> (r matches Ok(out) ==> (out.elapsed matches Some(e) ==> e.wf())),
    {
        let found: Option<usize> = self.find_hits(uid);
        let prev: Option<HitRecord> = match found {
            None => {
                proof {
                    lemma_hits_absent(self.hits@, uid@);
                }
                None
            },
            Some(i) => {
                proof {
                    lemma_hits_found(self.hits@, i as int);
                }
                Some(
                    HitRecord {
                        count_of_all: self.hits[i].count_of_all,
                        time_of_last: self.hits[i].time_of_last,
                    },
                )
            },
        };
        match self::hit(prev, now) {
            Err(e) => Err(e),
            Ok((rec, out)) => {
                let row = HitsRow {
                    uid: uid.to_string(),
                    count_of_all: rec.count_of_all,
                    time_of_last: rec.time_of_last,
                };
                match found {
                    None => {
                        self.hits.push(row);
                        assert(self.hits@.drop_last() =~= old(self).hits@);
                    },
                    Some(i) => {
                        proof {
                            lemma_hits_update(self.hits@, i as int, row);
                        }
                        self.hits.set(i, row);
                    },
                }
                Ok(out)
            },
        }
    }

    /// Whether `requested` tokens fit into what is left to `uid` on `date`.
    /// A caller and day not asked about before get a total of nothing.
    pub fn tokens_check(&mut self, uid: &str, date: &str, requested: u64) -> (fits: bool)
        requires
            old(self).wf(),
        ensures
            final(self).wf(),
            final(self).hits() == old(self).hits(),
            final(self).daily_max() == old(self).daily_max(),
            final(self).totals() == if old(self).totals().contains_key((uid@, date@)) {
                old(self).totals()
            } else {
                old(self).totals().insert((uid@, date@), 0)
            },
            fits == (requested <= remaining(
                old(self).daily_max(),
                used(old(self).totals(), (uid@, date@)),
            )),
    {
        let total: u64 = match self.find_tokens(uid, date) {
            None => {
                proof {
                    lemma_totals_absent(self.tokens@, (uid@, date@));
                }
                self.tokens.push(TokensRow { uid: uid.to_string(), date: date.to_string(), total: 0 });
                assert(self.tokens@.drop_last() =~= old(self).tokens@);
                0
            },
            Some(i) => {
                proof {
                    lemma_totals_found(self.tokens@, i as int);
                }
                self.tokens[i].total
            },
        };
        tokens_fit(self.max_tokens_per_day, total, requested)
    }

    /// Books `amount` more tokens for `uid` on `date`. The allowance is not
    /// looked at here: it is checked before the upstream service is asked,
    /// and two requests that were checked against the same rest may both be
    /// booked, so that a day's total can pass the allowance by what one
    /// request costs.
    pub fn tokens_consume(&mut self, uid: &str, date: &str, amount: u64) -> (r: Result<
        (),
        LedgerError,
    >)
        requires
            old(self).wf(),
        ensures
            final(self).wf(),
            final(self).hits() == old(self).hits(),
            final(self).daily_max() == old(self).daily_max(),
            match spec_tokens_add(used(old(self).totals(), (uid@, date@)), amount) {
                Ok(total) => r is Ok && final(self).totals() == old(self).totals().insert(
                    (uid@, date@),
                    total,
                ),
                Err(e) => r == Err::<(), LedgerError>(e) && final(self).totals() == old(
                    self,
                ).totals(),
            },
    {
        let found: Option<usize> = self.find_tokens(uid, date);
        let before: u64 = match found {
            None => {
                proof {
                    lemma_totals_absent(self.tokens@, (uid@, date@));
                }
                0
            },
            Some(i) => {
                proof {
                    lemma_totals_found(self.tokens@, i as int);
                }
                self.tokens[i].total
            },
        };
        match tokens_add(before, amount) {
            Err(e) => Err(e),
            Ok(total) => {
                let row = TokensRow { uid: uid.to_string(), date: date.to_string(), total };
                match found {
                    None => {
                        self.tokens.push(row);
                        assert(self.tokens@.drop_last() =~= old(self).tokens@);
                    },
                    Some(i) => {
                        proof {
                            lemma_totals_update(self.tokens@, i as int, row);
                        }
                        self.tokens.set(i, row);
                    },
                }
                Ok(())
            },
        }
    }

    /// The report on `uid`, with the tokens of `date` as today's.
    pub fn get_user_stats(&self, uid: &str, date: &str) -> (stats: UserStats)
        requires
            self.wf(),
        ensures
            (stats.uid@, stats.total_hits, stats.last_hit_time, stats.tokens_used_today)
                == spec_user_stats(
                uid@,
                lookup(self.hits(), uid@),
                lookup(self.totals(), (uid@, date@)),
            ),
    {
        user_stats(uid, self.hit_record(uid), self.total(uid, date))
    }
}

} // verus!
