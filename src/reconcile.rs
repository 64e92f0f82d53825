//! The reconciliation loop's decisions: which record to compare, whether it
//! needs writing, how long to wait before the next check, and which failures
//! stop the loop.

use crate::models::{DnsRecord, Zone};
use crate::services::{first_zone_id, zone_id_after_listing, DdnsError};
use vstd::prelude::*;
use vstd::string::StringExecFns;

verus! {

/// Minutes to wait before the first check.
pub const INITIAL_DELAY: u64 = 2;

/// Factor by which the wait grows after a check that changed nothing.
pub const DELAY_FACTOR: u64 = 2;

/// Longest wait between two checks, in minutes.
pub const MAX_DELAY: u64 = 60;

/// The record type that the loop keeps up to date.
pub const RECORD_TYPE: &'static str = "AAAA";

/// The comment written on every record the loop creates or updates.
pub const RECORD_COMMENT: &'static str = "Created by DDNS client";

/// What one reconcile cycle does about the record.
#[derive(Debug, Clone, Copy)]
pub enum Decision<'a> {
    /// The record already holds the observed address.
    Skip,
    /// The record must be written: created when there is none, else updated.
    Upsert(Option<&'a DnsRecord>),
}

/// The index of the first record of `records` whose type is `record_type`.
pub open spec fn first_of_type(records: Seq<DnsRecord>, record_type: Seq<char>) -> Option<int> {
    if exists|i: int| 0 <= i < records.len() && (#[trigger] records[i]).record_type@ == record_type {
        Some(
            choose|i: int|
                0 <= i < records.len() && (#[trigger] records[i]).record_type@ == record_type
                    && forall|j: int| 0 <= j < i ==> (#[trigger] records[j]).record_type@ != record_type,
        )
    } else {
        None
    }
}

/// The first record of the given type, if any.
pub fn find_record_of_type<'a>(records: &'a Vec<DnsRecord>, record_type: &str) -> (r: Option<
    &'a DnsRecord,
>)
    ensures
        match first_of_type(records@, record_type@) {
            Some(i) => r matches Some(x) && *x == records@[i],
            None => r is None,
        },
{
    let wanted = String::from_str(record_type);
    let n = records.len();
    let mut i: usize = 0;
    while i < n
        invariant
            n == records@.len(),
            i <= n,
            wanted@ == record_type@,
            forall|j: int| 0 <= j < i ==> (#[trigger] records@[j]).record_type@ != record_type@,
        decreases n - i,
    {
        if records[i].record_type == wanted {
            proof {
                let s = records@;
                let t = record_type@;
                assert(s[i as int].record_type@ == t);
                let k = choose|k: int|
                    0 <= k < s.len() && (#[trigger] s[k]).record_type@ == t && forall|j: int|
                        0 <= j < k ==> (#[trigger] s[j]).record_type@ != t;
                if k < i {
                    assert(s[k].record_type@ != t);
                }
                if k > i {
                    assert(s[i as int].record_type@ != t);
                }
            }
            return Some(&records[i]);
        }
        i = i + 1;
    }
    None
}

/// Whether a cycle may leave the record alone: a record exists and holds
/// exactly the observed address.
pub open spec fn is_up_to_date(existing: Option<&DnsRecord>, observed: Seq<char>) -> bool {
    existing matches Some(rec) && rec.content@ == observed
}

/// Decides between leaving the record alone and writing it. The comparison
/// is exact: addresses are not normalised.
pub fn diff_policy<'a>(existing: Option<&'a DnsRecord>, observed: &String) -> (r: Decision<'a>)
    ensures
        r is Skip <==> is_up_to_date(existing, observed@),
        r is Upsert ==> r == Decision::Upsert(existing),
{
    match existing {
        Some(rec) => {
            if rec.content == *observed {
                Decision::Skip
            } else {
                Decision::Upsert(existing)
            }
        },
        None => Decision::Upsert(None),
    }
}

/// Plans one cycle from the listed records and the observed address: no
/// decision when no address was observed, else the policy's decision on
/// the first record of the target type.
pub fn plan_cycle<'a>(records: &'a Vec<DnsRecord>, record_type: &str, observed: &String) -> (r:
    Option<Decision<'a>>)
    ensures
        observed@.len() == 0 ==> r is None,
        observed@.len() > 0 ==> match first_of_type(records@, record_type@) {
            Some(i) => if records@[i].content@ == observed@ {
                r matches Some(d) && d is Skip
            } else {
                r matches Some(d) && d matches Decision::Upsert(Some(x)) && *x == records@[i]
            },
            None => r matches Some(d) && d matches Decision::Upsert(None),
        },
{
    if observed.as_str().is_empty() {
        return None;
    }
    let existing = find_record_of_type(records, record_type);
    Some(diff_policy(existing, observed))
}

/// The wait after a check that changed nothing: the current one times the
/// factor, clamped at the ceiling.
pub open spec fn grown_delay(delay: int, factor: int, ceiling: int) -> int {
    if delay * factor < ceiling {
        delay * factor
    } else {
        ceiling
    }
}

/// The wait after `n` checks in a row that changed nothing.
pub open spec fn delay_after_skips(initial: int, factor: int, ceiling: int, n: nat) -> int
    decreases n,
{
    if n == 0 {
        initial
    } else {
        grown_delay(delay_after_skips(initial, factor, ceiling, (n - 1) as nat), factor, ceiling)
    }
}

/// Multiplies `delay` by `factor`, clamped at `ceiling`, without overflow.
pub fn next_delay(delay: u64, factor: u64, ceiling: u64) -> (r: u64)
    ensures
        r == grown_delay(delay as int, factor as int, ceiling as int),
{
    if factor == 0 {
        assert(delay * factor == 0) by (nonlinear_arith)
            requires
                factor == 0,
        ;
        if 0 < ceiling {
            0
        } else {
            ceiling
        }
    } else if delay > ceiling / factor {
        assert(delay * factor >= ceiling) by (nonlinear_arith)
            requires
                factor > 0,
                delay > ceiling / factor,
        ;
        ceiling
    } else {
        assert(delay * factor <= ceiling) by (nonlinear_arith)
            requires
                factor > 0,
                delay <= ceiling / factor,
        ;
        let p = delay * factor;
        if p < ceiling {
            p
        } else {
            ceiling
        }
    }
}

/// The loop's adaptive wait between checks.
pub struct Backoff {
    delay: u64,
    factor: u64,
    max_delay: u64,
}

impl Backoff {
    /// The current wait, in minutes.
    pub closed spec fn delay_spec(&self) -> int {
        self.delay as int
    }

    pub closed spec fn factor_spec(&self) -> int {
        self.factor as int
    }

    pub closed spec fn max_delay_spec(&self) -> int {
        self.max_delay as int
    }

    /// A wait of `initial` minutes that grows by `factor` up to `max_delay`.
    pub fn new(initial: u64, factor: u64, max_delay: u64) -> (r: Self)
        ensures
            r.delay_spec() == initial,
            r.factor_spec() == factor,
            r.max_delay_spec() == max_delay,
    {
        Backoff { delay: initial, factor, max_delay }
    }

    /// The wait the loop starts with: two minutes, doubling up to an hour.
    pub fn standard() -> (r: Self)
        ensures
            r.delay_spec() == INITIAL_DELAY,
            r.factor_spec() == DELAY_FACTOR,
            r.max_delay_spec() == MAX_DELAY,
    {
        Self::new(INITIAL_DELAY, DELAY_FACTOR, MAX_DELAY)
    }

    /// The current wait, in minutes.
    pub fn delay(&self) -> (r: u64)
        ensures
            r == self.delay_spec(),
    {
        self.delay
    }

    /// Takes in a cycle's decision: a skip grows the wait; a write leaves it
    /// as it is.
    pub fn record_outcome(&mut self, decision: &Decision)
        ensures
            final(self).factor_spec() == old(self).factor_spec(),
            final(self).max_delay_spec() == old(self).max_delay_spec(),
            decision is Skip ==> final(self).delay_spec() == grown_delay(
                old(self).delay_spec(),
                old(self).factor_spec(),
                old(self).max_delay_spec(),
            ),
            decision is Upsert ==> final(self).delay_spec() == old(self).delay_spec(),
            old(self).factor_spec() >= 1 && old(self).delay_spec() <= old(self).max_delay_spec()
                ==> old(self).delay_spec() <= final(self).delay_spec() <= final(self).max_delay_spec(),
    {
        if let Decision::Skip = decision {
            proof {
                if self.factor >= 1 && self.delay <= self.max_delay {
                    lemma_grown_delay_bounds(self.delay as int, self.factor as int, self.max_delay as int);
                }
            }
            self.delay = next_delay(self.delay, self.factor, self.max_delay);
        }
    }
}

/// Whether a failure stops the loop: a configuration error or a zone that
/// cannot be found; network and decode errors leave the next cycle to retry.
pub fn is_fatal(e: DdnsError) -> (r: bool)
    ensures
        r <==> (e == DdnsError::Configuration || e == DdnsError::NotFound),
{
    match e {
        DdnsError::Configuration | DdnsError::NotFound => true,
        DdnsError::Network | DdnsError::Decode => false,
    }
}

/// The wait never decreases over checks in a row that change nothing, each
/// step multiplies it by the factor clamped at the ceiling, and it never
/// exceeds the ceiling, however many checks there are.
pub proof fn lemma_backoff_bounded_monotone(initial: int, factor: int, ceiling: int, n: nat)
    requires
        0 <= initial <= ceiling,
        factor >= 1,
    ensures
        delay_after_skips(initial, factor, ceiling, n) <= delay_after_skips(
            initial,
            factor,
            ceiling,
            n + 1,
        ),
        delay_after_skips(initial, factor, ceiling, n + 1) == grown_delay(
            delay_after_skips(initial, factor, ceiling, n),
            factor,
            ceiling,
        ),
        0 <= delay_after_skips(initial, factor, ceiling, n) <= ceiling,
    decreases n,
{
    if n > 0 {
        lemma_backoff_bounded_monotone(initial, factor, ceiling, (n - 1) as nat);
    }
    let d = delay_after_skips(initial, factor, ceiling, n);
    assert(0 <= d <= ceiling);
    assert(d <= d * factor) by (nonlinear_arith)
        requires
            d >= 0,
            factor >= 1,
    ;
    assert(d * factor >= 0) by (nonlinear_arith)
        requires
            d >= 0,
            factor >= 1,
    ;
}

/// One growth step from a wait within the ceiling neither shortens the wait
/// nor takes it past the ceiling.
pub proof fn lemma_grown_delay_bounds(delay: int, factor: int, ceiling: int)
    requires
        0 <= delay <= ceiling,
        factor >= 1,
    ensures
        delay <= grown_delay(delay, factor, ceiling) <= ceiling,
{
    assert(delay <= delay * factor) by (nonlinear_arith)
        requires
            delay >= 0,
            factor >= 1,
    ;
}

/// The wait after a run of checks, any mix of checks that changed nothing
/// (`true`) and checks that wrote the record (`false`).
pub open spec fn delay_after_outcomes(initial: int, factor: int, ceiling: int, skips: Seq<bool>) -> int
    decreases skips.len(),
{
    if skips.len() == 0 {
        initial
    } else {
        let before = delay_after_outcomes(initial, factor, ceiling, skips.drop_last());
        if skips.last() {
            grown_delay(before, factor, ceiling)
        } else {
            before
        }
    }
}

/// Over any mix of skips and writes, the wait never falls below where it
/// started and never exceeds the ceiling.
pub proof fn lemma_backoff_within_bounds(initial: int, factor: int, ceiling: int, skips: Seq<bool>)
    requires
        0 <= initial <= ceiling,
        factor >= 1,
    ensures
        initial <= delay_after_outcomes(initial, factor, ceiling, skips) <= ceiling,
    decreases skips.len(),
{
    if skips.len() > 0 {
        lemma_backoff_within_bounds(initial, factor, ceiling, skips.drop_last());
        let before = delay_after_outcomes(initial, factor, ceiling, skips.drop_last());
        lemma_grown_delay_bounds(before, factor, ceiling);
    }
}

/// How many of the successive zone listings `listings` a client with cache
/// `cached` asks for: one each time a record operation finds no identifier
/// cached. Each step is what `DnsProvider::accept_zones` states of the
/// cached identifier and of `zone_listings_taken`.
pub open spec fn zone_listings_requested(
    cached: Option<Seq<char>>,
    name: Seq<char>,
    listings: Seq<Seq<Zone>>,
) -> nat
    decreases listings.len(),
{
    if listings.len() == 0 {
        0
    } else {
        let rest = listings.subrange(1, listings.len() as int);
        match cached {
            Some(_) => zone_listings_requested(cached, name, rest),
            None => 1 + zone_listings_requested(
                zone_id_after_listing(None, listings[0], name),
                name,
                rest,
            ),
        }
    }
}

/// Once a zone identifier is cached, no record operation asks for the
/// zone listing again.
pub proof fn lemma_cached_zone_never_relisted(id: Seq<char>, name: Seq<char>, listings: Seq<Seq<Zone>>)
    ensures
        zone_listings_requested(Some(id), name, listings) == 0,
    decreases listings.len(),
{
    if listings.len() > 0 {
        lemma_cached_zone_never_relisted(id, name, listings.subrange(1, listings.len() as int));
    }
}

/// A client resolves its zone identifier at most once in its lifetime: with
/// none cached, the first listing that holds the zone fills the cache and no
/// later record operation lists the zones again.
pub proof fn lemma_zone_resolved_at_most_once(
    cached: Option<Seq<char>>,
    name: Seq<char>,
    listings: Seq<Seq<Zone>>,
)
    requires
        cached is Some || (listings.len() > 0 && first_zone_id(listings[0], name) is Some),
    ensures
        zone_listings_requested(cached, name, listings) <= 1,
{
    match cached {
        Some(id) => lemma_cached_zone_never_relisted(id, name, listings),
        None => {
            let filled = zone_id_after_listing(None, listings[0], name);
            let id = filled->Some_0;
            lemma_cached_zone_never_relisted(id, name, listings.subrange(1, listings.len() as int));
        },
    }
}

} // verus!
