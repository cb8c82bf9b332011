//! The observation store: validation of incoming readings and the bounded
//! FIFO retention window with filtered, sorted queries.

use vstd::prelude::*;
use vstd::string::StringExecFns;
use std::collections::VecDeque;
use crate::errors::AppError;
use crate::models::{SensorReading, SignalCode, StoredObservation};
use crate::text::{is_blank, str_eq, str_is_blank};

verus! {

/// Capacity of the retention window: older observations are evicted first.
pub const MAX_BUFFER: usize = 2000;

/// Upper bound that a query's requested limit is clamped to.
pub const MAX_QUERY_LIMIT: usize = 2000;

/// The shared application state: the retention window plus the identifiers
/// used by the demo deployment.
#[derive(Debug)]
pub struct AppState {
    pub observations: VecDeque<StoredObservation>,
    pub demo_patient_id: String,
    pub demo_device_id: String,
}

/// A small summary of the window for display and debugging.
#[derive(Debug, Clone, Copy)]
pub struct Summary {
    pub count: usize,
    pub latest_ts: Option<i64>,
}

/// The window after appending `o`: the oldest observation is evicted first
/// whenever the window is full.
pub open spec fn spec_add(w: Seq<StoredObservation>, o: StoredObservation) -> Seq<
    StoredObservation,
> {
    if w.len() >= MAX_BUFFER {
        w.subrange(1, w.len() as int).push(o)
    } else {
        w.push(o)
    }
}

/// Whether `v` (in thousandths) lies in the accepted range for `code`.
pub open spec fn value_in_range(code: SignalCode, v: i64) -> bool {
    match code {
        SignalCode::HeartRate => 20000 <= v <= 240000,
        SignalCode::BodyTemperature => 30000 <= v <= 45000,
        SignalCode::StepsPerMinute => 0 <= v <= 400000,
    }
}

/// Whether `u` is an accepted unit string for `code`.
pub open spec fn unit_ok(code: SignalCode, u: Seq<char>) -> bool {
    match code {
        SignalCode::HeartRate => u == "beats/min"@ || u == "bpm"@,
        SignalCode::BodyTemperature => u == "C"@ || u == "\u{b0}C"@,
        SignalCode::StepsPerMinute => u == "steps/min"@,
    }
}

/// A reading passes validation: non-blank identifiers, in-range value, and
/// an accepted unit for its signal kind.
pub open spec fn valid_reading(r: SensorReading) -> bool {
    &&& !is_blank(r.device_id@)
    &&& !is_blank(r.patient_id@)
    &&& value_in_range(r.code, r.value_milli)
    &&& unit_ok(r.code, r.unit@)
}

/// The reason reported for the first rule an invalid reading breaks,
/// checked in the order: identifiers, value range, unit.
pub open spec fn validation_reason(r: SensorReading) -> Seq<char> {
    if is_blank(r.device_id@) || is_blank(r.patient_id@) {
        "device_id and patient_id are required"@
    } else if !value_in_range(r.code, r.value_milli) {
        match r.code {
            SignalCode::HeartRate => "heart-rate out of range (20..240)"@,
            SignalCode::BodyTemperature => "body-temperature out of range (30..45)"@,
            SignalCode::StepsPerMinute => "steps-per-minute out of range (0..400)"@,
        }
    } else {
        match r.code {
            SignalCode::HeartRate => "heart-rate unit should be 'beats/min' or 'bpm'"@,
            SignalCode::BodyTemperature => "body-temperature unit should be 'C' or '\u{b0}C'"@,
            SignalCode::StepsPerMinute => "steps-per-minute unit should be 'steps/min'"@,
        }
    }
}

impl AppState {
    /// The window never holds more than `MAX_BUFFER` observations.
    pub open spec fn wf(&self) -> bool {
        self.observations@.len() <= MAX_BUFFER
    }

    /// A fresh state with an empty window and the demo identifiers.
    pub fn new_demo() -> (s: Self)
        ensures
            s.wf(),
            s.observations@ == Seq::<StoredObservation>::empty(),
            s.demo_patient_id@ == "patient-001"@,
            s.demo_device_id@ == "device-001"@,
    {
        AppState {
            observations: VecDeque::with_capacity(MAX_BUFFER),
            demo_patient_id: String::from_str("patient-001"),
            demo_device_id: String::from_str("device-001"),
        }
    }

    /// Accepts or rejects a reading by the signal-specific rules; pure, with
    /// no effect on the state. Returns `Ok` exactly on valid readings, and
    /// otherwise the validation error with the reason for the first broken
    /// rule.
    pub fn validate(&self, r: &SensorReading) -> (res: Result<(), AppError>)
        ensures
            res is Ok <==> valid_reading(*r),
            res matches Err(e) ==> e matches AppError::Validation(m) && m@ == validation_reason(
                *r,
            ),
    {
        if str_is_blank(r.device_id.as_str()) || str_is_blank(r.patient_id.as_str()) {
            return Err(
                AppError::Validation(String::from_str("device_id and patient_id are required")),
            );
        }
        match r.code {
            SignalCode::HeartRate => {
                if !(20000 <= r.value_milli && r.value_milli <= 240000) {
                    return Err(
                        AppError::Validation(String::from_str("heart-rate out of range (20..240)")),
                    );
                }
                if !str_eq(r.unit.as_str(), "beats/min") && !str_eq(r.unit.as_str(), "bpm") {
                    return Err(
                        AppError::Validation(
                            String::from_str("heart-rate unit should be 'beats/min' or 'bpm'"),
                        ),
                    );
                }
            },
            SignalCode::BodyTemperature => {
                if !(30000 <= r.value_milli && r.value_milli <= 45000) {
                    return Err(
                        AppError::Validation(
                            String::from_str("body-temperature out of range (30..45)"),
                        ),
                    );
                }
                if !str_eq(r.unit.as_str(), "C") && !str_eq(r.unit.as_str(), "\u{b0}C") {
                    return Err(
                        AppError::Validation(
                            String::from_str("body-temperature unit should be 'C' or '\u{b0}C'"),
                        ),
                    );
                }
            },
            SignalCode::StepsPerMinute => {
                if !(0 <= r.value_milli && r.value_milli <= 400000) {
                    return Err(
                        AppError::Validation(
                            String::from_str("steps-per-minute out of range (0..400)"),
                        ),
                    );
                }
                if !str_eq(r.unit.as_str(), "steps/min") {
                    return Err(
                        AppError::Validation(
                            String::from_str("steps-per-minute unit should be 'steps/min'"),
                        ),
                    );
                }
            },
        }
        Ok(())
    }

    /// Stores a reading that already passed validation: assigns a fresh
    /// identifier, appends the observation, evicts the oldest entry if the
    /// window was full, and returns the stored observation (the new last
    /// element of the window).
    pub fn add_reading(&mut self, reading: SensorReading) -> (obs: StoredObservation)
        requires
            old(self).wf(),
        ensures
            final(self).wf(),
            final(self).observations@ == spec_add(old(self).observations@, obs),
            obs.reading == reading,
            obs.id@.len() == 36,
            final(self).observations@.last() == obs,
            final(self).demo_patient_id == old(self).demo_patient_id,
            final(self).demo_device_id == old(self).demo_device_id,
    {
        let obs = StoredObservation { id: new_uuid_str(), reading };
        if self.observations.len() >= MAX_BUFFER {
            self.observations.pop_front();
        }
        self.observations.push_back(obs.clone());
        obs
    }
}

/// Whether an observation passes the query filters: kind equality and the
/// inclusive timestamp bounds, each only if given.
pub open spec fn obs_matches(
    o: StoredObservation,
    code: Option<SignalCode>,
    from: Option<i64>,
    to: Option<i64>,
) -> bool {
    &&& match code {
        Some(c) => o.reading.code == c,
        None => true,
    }
    &&& match from {
        Some(f) => o.reading.ts_millis >= f,
        None => true,
    }
    &&& match to {
        Some(t) => o.reading.ts_millis <= t,
        None => true,
    }
}

/// The subsequence of `w` passing the filters, in window order.
pub open spec fn filtered(
    w: Seq<StoredObservation>,
    code: Option<SignalCode>,
    from: Option<i64>,
    to: Option<i64>,
) -> Seq<StoredObservation>
    decreases w.len(),
{
    if w.len() == 0 {
        Seq::empty()
    } else {
        filtered(w.drop_last(), code, from, to) + if obs_matches(w.last(), code, from, to) {
            seq![w.last()]
        } else {
            Seq::empty()
        }
    }
}

/// The index of the first element with timestamp greater than `t`, or the
/// length when there is none.
pub open spec fn first_gt(s: Seq<StoredObservation>, t: i64) -> int
    decreases s.len(),
{
    if s.len() == 0 {
        0
    } else if s[0].reading.ts_millis > t {
        0
    } else {
        1 + first_gt(s.drop_first(), t)
    }
}

/// Stable insertion by timestamp: `o` goes after every element whose
/// timestamp is not greater than its own.
pub open spec fn insert_by_ts(s: Seq<StoredObservation>, o: StoredObservation) -> Seq<
    StoredObservation,
> {
    let k = first_gt(s, o.reading.ts_millis);
    s.subrange(0, k) + seq![o] + s.subrange(k, s.len() as int)
}

/// Stable insertion sort by timestamp, taking elements in their original
/// order.
pub open spec fn sort_by_ts(s: Seq<StoredObservation>) -> Seq<StoredObservation>
    decreases s.len(),
{
    if s.len() == 0 {
        s
    } else {
        insert_by_ts(sort_by_ts(s.drop_last()), s.last())
    }
}

/// Ascending by timestamp.
pub open spec fn sorted_by_ts(s: Seq<StoredObservation>) -> bool {
    forall|i: int, j: int|
        0 <= i < j < s.len() ==> s[i].reading.ts_millis <= s[j].reading.ts_millis
}

/// What a query returns: the matching observations sorted ascending by
/// timestamp, keeping only the most recent `limit` of them (clamped to the
/// global maximum).
pub open spec fn spec_query(
    w: Seq<StoredObservation>,
    code: Option<SignalCode>,
    from: Option<i64>,
    to: Option<i64>,
    limit: int,
) -> Seq<StoredObservation> {
    let s = sort_by_ts(filtered(w, code, from, to));
    let cap = if limit < MAX_QUERY_LIMIT {
        limit
    } else {
        MAX_QUERY_LIMIT as int
    };
    let k = if cap < 0 {
        0
    } else if cap < s.len() {
        cap
    } else {
        s.len() as int
    };
    s.subrange(s.len() - k, s.len() as int)
}

proof fn lemma_first_gt_bounds(s: Seq<StoredObservation>, t: i64)
    ensures
        0 <= first_gt(s, t) <= s.len(),
        forall|j: int| 0 <= j < first_gt(s, t) ==> s[j].reading.ts_millis <= t,
        first_gt(s, t) < s.len() ==> s[first_gt(s, t)].reading.ts_millis > t,
    decreases s.len(),
{
    if s.len() == 0 {
    } else if s[0].reading.ts_millis > t {
    } else {
        lemma_first_gt_bounds(s.drop_first(), t);
        assert forall|j: int| 0 <= j < first_gt(s, t) implies s[j].reading.ts_millis <= t by {
            if j > 0 {
                assert(s.drop_first()[j - 1] == s[j]);
            }
        }
        if first_gt(s, t) < s.len() {
            assert(s.drop_first()[first_gt(s.drop_first(), t)] == s[first_gt(s, t)]);
        }
    }
}

proof fn lemma_first_gt_is(s: Seq<StoredObservation>, t: i64, k: int)
    requires
        0 <= k <= s.len(),
        forall|j: int| 0 <= j < k ==> s[j].reading.ts_millis <= t,
        k < s.len() ==> s[k].reading.ts_millis > t,
    ensures
        first_gt(s, t) == k,
    decreases s.len(),
{
    if s.len() == 0 {
    } else if s[0].reading.ts_millis > t {
        assert(k == 0);
    } else {
        assert(k > 0);
        lemma_first_gt_is(s.drop_first(), t, k - 1);
    }
}

proof fn lemma_insert_sorted(s: Seq<StoredObservation>, o: StoredObservation)
    requires
        sorted_by_ts(s),
    ensures
        sorted_by_ts(insert_by_ts(s, o)),
        insert_by_ts(s, o).len() == s.len() + 1,
{
    let t = o.reading.ts_millis;
    let k = first_gt(s, t);
    lemma_first_gt_bounds(s, t);
    let r = insert_by_ts(s, o);
    assert forall|i: int, j: int| 0 <= i < j < r.len() implies r[i].reading.ts_millis
        <= r[j].reading.ts_millis by {
        if i < k {
            assert(r[i] == s[i]);
        } else if i == k {
            assert(r[i] == o);
        } else {
            assert(r[i] == s[i - 1]);
        }
        if j < k {
            assert(r[j] == s[j]);
        } else if j == k {
            assert(r[j] == o);
            assert(i < k);
            assert(s[i].reading.ts_millis <= t);
        } else {
            assert(r[j] == s[j - 1]);
            if i <= k {
                assert(k < s.len());
                assert(s[k].reading.ts_millis > t);
                assert(s[k].reading.ts_millis <= s[j - 1].reading.ts_millis);
                if i < k {
                    assert(s[i].reading.ts_millis <= t);
                }
            }
        }
    }
}

proof fn lemma_insert_contains(s: Seq<StoredObservation>, o: StoredObservation)
    ensures
        forall|x: StoredObservation|
            insert_by_ts(s, o).contains(x) <==> (s.contains(x) || x == o),
{
    let t = o.reading.ts_millis;
    let k = first_gt(s, t);
    lemma_first_gt_bounds(s, t);
    let r = insert_by_ts(s, o);
    assert forall|x: StoredObservation| r.contains(x) <==> (s.contains(x) || x == o) by {
        if r.contains(x) {
            let i = choose|i: int| 0 <= i < r.len() && r[i] == x;
            if i < k {
                assert(s[i] == x);
            } else if i == k {
                assert(x == o);
            } else {
                assert(s[i - 1] == x);
            }
        }
        if s.contains(x) {
            let i = choose|i: int| 0 <= i < s.len() && s[i] == x;
            if i < k {
                assert(r[i] == x);
            } else {
                assert(r[i + 1] == x);
            }
        }
        if x == o {
            assert(r[k] == x);
        }
    }
}

proof fn lemma_sort_props(s: Seq<StoredObservation>)
    ensures
        sort_by_ts(s).len() == s.len(),
        sorted_by_ts(sort_by_ts(s)),
        forall|x: StoredObservation| sort_by_ts(s).contains(x) <==> s.contains(x),
    decreases s.len(),
{
    if s.len() == 0 {
    } else {
        let p = s.drop_last();
        lemma_sort_props(p);
        lemma_insert_sorted(sort_by_ts(p), s.last());
        lemma_insert_contains(sort_by_ts(p), s.last());
        assert forall|x: StoredObservation| sort_by_ts(s).contains(x) <==> s.contains(x) by {
            if p.contains(x) {
                let i = choose|i: int| 0 <= i < p.len() && p[i] == x;
                assert(s[i] == x);
            }
            if s.contains(x) {
                let i = choose|i: int| 0 <= i < s.len() && s[i] == x;
                if i < p.len() {
                    assert(p[i] == x);
                } else {
                    assert(x == s.last());
                }
            }
        }
    }
}

proof fn lemma_filtered_contains(
    w: Seq<StoredObservation>,
    code: Option<SignalCode>,
    from: Option<i64>,
    to: Option<i64>,
    x: StoredObservation,
)
    requires
        filtered(w, code, from, to).contains(x),
    ensures
        w.contains(x),
        obs_matches(x, code, from, to),
    decreases w.len(),
{
    let f = filtered(w, code, from, to);
    let p = w.drop_last();
    let fp = filtered(p, code, from, to);
    let i = choose|i: int| 0 <= i < f.len() && f[i] == x;
    if i < fp.len() {
        assert(f[i] == fp[i]);
        assert(fp.contains(x));
        lemma_filtered_contains(p, code, from, to, x);
        let j = choose|j: int| 0 <= j < p.len() && p[j] == x;
        assert(w[j] == p[j]);
        assert(w.contains(x));
    } else {
        assert(f[i] == w.last());
        assert(w[w.len() - 1] == x);
        assert(w.contains(x));
    }
}

fn matches_filters(
    o: &StoredObservation,
    code: &Option<SignalCode>,
    from: &Option<i64>,
    to: &Option<i64>,
) -> (r: bool)
    ensures
        r == obs_matches(*o, *code, *from, *to),
{
    let code_ok = match code {
        Some(c) => o.reading.code == *c,
        None => true,
    };
    let from_ok = match from {
        Some(f) => o.reading.ts_millis >= *f,
        None => true,
    };
    let to_ok = match to {
        Some(t) => o.reading.ts_millis <= *t,
        None => true,
    };
    code_ok && from_ok && to_ok
}

impl AppState {
    /// Returns the observations passing the filters, sorted ascending by
    /// timestamp; when more than `limit` match (clamped to
    /// `MAX_QUERY_LIMIT`), the oldest matching ones are dropped first.
    pub fn query(
        &self,
        code: Option<SignalCode>,
        limit: usize,
        from: Option<i64>,
        to: Option<i64>,
    ) -> (r: Vec<StoredObservation>)
        ensures
            r@ == spec_query(self.observations@, code, from, to, limit as int),
            sorted_by_ts(r@),
            r@.len() <= limit,
            r@.len() <= MAX_QUERY_LIMIT,
            forall|i: int|
                0 <= i < r@.len() ==> self.observations@.contains(r@[i]) && obs_matches(
                    r@[i],
                    code,
                    from,
                    to,
                ),
    {
        let w = &self.observations;
        let n = w.len();
        let mut sorted_vec: Vec<StoredObservation> = Vec::new();
        let mut i: usize = 0;
        while i < n
            invariant
                n == w@.len(),
                0 <= i <= n,
                sorted_vec@ == sort_by_ts(filtered(w@.take(i as int), code, from, to)),
                sorted_by_ts(sorted_vec@),
            decreases n - i,
        {
            let o = &w[i];
            if matches_filters(o, &code, &from, &to) {
                let t = o.reading.ts_millis;
                let mut p: usize = 0;
                while p < sorted_vec.len() && sorted_vec[p].reading.ts_millis <= t
                    invariant
                        0 <= p <= sorted_vec@.len(),
                        forall|j: int| 0 <= j < p ==> sorted_vec@[j].reading.ts_millis <= t,
                    decreases sorted_vec@.len() - p,
                {
                    p += 1;
                }
                proof {
                    lemma_first_gt_is(sorted_vec@, t, p as int);
                }
                sorted_vec.insert(p, o.clone());
                proof {
                    let f = filtered(w@.take(i as int), code, from, to);
                    let f1 = filtered(w@.take(i + 1 as int), code, from, to);
                    assert(w@.take(i + 1 as int).drop_last() =~= w@.take(i as int));
                    assert(w@.take(i + 1 as int).last() == w@[i as int]);
                    assert(f1 =~= f.push(*o));
                    assert(f.push(*o).drop_last() =~= f);
                    assert(sort_by_ts(f1) == insert_by_ts(sort_by_ts(f), *o));
                    assert(sorted_vec@ =~= insert_by_ts(sort_by_ts(f), *o));
                    lemma_sort_props(f1);
                }
            } else {
                proof {
                    let f = filtered(w@.take(i as int), code, from, to);
                    let f1 = filtered(w@.take(i + 1 as int), code, from, to);
                    assert(w@.take(i + 1 as int).drop_last() =~= w@.take(i as int));
                    assert(w@.take(i + 1 as int).last() == w@[i as int]);
                    assert(f1 =~= f);
                }
            }
            i += 1;
        }
        proof {
            assert(w@.take(n as int) =~= w@);
        }
        let eff: usize = if limit < MAX_QUERY_LIMIT {
            limit
        } else {
            MAX_QUERY_LIMIT
        };
        let total = sorted_vec.len();
        let start: usize = if total > eff {
            total - eff
        } else {
            0
        };
        let mut out: Vec<StoredObservation> = Vec::new();
        let mut j: usize = start;
        while j < total
            invariant
                total == sorted_vec@.len(),
                start <= j <= total,
                out@ == sorted_vec@.subrange(start as int, j as int),
            decreases total - j,
        {
            out.push(sorted_vec[j].clone());
            proof {
                assert(sorted_vec@.subrange(start as int, j + 1 as int) =~= sorted_vec@.subrange(
                    start as int,
                    j as int,
                ).push(sorted_vec@[j as int]));
            }
            j += 1;
        }
        proof {
            let s = sort_by_ts(filtered(self.observations@, code, from, to));
            assert(out@ == spec_query(self.observations@, code, from, to, limit as int));
            lemma_sort_props(filtered(self.observations@, code, from, to));
            assert forall|k: int| 0 <= k < out@.len() implies self.observations@.contains(out@[k])
                && obs_matches(out@[k], code, from, to) by {
                assert(s[start as int + k] == out@[k]);
                assert(s.contains(out@[k]));
                assert(filtered(self.observations@, code, from, to).contains(out@[k]));
                lemma_filtered_contains(self.observations@, code, from, to, out@[k]);
            }
        }
        out
    }
}

/// Relies on `uuid::Uuid::new_v4` and its `Display` rendering: a fresh
/// random version-4 UUID in the 36-character hyphenated form. The value is
/// random, so nothing is promised beyond its length.
#[verifier::external_body]
fn new_uuid_str() -> (r: String)
    ensures
        r@.len() == 36,
{
    uuid::Uuid::new_v4().to_string()
}

/// The window stays within capacity, and exactly at capacity the evicted
/// element is the chronologically first one: strict FIFO.
pub proof fn lemma_add_fifo(w: Seq<StoredObservation>, o: StoredObservation)
    requires
        w.len() <= MAX_BUFFER,
    ensures
        spec_add(w, o).len() <= MAX_BUFFER,
        w.len() < MAX_BUFFER ==> spec_add(w, o) == w.push(o),
        w.len() == MAX_BUFFER ==> spec_add(w, o) == w.subrange(1, w.len() as int).push(o),
{
}

/// Query results are always sorted ascending by timestamp, and their count
/// never exceeds the requested limit nor the global maximum.
pub proof fn lemma_query_sorted_bounded(
    w: Seq<StoredObservation>,
    code: Option<SignalCode>,
    from: Option<i64>,
    to: Option<i64>,
    limit: int,
)
    requires
        limit >= 0,
    ensures
        sorted_by_ts(spec_query(w, code, from, to, limit)),
        spec_query(w, code, from, to, limit).len() <= limit,
        spec_query(w, code, from, to, limit).len() <= MAX_QUERY_LIMIT,
{
    lemma_sort_props(filtered(w, code, from, to));
    let s = sort_by_ts(filtered(w, code, from, to));
    let r = spec_query(w, code, from, to, limit);
    assert forall|i: int, j: int| 0 <= i < j < r.len() implies r[i].reading.ts_millis
        <= r[j].reading.ts_millis by {
        let d = s.len() - r.len();
        assert(r[i] == s[d + i]);
        assert(r[j] == s[d + j]);
    }
}

/// Round trip: every observation a query returns is an element of the
/// window — identifier included, exactly the value returned by the add
/// that stored it — and passes the query's filters.
pub proof fn lemma_query_round_trip(
    w: Seq<StoredObservation>,
    code: Option<SignalCode>,
    from: Option<i64>,
    to: Option<i64>,
    limit: int,
)
    ensures
        forall|i: int|
            0 <= i < spec_query(w, code, from, to, limit).len() ==> w.contains(
                spec_query(w, code, from, to, limit)[i],
            ) && obs_matches(spec_query(w, code, from, to, limit)[i], code, from, to),
{
    lemma_sort_props(filtered(w, code, from, to));
    let s = sort_by_ts(filtered(w, code, from, to));
    let r = spec_query(w, code, from, to, limit);
    assert forall|i: int| 0 <= i < r.len() implies w.contains(r[i]) && obs_matches(
        r[i],
        code,
        from,
        to,
    ) by {
        let d = s.len() - r.len();
        assert(r[i] == s[d + i]);
        assert(s.contains(r[i]));
        assert(filtered(w, code, from, to).contains(r[i]));
        lemma_filtered_contains(w, code, from, to, r[i]);
    }
}

/// The window after a batch of additions, applied oldest first.
pub open spec fn add_all(w: Seq<StoredObservation>, os: Seq<StoredObservation>) -> Seq<
    StoredObservation,
>
    decreases os.len(),
{
    if os.len() == 0 {
        w
    } else {
        spec_add(add_all(w, os.drop_last()), os.last())
    }
}

/// Adding any batch of observations to an empty window keeps exactly the
/// most recent `min(N, MAX_BUFFER)` of them, in order: no observation is
/// lost or reordered except by FIFO eviction.
pub proof fn lemma_add_all_window(os: Seq<StoredObservation>)
    ensures
        add_all(Seq::empty(), os) == os.subrange(
            if os.len() <= MAX_BUFFER {
                0
            } else {
                os.len() - MAX_BUFFER
            },
            os.len() as int,
        ),
    decreases os.len(),
{
    if os.len() == 0 {
        assert(add_all(Seq::empty(), os) =~= os.subrange(0, os.len() as int));
    } else {
        let prev = os.drop_last();
        lemma_add_all_window(prev);
        let d = if prev.len() <= MAX_BUFFER {
            0
        } else {
            prev.len() - MAX_BUFFER
        };
        let w = add_all(Seq::empty(), prev);
        assert(w == prev.subrange(d as int, prev.len() as int));
        let dd = if os.len() <= MAX_BUFFER {
            0
        } else {
            os.len() - MAX_BUFFER
        };
        assert(spec_add(w, os.last()) =~= os.subrange(dd as int, os.len() as int));
    }
}

} // verus!
