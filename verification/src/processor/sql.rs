//! The SQL processor's streaming state: window triggers, timestamps and the
//! per-key state kept across window fires.
//!
//! Executing the query itself is the embedding's work. Fixed and verified
//! here: when a tumbling, sliding or session window fires, how the event
//! timestamp is read out of a batch, how the last-seen timestamp advances,
//! when the per-key state expires, and how a fired window's result updates
//! that state.

use crate::batch::{CellV, CellValue, RecordBatch, RecordBatchV};
use crate::error::Error;
use vstd::arithmetic::div_mod::lemma_fundamental_div_mod;
use vstd::prelude::*;
use vstd::string::StrSliceExecFns;
use vstd::string::StringExecFns;

verus! {

/// The window kinds of a streaming query.
#[derive(Clone, Copy, Debug, PartialEq, Eq, Structural)]
pub enum WindowType {
    /// Fixed size, no overlap.
    Tumbling,
    /// Fixed size, sliding by a configured step.
    Sliding,
    /// Bounded by a gap of inactivity.
    Session,
}

/// Window configuration of a streaming SQL query.
pub struct WindowConfig {
    /// The window kind.
    pub window_type: WindowType,
    /// Window size in milliseconds.
    pub size_ms: u64,
    /// Slide step in milliseconds (sliding windows only).
    pub slide_ms: Option<u64>,
    /// Session gap in milliseconds (session windows only).
    pub timeout_ms: Option<u64>,
    /// The field carrying the event timestamp.
    pub timestamp_field: String,
    /// Watermark delay in milliseconds.
    pub watermark_delay_ms: u64,
}

impl WindowConfig {
    /// A usable window: positive sizes, everything within the timestamp
    /// domain.
    pub open spec fn wf(self) -> bool {
        &&& 1 <= self.size_ms <= i64::MAX
        &&& (self.slide_ms matches Some(s) ==> 1 <= s <= i64::MAX)
        &&& (self.timeout_ms matches Some(t) ==> t <= i64::MAX)
        &&& self.watermark_delay_ms <= i64::MAX
    }
}

/// SQL processor configuration.
pub struct SqlProcessorConfig {
    /// The query to run.
    pub query: String,
    /// The table name the query reads from.
    pub table_name: String,
    /// Window settings; present for streaming queries.
    pub window: Option<WindowConfig>,
    /// How long per-key state is kept, in milliseconds; zero keeps it
    /// forever.
    pub state_ttl_ms: Option<u64>,
    /// The field the result is stored under, when not replacing the content.
    pub target: Option<String>,
}

/// Whether a tumbling or sliding window fires: the timestamp plus the
/// watermark delay has passed the end of the period the timestamp falls in.
pub open spec fn spec_period_trigger(ts: int, period: int, delay: int) -> bool {
    ts + delay >= (ts / period + 1) * period
}

/// Whether a session window fires: a previous timestamp exists and the gap
/// to the new one exceeds the session timeout.
pub open spec fn spec_session_trigger(ts: int, last_ts: int, timeout: int) -> bool {
    last_ts > 0 && ts - last_ts > timeout
}

/// Whether the window fires on a batch with the given event timestamp, with
/// `last_timestamp` the latest timestamp seen before it (zero when none).
pub open spec fn spec_should_trigger(config: WindowConfig, ts: int, last_ts: int) -> bool {
    match config.window_type {
        WindowType::Tumbling => spec_period_trigger(
            ts,
            config.size_ms as int,
            config.watermark_delay_ms as int,
        ),
        WindowType::Sliding => spec_period_trigger(
            ts,
            (match config.slide_ms {
                Some(s) => s,
                None => config.size_ms,
            }) as int,
            config.watermark_delay_ms as int,
        ),
        WindowType::Session => spec_session_trigger(
            ts,
            last_ts,
            (match config.timeout_ms {
                Some(t) => t,
                None => 30000,
            }) as int,
        ),
    }
}

/// The period arithmetic behind tumbling and sliding windows: fires when the
/// timestamp plus the watermark delay reaches the end of its period.
fn period_trigger(timestamp: i64, period: u64, delay: u64) -> (r: bool)
    requires
        timestamp >= 0,
        1 <= period <= i64::MAX,
        delay <= i64::MAX,
        timestamp + period <= i64::MAX,
        timestamp + delay <= i64::MAX,
    ensures
        r == spec_period_trigger(timestamp as int, period as int, delay as int),
{
    let t = timestamp as u64;
    let q = t / period;
    proof {
        let ti = t as int;
        let pi = period as int;
        lemma_fundamental_div_mod(ti, pi);
        vstd::arithmetic::div_mod::lemma_mod_bound(ti, pi);
        assert(ti == pi * (ti / pi) + ti % pi);
        assert(q == ti / pi);
        assert(pi * (ti / pi) <= ti);
        assert((q as int) * pi <= ti) by (nonlinear_arith)
            requires
                pi * (ti / pi) <= ti,
                q == ti / pi,
        ;
        assert((q + 1) * period == q * period + period) by (nonlinear_arith);
        assert((q + 1) * period <= t + period);
    }
    let window_end = (q + 1) * period;
    t + delay >= window_end
}

/// Whether the configured window fires on a batch with the given event
/// timestamp; `last_timestamp` is the latest timestamp seen before it, zero
/// when none was.
pub fn should_trigger(config: &WindowConfig, timestamp: i64, last_timestamp: i64) -> (r: bool)
    requires
        config.wf(),
        0 <= timestamp,
        0 <= last_timestamp,
        timestamp + config.size_ms <= i64::MAX,
        config.slide_ms matches Some(s) ==> timestamp + s <= i64::MAX,
        timestamp + config.watermark_delay_ms <= i64::MAX,
    ensures
        r == spec_should_trigger(*config, timestamp as int, last_timestamp as int),
{
    match config.window_type {
        WindowType::Tumbling => period_trigger(
            timestamp,
            config.size_ms,
            config.watermark_delay_ms,
        ),
        WindowType::Sliding => {
            let slide = match config.slide_ms {
                Some(s) => s,
                None => config.size_ms,
            };
            period_trigger(timestamp, slide, config.watermark_delay_ms)
        },
        WindowType::Session => {
            let timeout = match config.timeout_ms {
                Some(t) => t,
                None => 30000u64,
            };
            last_timestamp > 0 && timestamp - last_timestamp > timeout as i64
        },
    }
}

/// The last-seen timestamp advances monotonically: the newer of the two.
pub fn update_last_timestamp(last_timestamp: i64, timestamp: i64) -> (r: i64)
    ensures
        r == (if timestamp > last_timestamp {
            timestamp
        } else {
            last_timestamp
        }),
        r >= last_timestamp,
        r >= timestamp,
{
    if timestamp > last_timestamp {
        timestamp
    } else {
        last_timestamp
    }
}

/// Whether the kept per-key state has expired: a positive time-to-live that
/// the time since the last update exceeds.
pub fn state_expired(now_ms: u64, last_update_ms: u64, ttl_ms: u64) -> (r: bool)
    requires
        last_update_ms <= now_ms,
    ensures
        r == (ttl_ms > 0 && now_ms - last_update_ms > ttl_ms),
{
    ttl_ms > 0 && now_ms - last_update_ms > ttl_ms
}

/// A digit character.
pub open spec fn is_digit(c: char) -> bool {
    '0' <= c && c <= '9'
}

/// A non-empty string of digits.
pub open spec fn all_digits(s: Seq<char>) -> bool {
    s.len() >= 1 && forall|i: int| 0 <= i < s.len() ==> is_digit(#[trigger] s[i])
}

/// The number a string of digits denotes, most significant first.
pub open spec fn digits_value(s: Seq<char>) -> int
    decreases s.len(),
{
    if s.len() == 0 {
        0
    } else {
        digits_value(s.drop_last()) * 10 + (s.last() as int - '0' as int)
    }
}

/// A string of digits denotes a non-negative number.
proof fn lemma_digits_value_nonneg(s: Seq<char>)
    requires
        forall|i: int| 0 <= i < s.len() ==> is_digit(#[trigger] s[i]),
    ensures
        digits_value(s) >= 0,
    decreases s.len(),
{
    if s.len() > 0 {
        assert(forall|i: int|
            0 <= i < s.drop_last().len() ==> is_digit(#[trigger] s.drop_last()[i]));
        lemma_digits_value_nonneg(s.drop_last());
    }
}

/// A prefix of a digit string denotes at most the whole string's number.
proof fn lemma_digits_value_take(s: Seq<char>, m: int)
    requires
        forall|i: int| 0 <= i < s.len() ==> is_digit(#[trigger] s[i]),
        0 <= m <= s.len(),
    ensures
        digits_value(s.take(m)) <= digits_value(s),
    decreases s.len() - m,
{
    if m < s.len() {
        let prefix = s.drop_last();
        assert(forall|i: int| 0 <= i < prefix.len() ==> is_digit(#[trigger] prefix[i]));
        assert(s.take(m) =~= prefix.take(m));
        lemma_digits_value_take(prefix, m);
        lemma_digits_value_nonneg(prefix);
        assert(digits_value(s) == digits_value(prefix) * 10 + (s.last() as int - '0' as int));
        assert(digits_value(prefix) * 10 >= digits_value(prefix)) by (nonlinear_arith)
            requires
                digits_value(prefix) >= 0,
        ;
    } else {
        assert(s.take(m) =~= s);
    }
}

/// Parse a decimal timestamp: the number a non-empty string of digits
/// denotes. Anything else — other characters, an empty string, or a number
/// beyond the timestamp domain — is a `Process` error.
pub fn parse_i64(s: &str) -> (r: Result<i64, Error>)
    ensures
        r is Ok <==> (all_digits(s@) && digits_value(s@) <= i64::MAX),
        r matches Ok(v) ==> v as int == digits_value(s@),
        r matches Err(e) ==> e is Process,
{
    let n = s.unicode_len();
    if n == 0 {
        return Err(Error::Process(String::from_str("empty timestamp")));
    }
    let mut v: i64 = 0;
    for i in 0..n
        invariant
            n == s@.len(),
            n >= 1,
            forall|k: int| 0 <= k < i ==> is_digit(#[trigger] s@[k]),
            0 <= v,
            v as int == digits_value(s@.take(i as int)),
    {
        let c = s.get_char(i);
        if !('0' <= c && c <= '9') {
            proof {
                assert(!is_digit(s@[i as int]));
            }
            return Err(Error::Process(String::from_str("timestamp is not a number")));
        }
        let d = (c as u32) - ('0' as u32);
        proof {
            assert(d <= 9);
        }
        if v > (i64::MAX - d as i64) / 10 {
            proof {
                assert(s@.take(i + 1 as int).drop_last() =~= s@.take(i as int));
                assert(s@.take(i + 1 as int).last() == s@[i as int]);
                assert(digits_value(s@.take(i + 1 as int)) == v * 10 + d);
                assert(v * 10 + d > i64::MAX) by (nonlinear_arith)
                    requires
                        v > (i64::MAX - d as i64) / 10,
                        0 <= d <= 9,
                        v >= 0,
                ;
                if all_digits(s@) && digits_value(s@) <= i64::MAX {
                    lemma_digits_value_take(s@, i + 1 as int);
                }
            }
            return Err(Error::Process(String::from_str("timestamp is out of range")));
        }
        proof {
            assert(v * 10 + d <= i64::MAX) by (nonlinear_arith)
                requires
                    v <= (i64::MAX - d as i64) / 10,
                    0 <= d <= 9,
                    v >= 0,
            ;
        }
        v = v * 10 + (d as i64);
        proof {
            assert(s@.take(i + 1 as int).drop_last() =~= s@.take(i as int));
            assert(s@.take(i + 1 as int).last() == s@[i as int]);
        }
    }
    proof {
        assert(s@.take(n as int) =~= s@);
    }
    Ok(v)
}

/// The timestamp a cell denotes: an integer cell directly, a textual cell
/// by decimal parsing; anything else carries none.
pub open spec fn ts_cell(c: CellV) -> Option<int> {
    match c {
        CellV::Int64(v) => Some(v as int),
        CellV::Utf8(s) => if all_digits(s) && digits_value(s) <= i64::MAX {
            Some(digits_value(s))
        } else {
            Option::None
        },
        _ => Option::None,
    }
}

/// The column position the timestamp is read from: the first field named by
/// the window's timestamp field, in a batch that has rows.
pub open spec fn spec_ts_source(bv: RecordBatchV, field: Seq<char>, i: int) -> bool {
    &&& 0 <= i < bv.schema.len()
    &&& bv.schema[i].name == field
    &&& (forall|k: int| 0 <= k < i ==> (#[trigger] bv.schema[k]).name != field)
    &&& bv.rows > 0
}

/// Read the event timestamp out of a batch: the first row of the first
/// column named by the window's timestamp field. The read succeeds exactly
/// when that field exists, the batch has rows, and the cell denotes a
/// timestamp; everything else is a `Process` error.
pub fn extract_timestamp(batch: &RecordBatch, window_config: &WindowConfig) -> (r: Result<
    i64,
    Error,
>)
    requires
        batch@.wf(),
    ensures
        r matches Err(e) ==> e is Process,
        r matches Ok(v) ==> exists|i: int|
            #[trigger] spec_ts_source(batch@, window_config.timestamp_field@, i) && ts_cell(
                batch@.columns[i][0],
            ) == Some(v as int),
        r is Ok <==> exists|i: int|
            #[trigger] spec_ts_source(batch@, window_config.timestamp_field@, i) && ts_cell(
                batch@.columns[i][0],
            ) is Some,
{
    let ghost field = window_config.timestamp_field@;
    let col = match batch.column_index_of(&window_config.timestamp_field) {
        Some(col) => col,
        None => {
            proof {
                assert(forall|i: int|
                    !spec_ts_source(batch@, field, i) || batch@.schema[i].name != field);
            }
            return Err(Error::Process(String::from_str("timestamp field does not exist")));
        },
    };
    if batch.num_rows() == 0 {
        return Err(Error::Process(String::from_str("the batch has no rows")));
    }
    proof {
        assert(spec_ts_source(batch@, field, col as int));
        lemma_ts_source_unique(batch@, field, col as int);
    }
    let column = batch.column(col);
    proof {
        assert(column@.map_values(|x: CellValue| x@)[0] == batch@.columns[col as int][0]);
    }
    match &column[0] {
        CellValue::Int64(v) => Ok(*v),
        CellValue::Utf8(s) => {
            proof {
                assert(batch@.columns[col as int][0] == CellV::Utf8(s@));
            }
            parse_i64(s.as_str())
        },
        _ => {
            proof {
                assert(ts_cell(batch@.columns[col as int][0]) is None);
            }
            Err(Error::Process(String::from_str("the timestamp cell is not a number")))
        },
    }
}

/// At most one column position reads the timestamp: the first match.
proof fn lemma_ts_source_unique(bv: RecordBatchV, field: Seq<char>, col: int)
    requires
        spec_ts_source(bv, field, col),
    ensures
        forall|i: int| #[trigger] spec_ts_source(bv, field, i) ==> i == col,
{
    assert forall|i: int| #[trigger] spec_ts_source(bv, field, i) implies i == col by {
        if i < col {
            assert(bv.schema[i].name != field);
        }
        if col < i {
            assert(bv.schema[col].name != field);
        }
    }
}

/// The index of the first entry under a key, or -1 when the key is absent.
pub open spec fn assoc_index(m: Seq<(Seq<char>, Seq<char>)>, k: Seq<char>) -> int
    decreases m.len(),
{
    if m.len() == 0 {
        -1
    } else if m[0].0 == k {
        0
    } else {
        let r = assoc_index(m.drop_first(), k);
        if r == -1 {
            -1
        } else {
            r + 1
        }
    }
}

/// The entry list as key/value views.
pub open spec fn assoc_view(m: Seq<(String, String)>) -> Seq<(Seq<char>, Seq<char>)> {
    m.map_values(|p: (String, String)| (p.0@, p.1@))
}

/// The first match from the front is what `assoc_index` names.
proof fn lemma_assoc_index_first(m: Seq<(Seq<char>, Seq<char>)>, k: Seq<char>, i: int)
    requires
        0 <= i < m.len(),
        m[i].0 == k,
        forall|j: int| 0 <= j < i ==> (#[trigger] m[j]).0 != k,
    ensures
        assoc_index(m, k) == i,
    decreases i,
{
    if i > 0 {
        assert(m[0].0 != k);
        let rest = m.drop_first();
        assert(rest[i - 1].0 == k);
        assert(forall|j: int| 0 <= j < i - 1 ==> (#[trigger] rest[j]).0 != k);
        lemma_assoc_index_first(rest, k, i - 1);
    }
}

/// A key absent from every entry has no index.
proof fn lemma_assoc_index_absent(m: Seq<(Seq<char>, Seq<char>)>, k: Seq<char>)
    requires
        forall|j: int| 0 <= j < m.len() ==> (#[trigger] m[j]).0 != k,
    ensures
        assoc_index(m, k) == -1,
    decreases m.len(),
{
    if m.len() > 0 {
        let rest = m.drop_first();
        assert(forall|j: int| 0 <= j < rest.len() ==> (#[trigger] rest[j]).0 != k);
        lemma_assoc_index_absent(rest, k);
    }
}

/// An entry list with one key set: the first entry under the key replaced,
/// or a new entry appended when the key is absent.
pub open spec fn spec_assoc_set(
    m: Seq<(Seq<char>, Seq<char>)>,
    k: Seq<char>,
    v: Seq<char>,
) -> Seq<(Seq<char>, Seq<char>)> {
    let i = assoc_index(m, k);
    if i == -1 {
        m.push((k, v))
    } else {
        m.update(i, (k, v))
    }
}

/// Set a key in the per-key state: the first entry under the key is
/// replaced, a new key is appended.
pub fn assoc_set(map: &mut Vec<(String, String)>, key: String, value: String)
    ensures
        assoc_view(final(map)@) == spec_assoc_set(assoc_view(old(map)@), key@, value@),
{
    let ghost mv = assoc_view(map@);
    let n = map.len();
    for i in 0..n
        invariant
            *map == *old(map),
            mv == assoc_view(map@),
            n == map@.len(),
            forall|j: int| 0 <= j < i ==> (#[trigger] mv[j]).0 != key@,
    {
        proof {
            assert(mv[i as int] == (map@[i as int].0@, map@[i as int].1@));
        }
        if map[i].0 == key {
            proof {
                lemma_assoc_index_first(mv, key@, i as int);
            }
            let _old_entry = map.remove(i);
            map.insert(i, (key, value));
            proof {
                assert(assoc_view(map@) =~= mv.update(i as int, (key@, value@)));
            }
            return ;
        }
    }
    proof {
        lemma_assoc_index_absent(mv, key@);
    }
    map.push((key, value));
    proof {
        assert(assoc_view(map@) =~= mv.push((key@, value@)));
    }
}

/// The streaming state of one SQL processor: the batches accumulated for the
/// open window, the latest event timestamp seen, the per-key state a fired
/// window updates, and when that state last changed.
pub struct WindowState {
    pub window_data: Vec<RecordBatch>,
    pub last_timestamp: i64,
    pub state_data: Vec<(String, String)>,
    pub last_state_update_ms: u64,
}

impl WindowState {
    /// The state a fresh streaming processor starts with: nothing buffered,
    /// no timestamp seen, no per-key state.
    pub fn new(now_ms: u64) -> (r: WindowState)
        ensures
            r.window_data@.len() == 0,
            r.last_timestamp == 0,
            r.state_data@.len() == 0,
            r.last_state_update_ms == now_ms,
    {
        WindowState {
            window_data: Vec::new(),
            last_timestamp: 0,
            state_data: Vec::new(),
            last_state_update_ms: now_ms,
        }
    }
}

/// The per-key state after folding the first `upto` rows of a fired
/// window's key and value columns: each row whose key and value cells are
/// both textual sets the key; other rows change nothing.
pub open spec fn folded_state(
    m: Seq<(Seq<char>, Seq<char>)>,
    key_col: Seq<CellV>,
    value_col: Seq<CellV>,
    upto: int,
) -> Seq<(Seq<char>, Seq<char>)>
    decreases upto,
{
    if upto <= 0 {
        m
    } else {
        let prev = folded_state(m, key_col, value_col, upto - 1);
        match (key_col[upto - 1], value_col[upto - 1]) {
            (CellV::Utf8(k), CellV::Utf8(v)) => spec_assoc_set(prev, k, v),
            _ => prev,
        }
    }
}

/// The per-key state a new window fire starts from: cleared when a positive
/// time-to-live has been exceeded since the last update, kept otherwise.
pub open spec fn spec_state_after_expiry(
    entries: Seq<(Seq<char>, Seq<char>)>,
    last_update_ms: u64,
    ttl_ms: Option<u64>,
    now_ms: u64,
) -> Seq<(Seq<char>, Seq<char>)> {
    if ttl_ms matches Some(t) && t > 0 && now_ms - last_update_ms > t {
        Seq::empty()
    } else {
        entries
    }
}

/// Feed one batch into the open window: the event timestamp is read from the
/// batch, the batch joins the window data, the window decides whether it
/// fires, and the last-seen timestamp advances. A batch without a readable,
/// non-negative timestamp in the window's domain is rejected with a
/// `Process` error and the state is left unchanged.
pub fn apply_window(config: &WindowConfig, state: &mut WindowState, batch: RecordBatch) -> (r:
    Result<bool, Error>)
    requires
        config.wf(),
        batch@.wf(),
        old(state).last_timestamp >= 0,
    ensures
        r matches Err(e) ==> (e is Process && *final(state) == *old(state)),
        r matches Ok(trigger) ==> {
            &&& final(state).window_data@ == old(state).window_data@.push(batch)
            &&& final(state).state_data@ == old(state).state_data@
            &&& final(state).last_state_update_ms == old(state).last_state_update_ms
            &&& final(state).last_timestamp >= old(state).last_timestamp
            &&& exists|i: int|
                #[trigger] spec_ts_source(batch@, config.timestamp_field@, i) && (ts_cell(
                    batch@.columns[i][0],
                ) matches Some(ts) && {
                    &&& 0 <= ts
                    &&& trigger == spec_should_trigger(
                        *config,
                        ts,
                        old(state).last_timestamp as int,
                    )
                    &&& final(state).last_timestamp as int == (if ts > old(
                        state,
                    ).last_timestamp as int {
                        ts
                    } else {
                        old(state).last_timestamp as int
                    })
                })
        },
{
    let ts = match extract_timestamp(&batch, config) {
        Ok(ts) => ts,
        Err(e) => {
            return Err(e);
        },
    };
    if ts < 0 {
        return Err(Error::Process(String::from_str("the timestamp is negative")));
    }
    if ts > i64::MAX - (config.size_ms as i64) {
        return Err(Error::Process(String::from_str("the timestamp is out of range")));
    }
    match config.slide_ms {
        Some(s) => {
            if ts > i64::MAX - (s as i64) {
                return Err(Error::Process(String::from_str("the timestamp is out of range")));
            }
        },
        None => {},
    }
    if ts > i64::MAX - (config.watermark_delay_ms as i64) {
        return Err(Error::Process(String::from_str("the timestamp is out of range")));
    }
    let trigger = should_trigger(config, ts, state.last_timestamp);
    state.window_data.push(batch);
    state.last_timestamp = update_last_timestamp(state.last_timestamp, ts);
    Ok(trigger)
}

/// Drain the open window for a fire: all accumulated batches concatenate
/// under their common schema and the window empties. A window that never
/// accumulated anything yields `None`; batches with inconsistent schemas are
/// a `Process` error (the window still empties, and nothing fires for it).
pub fn drain_window(state: &mut WindowState) -> (r: Result<Option<RecordBatch>, Error>)
    requires
        forall|k: int|
            0 <= k < old(state).window_data@.len() ==> (#[trigger] old(state).window_data@[
            k])@.wf(),
    ensures
        final(state).window_data@.len() == 0,
        final(state).state_data@ == old(state).state_data@,
        final(state).last_timestamp == old(state).last_timestamp,
        final(state).last_state_update_ms == old(state).last_state_update_ms,
        old(state).window_data@.len() == 0 ==> (r matches Ok(v) && v is None),
        old(state).window_data@.len() > 0 ==> {
            &&& (r is Ok <==> (crate::batch::all_same_schema(
                old(state).window_data@.map_values(|b: RecordBatch| b@),
            ) && crate::batch::sum_rows(old(state).window_data@.map_values(|b: RecordBatch| b@))
                <= usize::MAX))
            &&& (r matches Ok(v) ==> (v matches Some(m) && m@.wf() && m@.schema == old(
                state,
            ).window_data@[0]@.schema && m@.rows == crate::batch::sum_rows(
                old(state).window_data@.map_values(|b: RecordBatch| b@),
            )))
            &&& (r matches Err(e) ==> e is Process)
        },
{
    let mut drained: Vec<RecordBatch> = Vec::new();
    std::mem::swap(&mut drained, &mut state.window_data);
    if drained.len() == 0 {
        return Ok(Option::None);
    }
    match crate::batch::concat_batches(&drained) {
        Ok(merged) => Ok(Some(merged)),
        Err(e) => Err(e),
    }
}

/// Fold a fired window's result into the per-key state: expired state is
/// cleared first, the update time advances, and each result row with a
/// textual key in its first column and a textual value in its second sets
/// that key. Rows of other shapes are skipped; a result with fewer than two
/// columns carries no key/value pairs and only refreshes the update time.
pub fn update_state_data(
    state: &mut WindowState,
    batch: &RecordBatch,
    state_ttl_ms: Option<u64>,
    now_ms: u64,
) -> (r: Result<(), Error>)
    requires
        batch@.wf(),
        old(state).last_state_update_ms <= now_ms,
    ensures
        r is Ok,
        final(state).last_state_update_ms == now_ms,
        final(state).window_data@ == old(state).window_data@,
        final(state).last_timestamp == old(state).last_timestamp,
        batch@.columns.len() < 2 ==> assoc_view(final(state).state_data@)
            == spec_state_after_expiry(
            assoc_view(old(state).state_data@),
            old(state).last_state_update_ms,
            state_ttl_ms,
            now_ms,
        ),
        batch@.columns.len() >= 2 ==> assoc_view(final(state).state_data@) == folded_state(
            spec_state_after_expiry(
                assoc_view(old(state).state_data@),
                old(state).last_state_update_ms,
                state_ttl_ms,
                now_ms,
            ),
            batch@.columns[0],
            batch@.columns[1],
            batch@.rows as int,
        ),
{
    match state_ttl_ms {
        Some(ttl) => {
            if state_expired(now_ms, state.last_state_update_ms, ttl) {
                state.state_data = Vec::new();
            }
        },
        None => {},
    }
    let ghost start = assoc_view(state.state_data@);
    proof {
        assert(start =~= spec_state_after_expiry(
            assoc_view(old(state).state_data@),
            old(state).last_state_update_ms,
            state_ttl_ms,
            now_ms,
        ));
    }
    state.last_state_update_ms = now_ms;
    if batch.num_columns() < 2 {
        return Ok(());
    }
    let rows = batch.num_rows();
    let key_column = batch.column(0);
    let value_column = batch.column(1);
    let ghost kcol = batch@.columns[0];
    let ghost vcol = batch@.columns[1];
    proof {
        assert(key_column@.map_values(|x: CellValue| x@) == kcol);
        assert(value_column@.map_values(|x: CellValue| x@) == vcol);
    }
    let ghost window_before = state.window_data@;
    let ghost last_ts_before = state.last_timestamp;
    for row in 0..rows
        invariant
            batch@.wf(),
            rows == batch@.rows,
            batch@.columns.len() >= 2,
            kcol == batch@.columns[0],
            vcol == batch@.columns[1],
            key_column@.map_values(|x: CellValue| x@) == kcol,
            value_column@.map_values(|x: CellValue| x@) == vcol,
            rows == key_column@.len(),
            rows == value_column@.len(),
            state.last_state_update_ms == now_ms,
            state.window_data@ == window_before,
            state.last_timestamp == last_ts_before,
            assoc_view(state.state_data@) == folded_state(start, kcol, vcol, row as int),
    {
        proof {
            assert(kcol[row as int] == key_column@[row as int]@);
            assert(vcol[row as int] == value_column@[row as int]@);
        }
        match (&key_column[row], &value_column[row]) {
            (CellValue::Utf8(k), CellValue::Utf8(v)) => {
                proof {
                    assert(kcol[row as int] == CellV::Utf8(k@));
                    assert(vcol[row as int] == CellV::Utf8(v@));
                }
                assoc_set(&mut state.state_data, k.clone(), v.clone());
                proof {
                    assert(assoc_view(state.state_data@) == folded_state(
                        start,
                        kcol,
                        vcol,
                        row + 1 as int,
                    ));
                }
            },
            _ => {
                proof {
                    assert(folded_state(start, kcol, vcol, row + 1 as int) == folded_state(
                        start,
                        kcol,
                        vcol,
                        row as int,
                    ));
                }
            },
        }
    }
    Ok(())
}

} // verus!
