//! Helpers of the infrastructure health endpoints.

use vstd::prelude::*;
use vstd::string::*;

use crate::http::dto::{PodStatus, ServiceStatus, TopicPipelineStats};
use crate::text::{find_first, first_occurrence, has_prefix, push_char, starts_with, str_eq, trim, trim_str};

verus! {

/// Bytes left as they are by percent-encoding (RFC 3986 unreserved set).
pub open spec fn is_unreserved(b: u8) -> bool {
    (65 <= b <= 90) || (97 <= b <= 122) || (48 <= b <= 57) || b == 45 || b == 95 || b == 46 || b == 126
}

/// Uppercase hexadecimal digit for `d < 16`.
pub open spec fn hex_upper(d: nat) -> char {
    if d < 10 {
        (48 + d) as char
    } else {
        (55 + d) as char
    }
}

/// Percent-encoding of one byte.
pub open spec fn encode_byte(b: u8) -> Seq<char> {
    if is_unreserved(b) {
        seq![b as char]
    } else {
        seq!['%', hex_upper((b / 16) as nat), hex_upper((b % 16) as nat)]
    }
}

/// Percent-encoding of a byte string, byte by byte.
pub open spec fn percent_encoded(bytes: Seq<u8>) -> Seq<char>
    decreases bytes.len(),
{
    if bytes.len() == 0 {
        Seq::empty()
    } else {
        percent_encoded(bytes.drop_last()) + encode_byte(bytes.last())
    }
}

fn hex_upper_exec(d: u8) -> (r: char)
    requires
        d < 16,
    ensures
        r == hex_upper(d as nat),
{
    if d < 10 {
        (48 + d) as char
    } else {
        (55 + d) as char
    }
}

/// Percent-encodes the UTF-8 bytes of `s`, keeping unreserved bytes.
pub fn percent_encode(s: &str) -> (r: String)
    ensures
        r@ == percent_encoded(s.spec_bytes()),
{
    let bytes = s.as_bytes();
    let n = bytes.len();
    let mut r = String::new();
    let mut i: usize = 0;
    while i < n
        invariant
            n == bytes@.len(),
            bytes@ == s.spec_bytes(),
            i <= n,
            r@ == percent_encoded(bytes@.subrange(0, i as int)),
        decreases n - i,
    {
        let b = bytes[i];
        assert(bytes@.subrange(0, i + 1).drop_last() =~= bytes@.subrange(0, i as int));
        if (65 <= b && b <= 90) || (97 <= b && b <= 122) || (48 <= b && b <= 57) || b == 45 || b == 95
            || b == 46 || b == 126 {
            push_char(&mut r, b as char);
        } else {
            push_char(&mut r, '%');
            push_char(&mut r, hex_upper_exec(b / 16));
            push_char(&mut r, hex_upper_exec(b % 16));
        }
        i += 1;
    }
    assert(bytes@.subrange(0, n as int) =~= bytes@);
    r
}

// ── Service health ───────────────────────────────────────────────────────────

/// One health probe of a service, as recorded by one gateway instance.
#[derive(Debug, Clone, PartialEq, Eq)]
pub struct SvcProbe {
    /// `ok` or another status word.
    pub status: String,
    /// Probe latency in milliseconds.
    pub ms: u32,
    /// Probe time (Unix seconds).
    pub t: i64,
}

/// The infrastructure services reported, in order.
pub const SERVICE_NAMES: &'static [&'static str; 6] = &["postgresql", "valkey", "clickhouse", "s3", "vespa", "embed"];

/// Number of probes that report `ok`.
pub open spec fn ok_count(ps: Seq<SvcProbe>) -> nat
    decreases ps.len(),
{
    if ps.len() == 0 {
        0
    } else {
        ok_count(ps.drop_last()) + if ps.last().status@ == "ok"@ {
            1nat
        } else {
            0nat
        }
    }
}

/// Index of the latest probe: the last one among those with the greatest
/// time (`max_by_key`).
pub open spec fn latest_index(ps: Seq<SvcProbe>) -> int
    decreases ps.len(),
{
    if ps.len() <= 1 {
        0
    } else {
        let k = latest_index(ps.drop_last());
        if ps.last().t >= ps[k].t {
            ps.len() - 1
        } else {
            k
        }
    }
}

proof fn lemma_latest_index_bounds(ps: Seq<SvcProbe>)
    requires
        ps.len() > 0,
    ensures
        0 <= latest_index(ps) < ps.len(),
    decreases ps.len(),
{
    if ps.len() > 1 {
        lemma_latest_index_bounds(ps.drop_last());
    }
}

/// The status word for `ok` probes out of `n`: all ok is `ok`, some is
/// `degraded`, none is `unavailable`.
pub open spec fn status_word(ok: nat, n: nat) -> Seq<char> {
    if ok == n {
        "ok"@
    } else if ok > 0 {
        "degraded"@
    } else {
        "unavailable"@
    }
}

/// `r` is the status of service `name` over probes `ps`.
pub open spec fn is_service_status(r: ServiceStatus, name: Seq<char>, ps: Seq<SvcProbe>) -> bool {
    &&& r.name@ == name
    &&& r.status@ == status_word(ok_count(ps), ps.len())
    &&& r.latency_ms == Some(ps[latest_index(ps)].ms)
    &&& r.checked_at == Some(ps[latest_index(ps)].t)
}

/// The status of a service from its probes (none without probes): `ok`
/// when all probes are ok, `degraded` when some are, `unavailable`
/// otherwise, with the latency and time of the latest probe.
pub fn service_status(name: &str, probes: &Vec<SvcProbe>) -> (r: Option<ServiceStatus>)
    ensures
        probes@.len() == 0 ==> r is None,
        probes@.len() > 0 ==> (r matches Some(st) && is_service_status(st, name@, probes@)),
{
    let n = probes.len();
    if n == 0 {
        return None;
    }
    let mut ok: usize = 0;
    let mut latest: usize = 0;
    let mut i: usize = 0;
    while i < n
        invariant
            n == probes@.len(),
            n > 0,
            i <= n,
            ok == ok_count(probes@.subrange(0, i as int)),
            ok <= i,
            i > 0 ==> latest == latest_index(probes@.subrange(0, i as int)),
            i == 0 ==> latest == 0,
            latest < n,
        decreases n - i,
    {
        let ghost pre = probes@.subrange(0, i as int);
        assert(probes@.subrange(0, i + 1).drop_last() =~= pre);
        assert(probes@.subrange(0, i + 1).last() == probes@[i as int]);
        if str_eq(probes[i].status.as_str(), "ok") {
            ok += 1;
        }
        if i == 0 {
            latest = 0;
        } else {
            proof {
                lemma_latest_index_bounds(pre);
                assert(pre[latest as int] == probes@[latest as int]);
            }
            if probes[i].t >= probes[latest].t {
                latest = i;
            }
        }
        i += 1;
    }
    assert(probes@.subrange(0, n as int) =~= probes@);
    let status = if ok == n {
        "ok"
    } else if ok > 0 {
        "degraded"
    } else {
        "unavailable"
    };
    Some(
        ServiceStatus {
            name: name.to_owned(),
            status: status.to_owned(),
            latency_ms: Some(probes[latest].ms),
            checked_at: Some(probes[latest].t),
        },
    )
}

/// The probes of service `name`, in order.
pub open spec fn probes_named(entries: Seq<(String, SvcProbe)>, name: Seq<char>) -> Seq<SvcProbe>
    decreases entries.len(),
{
    if entries.len() == 0 {
        Seq::empty()
    } else {
        let rest = probes_named(entries.drop_last(), name);
        if entries.last().0@ == name {
            rest.push(entries.last().1)
        } else {
            rest
        }
    }
}

/// Collects the probes of one service.
pub fn collect_probes(entries: &Vec<(String, SvcProbe)>, name: &str) -> (r: Vec<SvcProbe>)
    ensures
        r@ == probes_named(entries@, name@),
{
    let mut out: Vec<SvcProbe> = Vec::new();
    let n = entries.len();
    let mut i: usize = 0;
    while i < n
        invariant
            n == entries@.len(),
            i <= n,
            out@ == probes_named(entries@.subrange(0, i as int), name@),
        decreases n - i,
    {
        assert(entries@.subrange(0, i + 1).drop_last() =~= entries@.subrange(0, i as int));
        assert(entries@.subrange(0, i + 1).last() == entries@[i as int]);
        if str_eq(entries[i].0.as_str(), name) {
            let p = SvcProbe {
                status: entries[i].1.status.clone(),
                ms: entries[i].1.ms,
                t: entries[i].1.t,
            };
            out.push(p);
            assert(out@ =~= probes_named(entries@.subrange(0, i + 1), name@));
        }
        i += 1;
    }
    assert(entries@.subrange(0, n as int) =~= entries@);
    out
}

// ── Pods ─────────────────────────────────────────────────────────────────────

/// TTL, in seconds, of a gateway instance heartbeat.
pub const API_HEARTBEAT_TTL_SECS: i64 = 30;

/// TTL, in seconds, of an agent heartbeat.
pub const AGENT_HEARTBEAT_TTL_SECS: i64 = 180;

/// The status of a pod whose heartbeat key has `ttl` seconds left: none
/// when the heartbeat has lapsed (`ttl <= 0`, the pod is to be dropped from
/// its set), else online with its last heartbeat at
/// `now_ms - (heartbeat_ttl - ttl) * 1000`. The arithmetic must fit in
/// `i64`.
pub fn pod_status(id: String, ttl: i64, heartbeat_ttl: i64, now_ms: i64) -> (r: Option<PodStatus>)
    requires
        ttl > 0 ==> i64::MIN <= heartbeat_ttl - ttl <= i64::MAX,
        ttl > 0 ==> i64::MIN <= (heartbeat_ttl - ttl) * 1000 <= i64::MAX,
        ttl > 0 ==> i64::MIN <= now_ms - (heartbeat_ttl - ttl) * 1000 <= i64::MAX,
    ensures
        ttl <= 0 ==> r is None,
        ttl > 0 ==> (r matches Some(p) && p.id == id && p.status@ == "online"@ && p.last_heartbeat_ms == Some(
            (now_ms - (heartbeat_ttl - ttl) * 1000) as i64,
        )),
{
    if ttl <= 0 {
        return None;
    }
    let elapsed_ms = (heartbeat_ttl - ttl) * 1000;
    Some(PodStatus { id, status: "online".to_owned(), last_heartbeat_ms: Some(now_ms - elapsed_ms) })
}

// ── Pipeline health ──────────────────────────────────────────────────────────

/// Prefix of the high-watermark metric lines.
pub const WATERMARK_METRIC: &'static str = "vectorized_cluster_partition_high_watermark{";

/// The last space-separated field of `s` (`rsplit(' ').next()`).
pub open spec fn last_field(s: Seq<char>) -> Seq<char>
    decreases s.len(),
{
    if s.len() == 0 {
        Seq::empty()
    } else if s.last() == ' ' {
        Seq::empty()
    } else {
        last_field(s.drop_last()).push(s.last())
    }
}

/// The topic and value text of a high-watermark metric line for an `otel-`
/// topic: the topic is what follows `topic="` up to the next `"`, the value
/// the trimmed last space-separated field.
pub open spec fn watermark_of(line: Seq<char>) -> Option<(Seq<char>, Seq<char>)> {
    if !has_prefix(line, WATERMARK_METRIC@) {
        None
    } else {
        match first_occurrence(line, "topic=\""@) {
            None => None,
            Some(i) => {
                let rest = line.subrange(i + 7, line.len() as int);
                let topic = match first_occurrence(rest, "\""@) {
                    Some(k) => rest.subrange(0, k),
                    None => rest,
                };
                if has_prefix(topic, "otel-"@) {
                    Some((topic, trim(last_field(line))))
                } else {
                    None
                }
            },
        }
    }
}

fn last_field_exec(s: &str) -> (r: &str)
    ensures
        r@ == last_field(s@),
{
    let n = s.unicode_len();
    let mut i = n;
    assert(s@.subrange(0, n as int) =~= s@);
    assert(last_field(s@) + s@.subrange(n as int, n as int) =~= last_field(s@));
    while i > 0
        invariant
            i <= n,
            n == s@.len(),
            last_field(s@) == last_field(s@.subrange(0, i as int)) + s@.subrange(i as int, n as int),
            forall|j: int| i <= j < n ==> s@[j] != ' ',
        decreases i,
    {
        let ghost pre = s@.subrange(0, i as int);
        assert(pre.drop_last() =~= s@.subrange(0, i - 1));
        if s.get_char(i - 1) == ' ' {
            assert(last_field(pre) =~= Seq::<char>::empty());
            assert(Seq::<char>::empty() + s@.subrange(i as int, n as int) =~= s@.subrange(i as int, n as int));
            return s.substring_char(i, n);
        }
        assert(last_field(pre) =~= last_field(s@.subrange(0, i - 1)).push(s@[i - 1]));
        assert(last_field(s@.subrange(0, i - 1)).push(s@[i - 1]) + s@.subrange(i as int, n as int)
            =~= last_field(s@.subrange(0, i - 1)) + s@.subrange(i - 1, n as int));
        i -= 1;
    }
    assert(last_field(s@.subrange(0, 0)) =~= Seq::<char>::empty());
    assert(Seq::<char>::empty() + s@.subrange(0, n as int) =~= s@);
    s
}

/// Reads one metrics line: the `otel-` topic and the text of its high
/// watermark, when it is such a line.
pub fn watermark_line(line: &str) -> (r: Option<(String, String)>)
    ensures
        match watermark_of(line@) {
            Some((t, v)) => r matches Some((a, b)) && a@ == t && b@ == v,
            None => r is None,
        },
{
    if !starts_with(line, WATERMARK_METRIC) {
        return None;
    }
    proof {
        reveal_strlit("topic=\"");
        reveal_strlit("\"");
    }
    let i = match find_first(line, "topic=\"") {
        Some(i) => i,
        None => {
            return None;
        },
    };
    let n = line.unicode_len();
    let rest = line.substring_char(i + 7, n);
    let topic = match find_first(rest, "\"") {
        Some(k) => rest.substring_char(0, k),
        None => rest,
    };
    if !starts_with(topic, "otel-") {
        return None;
    }
    let value = trim_str(last_field_exec(line));
    Some((topic.to_owned(), value.to_owned()))
}

/// The topic fed by a ClickHouse Kafka table.
pub fn topic_of_table(table: &str) -> (r: Option<&'static str>)
    ensures
        table@ == "kafka_otel_logs"@ ==> (r matches Some(t) && t@ == "otel-logs"@),
        table@ == "kafka_otel_metrics"@ ==> (r matches Some(t) && t@ == "otel-metrics"@),
        table@ != "kafka_otel_logs"@ && table@ != "kafka_otel_metrics"@ ==> r is None,
{
    proof {
        reveal_strlit("kafka_otel_logs");
        reveal_strlit("kafka_otel_metrics");
        assert("kafka_otel_logs"@.len() != "kafka_otel_metrics"@.len());
    }
    if str_eq(table, "kafka_otel_logs") {
        Some("otel-logs")
    } else if str_eq(table, "kafka_otel_metrics") {
        Some("otel-metrics")
    } else {
        None
    }
}

/// What ClickHouse reports of a topic's consumer.
#[derive(Debug, Clone, PartialEq, Eq)]
pub struct ConsumerRow {
    pub consumer_offset: i64,
    /// Seconds since the last poll, when its time could be read.
    pub secs_since_poll: Option<i64>,
    pub last_error: String,
}

/// `NaiveDateTime::parse_from_str(text, fmt)` read as UTC, in Unix
/// seconds (`and_utc().timestamp()`); `None` where chrono rejects the text.
pub uninterp spec fn naive_utc_parsed(text: Seq<char>, fmt: Seq<char>) -> Option<i64>;

/// `chrono::NaiveDateTime::parse_from_str(text, fmt)`, then
/// `and_utc().timestamp()`.
#[verifier::external_body]
fn parse_naive_utc(text: &str, fmt: &str) -> (r: Option<i64>)
    ensures
        r == naive_utc_parsed(text@, fmt@),
{
    chrono::NaiveDateTime::parse_from_str(text, fmt).ok().map(|dt| dt.and_utc().timestamp())
}

/// Layout of the consumer's last poll time as ClickHouse reports it.
pub const POLL_TIME_FORMAT: &'static str = "%Y-%m-%d %H:%M:%S";

/// Seconds from the consumer's last poll (`last_poll_time`, UTC, in
/// `POLL_TIME_FORMAT`) to `now_secs`: `None` when the time cannot be read
/// (or the difference does not fit in `i64`). A poll time in the future
/// gives a negative count, which `topic_stats` drops.
pub fn secs_since_poll(last_poll_time: &str, now_secs: i64) -> (r: Option<i64>)
    ensures
        match naive_utc_parsed(last_poll_time@, POLL_TIME_FORMAT@) {
            Some(t) => if i64::MIN <= now_secs - t <= i64::MAX {
                r == Some((now_secs - t) as i64)
            } else {
                r is None
            },
            None => r is None,
        },
{
    match parse_naive_utc(last_poll_time, POLL_TIME_FORMAT) {
        Some(t) => now_secs.checked_sub(t),
        None => None,
    }
}

/// A consumer counts as active when it polled less than this many seconds ago.
pub const ACTIVE_POLL_SECS: i64 = 120;

/// The statistics of one topic: lag is the watermark minus the consumer
/// offset, floored at 0 (saturating); a poll time in the future is
/// dropped; the consumer is active when it polled under two minutes ago;
/// an empty error text is no error; missing figures are 0.
pub fn topic_stats(
    topic: &str,
    log_end_offset: Option<i64>,
    consumer: Option<ConsumerRow>,
    tpm: Option<(i64, i64)>,
    consumer_count: Option<u32>,
) -> (r: TopicPipelineStats)
    ensures
        r.topic@ == topic@,
        r.log_end_offset == match log_end_offset {
            Some(v) => v,
            None => 0,
        },
        match consumer {
            Some(c) => {
                &&& r.consumer_offset == c.consumer_offset
                &&& r.last_poll_secs == match c.secs_since_poll {
                    Some(s) => if s >= 0 {
                        Some(s)
                    } else {
                        None
                    },
                    None => None,
                }
                &&& r.is_active == (c.secs_since_poll matches Some(s) && 0 <= s < ACTIVE_POLL_SECS)
                &&& r.last_error == if c.last_error@.len() == 0 {
                    None
                } else {
                    Some(c.last_error)
                }
            },
            None => r.consumer_offset == 0 && r.last_poll_secs is None && !r.is_active && r.last_error is None,
        },
        r.lag as int == {
            let d = r.log_end_offset - r.consumer_offset;
            if d < 0 {
                0
            } else if d > i64::MAX {
                i64::MAX as int
            } else {
                d
            }
        },
        (r.tpm_1m, r.tpm_5m) == match tpm {
            Some(p) => p,
            None => (0i64, 0i64),
        },
        r.consumer_count == match consumer_count {
            Some(c) => c,
            None => 0,
        },
{
    let log_end = match log_end_offset {
        Some(v) => v,
        None => 0,
    };
    let (consumer_offset, last_poll_secs, is_active, last_error) = match consumer {
        Some(c) => {
            let poll = match c.secs_since_poll {
                Some(s) => if s >= 0 {
                    Some(s)
                } else {
                    None
                },
                None => None,
            };
            let active = match poll {
                Some(s) => s < ACTIVE_POLL_SECS,
                None => false,
            };
            let err = if c.last_error.as_str().unicode_len() == 0 {
                None
            } else {
                Some(c.last_error)
            };
            (c.consumer_offset, poll, active, err)
        },
        None => (0, None, false, None),
    };
    let diff: i128 = log_end as i128 - consumer_offset as i128;
    let lag: i64 = if diff < 0 {
        0
    } else if diff > i64::MAX as i128 {
        i64::MAX
    } else {
        diff as i64
    };
    let (tpm_1m, tpm_5m) = match tpm {
        Some(p) => p,
        None => (0, 0),
    };
    let count = match consumer_count {
        Some(c) => c,
        None => 0,
    };
    TopicPipelineStats {
        topic: topic.to_owned(),
        consumer_offset,
        log_end_offset: log_end,
        lag,
        tpm_1m,
        tpm_5m,
        last_poll_secs,
        is_active,
        last_error,
        consumer_count: count,
    }
}

/// The pipeline counts as observable when the broker metrics or the
/// consumer rows could be read.
pub fn pipeline_available(metrics_text: &str, consumer_rows: usize) -> (r: bool)
    ensures
        r == (metrics_text@.len() > 0 || consumer_rows > 0),
{
    metrics_text.unicode_len() > 0 || consumer_rows > 0
}

} // verus!
