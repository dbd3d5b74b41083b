//! Dashboard figures computed from what the stores report: queue depth, the
//! cluster-wide model capacity table, and the part of a job's detail view
//! read from its conversation record.

use vstd::prelude::*;
use vstd::string::*;

use crate::http::dto::{ClusterModelInfo, QueueDepth};
use crate::json::Json;
use crate::text::{lemma_less_total, lemma_less_transitive, seq_less, str_less};

verus! {

/// Queue depth from the three queue lengths (a length that could not be
/// read counts 0); the total is their sum.
pub fn queue_depth(paid: i64, api: i64, test: i64) -> (r: QueueDepth)
    requires
        i64::MIN <= paid + api + test <= i64::MAX,
        i64::MIN <= paid + api <= i64::MAX,
    ensures
        r.api_paid == paid && r.api == api && r.test == test,
        r.total == paid + api + test,
{
    QueueDepth { api_paid: paid, api, test, total: paid + api + test }
}

/// A size in MiB as the table shows it: capped at `i32::MAX`.
pub open spec fn capped_mb(v: u64) -> i32 {
    if v <= 2147483647 {
        v as i32
    } else {
        2147483647
    }
}

/// One model of the cluster snapshot: name, weight and KV size per request
/// (MiB), active requests, request limit, and provider count.
pub type ClusterEntry = (String, u64, u64, u32, u32, u32);

/// `row` shows snapshot entry `e`.
pub open spec fn shows_entry(row: ClusterModelInfo, e: ClusterEntry) -> bool {
    &&& row.model_name@ == e.0@
    &&& row.weight_mb == capped_mb(e.1)
    &&& row.kv_per_request_mb == capped_mb(e.2)
    &&& row.total_active == e.3
    &&& row.total_limit == e.4
    &&& row.provider_count == e.5
}

/// Rows ordered by model name (equal names keep their order).
pub open spec fn sorted_by_name(rows: Seq<ClusterModelInfo>) -> bool {
    forall|i: int, j: int| 0 <= i < j < rows.len() ==> !seq_less(#[trigger] rows[j].model_name@, #[trigger] rows[i].model_name@)
}

fn row_of(e: &ClusterEntry) -> (r: ClusterModelInfo)
    ensures
        shows_entry(r, *e),
{
    let w: i32 = if e.1 <= 2147483647 {
        e.1 as i32
    } else {
        2147483647
    };
    let kv: i32 = if e.2 <= 2147483647 {
        e.2 as i32
    } else {
        2147483647
    };
    ClusterModelInfo {
        model_name: e.0.as_str().to_owned(),
        weight_mb: w,
        kv_per_request_mb: kv,
        total_active: e.3,
        total_limit: e.4,
        provider_count: e.5,
    }
}

/// The cluster table: one row per snapshot entry (sizes capped at
/// `i32::MAX`), ordered by model name; the rows are a reordering of the
/// entries.
pub fn cluster_rows(snapshot: &Vec<ClusterEntry>) -> (r: Vec<ClusterModelInfo>)
    ensures
        r@.len() == snapshot@.len(),
        sorted_by_name(r@),
        exists|perm: Seq<int>|
            #![trigger perm.len()]
            perm.len() == r@.len() && (forall|k: int| 0 <= k < perm.len() ==> 0 <= #[trigger] perm[k] < snapshot@.len())
                && (forall|a: int, b: int| 0 <= a < b < perm.len() ==> #[trigger] perm[a] != #[trigger] perm[b])
                && (forall|k: int| 0 <= k < r@.len() ==> shows_entry(#[trigger] r@[k], snapshot@[perm[k]])),
{
    let mut out: Vec<ClusterModelInfo> = Vec::new();
    let ghost mut perm: Seq<int> = Seq::empty();
    let n = snapshot.len();
    let mut i: usize = 0;
    while i < n
        invariant
            n == snapshot@.len(),
            i <= n,
            out@.len() == i,
            perm.len() == i,
            sorted_by_name(out@),
            forall|k: int| 0 <= k < perm.len() ==> 0 <= #[trigger] perm[k] < i,
            forall|a: int, b: int| 0 <= a < b < perm.len() ==> #[trigger] perm[a] != #[trigger] perm[b],
            forall|k: int| 0 <= k < out@.len() ==> shows_entry(#[trigger] out@[k], snapshot@[perm[k]]),
        decreases n - i,
    {
        let row = row_of(&snapshot[i]);
        let m = out.len();
        let mut p: usize = 0;
        while p < m
            invariant
                m == out@.len(),
                p <= m,
                forall|k: int| 0 <= k < p ==> !seq_less(row.model_name@, #[trigger] out@[k].model_name@),
            ensures
                p <= m,
                forall|k: int| 0 <= k < p ==> !seq_less(row.model_name@, #[trigger] out@[k].model_name@),
                p < m ==> seq_less(row.model_name@, out@[p as int].model_name@),
            decreases m - p,
        {
            if str_less(row.model_name.as_str(), out[p].model_name.as_str()) {
                break;
            }
            p += 1;
        }
        let ghost old_out = out@;
        let ghost old_perm = perm;
        let ghost rname = row.model_name@;
        out.insert(p, row);
        proof {
            perm = old_perm.insert(p as int, i as int);
            assert forall|a: int, b: int| 0 <= a < b < out@.len() implies !seq_less(
                #[trigger] out@[b].model_name@,
                #[trigger] out@[a].model_name@,
            ) by {
                if b < p {
                    assert(out@[a] == old_out[a] && out@[b] == old_out[b]);
                } else if b == p {
                    assert(out@[a] == old_out[a]);
                } else if a == p {
                    assert(out@[b] == old_out[b - 1]);
                    let x = old_out[p as int].model_name@;
                    let y = old_out[b - 1].model_name@;
                    lemma_less_total(rname, x);
                    if b - 1 > p {
                        lemma_less_total(x, y);
                        if seq_less(y, rname) {
                            lemma_less_transitive(y, rname, x);
                        }
                    }
                } else if a < p {
                    assert(out@[a] == old_out[a] && out@[b] == old_out[b - 1]);
                } else {
                    assert(out@[a] == old_out[a - 1] && out@[b] == old_out[b - 1]);
                }
            }
            assert forall|k: int| 0 <= k < perm.len() implies 0 <= #[trigger] perm[k] < i + 1 by {
                if k < p {
                    assert(perm[k] == old_perm[k]);
                } else if k > p {
                    assert(perm[k] == old_perm[k - 1]);
                }
            }
            assert forall|a: int, b: int| 0 <= a < b < perm.len() implies #[trigger] perm[a] != #[trigger] perm[b] by {
                if a == p {
                    assert(perm[b] == old_perm[b - 1]);
                } else if b == p {
                    if a < p {
                        assert(perm[a] == old_perm[a]);
                    }
                } else {
                    let pa = if a < p { a } else { a - 1 };
                    let pb = if b < p { b } else { b - 1 };
                    assert(perm[a] == old_perm[pa]);
                    assert(perm[b] == old_perm[pb]);
                }
            }
            assert forall|k: int| 0 <= k < out@.len() implies shows_entry(#[trigger] out@[k], snapshot@[perm[k]]) by {
                if k < p {
                    assert(out@[k] == old_out[k] && perm[k] == old_perm[k]);
                } else if k > p {
                    assert(out@[k] == old_out[k - 1] && perm[k] == old_perm[k - 1]);
                }
            }
        }
        i += 1;
    }
    assert(perm.len() == out@.len());
    out
}

/// One stored turn of a conversation record, as the job detail reads it.
#[derive(Debug)]
pub struct JobTurn {
    pub job_id: u128,
    pub prompt: String,
    pub result: Option<String>,
    pub tool_calls: Option<Json>,
    pub messages: Option<Json>,
}

/// The parts of a job's detail view that come from its conversation record.
#[derive(Debug)]
pub struct JobTurnDetail {
    /// The turn's prompt, else the stored preview, else empty.
    pub prompt: String,
    pub result_text: Option<String>,
    pub tool_calls_json: Option<Json>,
    pub messages_json: Option<Json>,
    /// Number of turns in the record, when there is one.
    pub message_count: Option<i64>,
}

/// `i` is the position of the first turn of job `job_id`.
pub open spec fn is_first_turn(turns: Seq<JobTurn>, job_id: u128, i: int) -> bool {
    &&& 0 <= i < turns.len()
    &&& turns[i].job_id == job_id
    &&& forall|j: int| 0 <= j < i ==> (#[trigger] turns[j]).job_id != job_id
}

/// `d` carries no turn: the prompt falls back to the preview (or empty).
pub open spec fn without_turn(d: JobTurnDetail, preview: Option<String>) -> bool {
    &&& d.prompt@ == (match preview {
        Some(p) => p@,
        None => Seq::<char>::empty(),
    })
    &&& d.result_text is None
    &&& d.tool_calls_json is None
    &&& d.messages_json is None
}

/// The conversation-record part of a job detail: the first turn of the job
/// gives prompt, answer, tool calls and messages; with no record, or no turn
/// of that job in it, the prompt is the stored preview (or empty) and the
/// rest is absent. The message count is the record's number of turns.
pub fn job_turn_detail(turns: Option<Vec<JobTurn>>, job_id: u128, preview: Option<String>) -> (r: JobTurnDetail)
    requires
        turns matches Some(ts) ==> ts@.len() <= i64::MAX,
    ensures
        match turns {
            None => r.message_count is None && without_turn(r, preview),
            Some(ts) => {
                &&& r.message_count == Some(ts@.len() as i64)
                &&& (forall|i: int| is_first_turn(ts@, job_id, i) ==> {
                    &&& r.prompt@ == ts@[i].prompt@
                    &&& r.result_text == ts@[i].result
                    &&& r.tool_calls_json == ts@[i].tool_calls
                    &&& r.messages_json == ts@[i].messages
                })
                &&& ((forall|j: int| 0 <= j < ts@.len() ==> (#[trigger] ts@[j]).job_id != job_id)
                    ==> without_turn(r, preview))
            },
        },
{
    let fallback = match preview {
        Some(p) => p,
        None => String::new(),
    };
    match turns {
        None => JobTurnDetail {
            prompt: fallback,
            result_text: None,
            tool_calls_json: None,
            messages_json: None,
            message_count: None,
        },
        Some(mut ts) => {
            let n = ts.len();
            let count = n as i64;
            let mut i: usize = 0;
            while i < n
                invariant
                    n == ts@.len(),
                    i <= n,
                    forall|j: int| 0 <= j < i ==> (#[trigger] ts@[j]).job_id != job_id,
                ensures
                    i <= n,
                    forall|j: int| 0 <= j < i ==> (#[trigger] ts@[j]).job_id != job_id,
                    i < n ==> ts@[i as int].job_id == job_id,
                decreases n - i,
            {
                if ts[i].job_id == job_id {
                    break;
                }
                i += 1;
            }
            if i < n {
                let ghost before = ts@;
                let t = ts.remove(i);
                proof {
                    assert(is_first_turn(before, job_id, i as int));
                    assert forall|k: int| is_first_turn(before, job_id, k) implies k == i by {
                        if k < i {
                            assert(before[k].job_id != job_id);
                        } else if k > i {
                            assert(before[i as int].job_id == job_id);
                        }
                    }
                }
                JobTurnDetail {
                    prompt: t.prompt,
                    result_text: t.result,
                    tool_calls_json: t.tool_calls,
                    messages_json: t.messages,
                    message_count: Some(count),
                }
            } else {
                JobTurnDetail {
                    prompt: fallback,
                    result_text: None,
                    tool_calls_json: None,
                    messages_json: None,
                    message_count: Some(count),
                }
            }
        },
    }
}

} // verus!
