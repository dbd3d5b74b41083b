//! Paging of list endpoints: page and limit clamped into range, the row
//! offset they give, and the trimmed search term.

use vstd::prelude::*;
use vstd::string::*;

use crate::http::constants::MAX_PAGE;
use crate::http::dto::JobsQuery;
use crate::text::{concat3, lower, owned, to_lowercase, trim, trim_str, unicode_lowercase};

verus! {

/// `v` clamped into `lo..=hi`.
pub open spec fn clamp(v: int, lo: int, hi: int) -> int {
    if v < lo {
        lo
    } else if v > hi {
        hi
    } else {
        v
    }
}

/// Largest limit ceiling that a list endpoint may use.
pub const MAX_LIMIT_CEILING: i64 = 1_000_000_000;

/// A page of a list: its number (from 1), its size, and the rows skipped.
#[derive(Debug, Clone, Copy, PartialEq, Eq, Structural)]
pub struct PageWindow {
    pub page: i64,
    pub limit: i64,
    pub offset: i64,
}

/// The page window of a list request: the limit defaults to
/// `default_limit` and is clamped into `1..=max_limit`, the page defaults to
/// 1 and is clamped into `1..=MAX_PAGE`, and `offset = (page - 1) * limit`.
pub fn page_window(page: Option<i64>, limit: Option<i64>, default_limit: i64, max_limit: i64) -> (r: PageWindow)
    requires
        1 <= max_limit <= MAX_LIMIT_CEILING,
    ensures
        r.limit == clamp(
            match limit {
                Some(l) => l as int,
                None => default_limit as int,
            },
            1,
            max_limit as int,
        ),
        r.page == clamp(
            match page {
                Some(p) => p as int,
                None => 1,
            },
            1,
            MAX_PAGE as int,
        ),
        r.offset == (r.page - 1) * r.limit,
        1 <= r.limit <= max_limit,
        1 <= r.page <= MAX_PAGE,
        0 <= r.offset,
{
    let l = match limit {
        Some(l) => l,
        None => default_limit,
    };
    let l = if l < 1 {
        1
    } else if l > max_limit {
        max_limit
    } else {
        l
    };
    let p = match page {
        Some(p) => p,
        None => 1,
    };
    let p = if p < 1 {
        1
    } else if p > MAX_PAGE {
        MAX_PAGE
    } else {
        p
    };
    assert(0 <= (p - 1) * l <= (MAX_PAGE - 1) * MAX_LIMIT_CEILING) by (nonlinear_arith)
        requires
            1 <= p <= MAX_PAGE,
            1 <= l <= MAX_LIMIT_CEILING,
    ;
    PageWindow { page: p, limit: l, offset: (p - 1) * l }
}

/// The search term of a list request: the parameter trimmed, empty when
/// absent.
pub fn search_term(search: Option<&str>) -> (r: String)
    ensures
        r@ == match search {
            Some(s) => trim(s@),
            None => Seq::empty(),
        },
{
    match search {
        Some(s) => owned(trim_str(s)),
        None => String::new(),
    }
}

/// Row window of the conversation list: the limit clamped into `1..=200`
/// and a negative offset raised to 0.
pub fn conversation_window(limit: i64, offset: i64) -> (r: (i64, i64))
    ensures
        r.0 == clamp(limit as int, 1, 200),
        r.1 == if offset < 0 { 0 } else { offset as int },
{
    let l = if limit < 1 {
        1
    } else if limit > 200 {
        200
    } else {
        limit
    };
    let o = if offset < 0 {
        0
    } else {
        offset
    };
    (l, o)
}

/// The `LIKE` pattern of a title search: the lowercased term between `%`
/// signs; none for an absent or empty term.
pub fn title_pattern(search: Option<&str>) -> (r: Option<String>)
    ensures
        match search {
            Some(s) => if s@.len() == 0 {
                r is None
            } else {
                r matches Some(p) && p@ == "%"@ + unicode_lowercase(s@) + "%"@ && (vstd::utf8::is_ascii_chars(s@)
                    ==> p@ == "%"@ + lower(s@) + "%"@)
            },
            None => r is None,
        },
{
    match search {
        Some(s) => {
            if s.unicode_len() == 0 {
                None
            } else {
                let l = to_lowercase(s);
                Some(concat3("%", l.as_str(), "%"))
            }
        },
        None => None,
    }
}

/// The filters of a job-list query, as they go to the database.
#[derive(Debug, Clone, PartialEq, Eq)]
pub struct JobFilters {
    pub limit: i64,
    pub offset: i64,
    pub status: Option<String>,
    pub source: Option<String>,
    pub search_like: Option<String>,
    pub model: Option<String>,
    pub provider: Option<String>,
}

/// A filter parameter: absent when missing or empty.
pub open spec fn nonempty_param(p: Option<String>) -> Option<Seq<char>> {
    match p {
        Some(s) => if s@.len() > 0 {
            Some(s@)
        } else {
            None
        },
        None => None,
    }
}

/// The view of an optional string.
pub open spec fn opt_text(p: Option<String>) -> Option<Seq<char>> {
    match p {
        Some(s) => Some(s@),
        None => None,
    }
}

fn nonempty_owned(p: &Option<String>) -> (r: Option<String>)
    ensures
        opt_text(r) == nonempty_param(*p),
{
    match p {
        Some(s) => {
            if s.as_str().unicode_len() > 0 {
                Some(owned(s.as_str()))
            } else {
                None
            }
        },
        None => None,
    }
}

/// Reads a job-list query: the limit clamped into `1..=1000`, a negative
/// offset raised to 0, empty filters dropped, and the search term wrapped
/// in `%` for a substring match.
pub fn job_filters(q: &JobsQuery) -> (r: JobFilters)
    ensures
        r.limit == clamp(q.limit as int, 1, 1000),
        r.offset == if q.offset < 0 { 0 } else { q.offset as int },
        opt_text(r.status) == nonempty_param(q.status),
        opt_text(r.source) == nonempty_param(q.source),
        opt_text(r.model) == nonempty_param(q.model),
        opt_text(r.provider) == nonempty_param(q.provider),
        opt_text(r.search_like) == match nonempty_param(q.q) {
            Some(t) => Some("%"@ + t + "%"@),
            None => None,
        },
{
    let limit = if q.limit < 1 {
        1
    } else if q.limit > 1000 {
        1000
    } else {
        q.limit
    };
    let offset = if q.offset < 0 {
        0
    } else {
        q.offset
    };
    let search_like = match nonempty_owned(&q.q) {
        Some(t) => Some(concat3("%", t.as_str(), "%")),
        None => None,
    };
    JobFilters {
        limit,
        offset,
        status: nonempty_owned(&q.status),
        source: nonempty_owned(&q.source),
        search_like,
        model: nonempty_owned(&q.model),
        provider: nonempty_owned(&q.provider),
    }
}

/// Rows of the audit log: the limit defaults to 100 and is capped at 1000;
/// the offset defaults to 0.
pub fn audit_window(limit: Option<u32>, offset: Option<u32>) -> (r: (u32, u32))
    ensures
        r.0 == match limit {
            Some(l) => if l < 1000 { l } else { 1000 },
            None => 100,
        },
        r.1 == match offset {
            Some(o) => o,
            None => 0,
        },
{
    let l = match limit {
        Some(l) => if l < 1000 {
            l
        } else {
            1000
        },
        None => 100,
    };
    let o = match offset {
        Some(o) => o,
        None => 0,
    };
    (l, o)
}

} // verus!
