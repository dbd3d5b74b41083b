//! GPU server registration: the checks of a node-exporter URL, the verdicts
//! on the duplicate lookup and the reachability probe (both made by the
//! caller), updates, and the listing form of a server.

use vstd::prelude::*;
use vstd::string::*;

use crate::domain::entities::GpuServer;
use crate::domain::ids::GpuServerId;
use crate::http::dto::UpdateGpuServerRequest;
use crate::http::error::AppError;
use crate::text::{has_prefix, owned, starts_with, trim, trim_str};

verus! {

/// Refusal of a missing URL in a verification request.
pub const ERR_URL_REQUIRED: &'static str = "url is required";

/// Refusal of a URL with another scheme.
pub const ERR_URL_SCHEME: &'static str = "url must start with http:// or https://";

/// Refusal of a blank server name.
pub const ERR_NAME_REQUIRED: &'static str = "name is required";

/// Refusal of a registration without a node-exporter URL.
pub const ERR_EXPORTER_REQUIRED: &'static str = "node_exporter_url is required";

/// Refusal of a URL that another server already uses.
pub const ERR_DUPLICATE_SERVER: &'static str = "a server with this URL is already registered";

/// Refusal when the node exporter did not answer.
pub const ERR_UNREACHABLE: &'static str = "node-exporter is not reachable at the given URL";

/// The text starts with `http://` or `https://`.
pub open spec fn http_url(u: Seq<char>) -> bool {
    has_prefix(u, "http://"@) || has_prefix(u, "https://"@)
}

/// The URL of `POST /v1/servers/verify`: trimmed, present, and http(s).
pub fn verify_server_url(url: &str) -> (r: Result<String, AppError>)
    ensures
        trim(url@).len() == 0 ==> (r matches Err(AppError::BadRequest(m)) && m@ == ERR_URL_REQUIRED@),
        trim(url@).len() > 0 && !http_url(trim(url@)) ==> (r matches Err(AppError::BadRequest(m)) && m@
            == ERR_URL_SCHEME@),
        trim(url@).len() > 0 && http_url(trim(url@)) ==> (r matches Ok(u) && u@ == trim(url@)),
{
    let u = trim_str(url);
    if u.unicode_len() == 0 {
        return Err(AppError::BadRequest(owned(ERR_URL_REQUIRED)));
    }
    if !starts_with(u, "http://") && !starts_with(u, "https://") {
        return Err(AppError::BadRequest(owned(ERR_URL_SCHEME)));
    }
    Ok(owned(u))
}

/// The name and URL of `POST /v1/servers`: both trimmed; a blank name, a
/// missing URL or one that is not http(s) is refused, in that order.
pub fn register_server_fields(name: &str, url: Option<&str>) -> (r: Result<(String, String), AppError>)
    ensures
        ({
            let u = match url {
                Some(x) => trim(x@),
                None => Seq::empty(),
            };
            if trim(name@).len() == 0 {
                r matches Err(AppError::BadRequest(m)) && m@ == ERR_NAME_REQUIRED@
            } else if u.len() == 0 {
                r matches Err(AppError::BadRequest(m)) && m@ == ERR_EXPORTER_REQUIRED@
            } else if !http_url(u) {
                r matches Err(AppError::BadRequest(m)) && m@ == ERR_URL_SCHEME@
            } else {
                r matches Ok((n, x)) && n@ == trim(name@) && x@ == u
            }
        }),
{
    let n = trim_str(name);
    if n.unicode_len() == 0 {
        return Err(AppError::BadRequest(owned(ERR_NAME_REQUIRED)));
    }
    let u = match url {
        Some(x) => trim_str(x),
        None => "",
    };
    proof {
        reveal_strlit("");
    }
    if u.unicode_len() == 0 {
        return Err(AppError::BadRequest(owned(ERR_EXPORTER_REQUIRED)));
    }
    if !starts_with(u, "http://") && !starts_with(u, "https://") {
        return Err(AppError::BadRequest(owned(ERR_URL_SCHEME)));
    }
    Ok((owned(n), owned(u)))
}

/// The verdict after the duplicate lookup and the probe: a URL already in
/// use is a conflict; an exporter that did not answer is a bad gateway.
pub fn server_checks(duplicates: i64, reachable: bool) -> (r: Result<(), AppError>)
    ensures
        duplicates > 0 ==> (r matches Err(AppError::Conflict(m)) && m@ == ERR_DUPLICATE_SERVER@),
        duplicates <= 0 && !reachable ==> (r matches Err(AppError::BadGateway(m)) && m@ == ERR_UNREACHABLE@),
        duplicates <= 0 && reachable ==> r is Ok,
{
    if duplicates > 0 {
        return Err(AppError::Conflict(owned(ERR_DUPLICATE_SERVER)));
    }
    if !reachable {
        return Err(AppError::BadGateway(owned(ERR_UNREACHABLE)));
    }
    Ok(())
}

/// A server after an update: a given non-blank name replaces the old one
/// (trimmed); a given URL replaces the old one (trimmed; blank clears it);
/// id and registration time stay.
pub fn apply_server_update(s: GpuServer, req: UpdateGpuServerRequest) -> (r: GpuServer)
    ensures
        r.id == s.id && r.registered_at == s.registered_at,
        r.name@ == match req.name {
            Some(n) => if trim(n@).len() > 0 {
                trim(n@)
            } else {
                s.name@
            },
            None => s.name@,
        },
        match req.node_exporter_url {
            Some(u) => if trim(u@).len() > 0 {
                r.node_exporter_url matches Some(x) && x@ == trim(u@)
            } else {
                r.node_exporter_url is None
            },
            None => r.node_exporter_url == s.node_exporter_url,
        },
{
    let name = match &req.name {
        Some(n) => {
            let t = trim_str(n.as_str());
            if t.unicode_len() > 0 {
                owned(t)
            } else {
                s.name
            }
        },
        None => s.name,
    };
    let node_exporter_url = match &req.node_exporter_url {
        Some(u) => {
            let t = trim_str(u.as_str());
            if t.unicode_len() > 0 {
                Some(owned(t))
            } else {
                None
            }
        },
        None => s.node_exporter_url,
    };
    GpuServer { id: s.id, name, node_exporter_url, registered_at: s.registered_at }
}

/// A GPU server as the listing shows it.
#[derive(Debug, Clone, PartialEq, Eq)]
pub struct GpuServerSummary {
    pub id: GpuServerId,
    pub name: String,
    pub node_exporter_url: Option<String>,
    pub registered_at: i64,
}

impl GpuServerSummary {
    /// The listing form of a server.
    pub fn from_server(s: GpuServer) -> (r: GpuServerSummary)
        ensures
            r.id == GpuServerId(s.id),
            r.name == s.name,
            r.node_exporter_url == s.node_exporter_url,
            r.registered_at == s.registered_at,
    {
        GpuServerSummary { id: GpuServerId(s.id), name: s.name, node_exporter_url: s.node_exporter_url, registered_at: s.registered_at }
    }
}

} // verus!
