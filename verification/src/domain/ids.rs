//! Typed public identifiers.
//!
//! Identifiers are 128-bit UUID values internally; externally they are shown
//! as `{prefix}_{base62}` (for example `job_3X4aB…`). Each entity has its own
//! newtype so identifiers of different entities cannot be mixed.

use vstd::prelude::*;
use vstd::string::*;

use crate::codec::{
    is_uuid_v7,
    b62_decode_exec, b62_decodes, b62_encode, b62_encode_exec, b62_error_text, b62_value,
    lemma_b62_roundtrip, new_uuid_v7,
};
use crate::text::{concat2, concat3, has_prefix, starts_with};

verus! {

/// The public text of an identifier: `{prefix}_{base62(value)}`.
pub open spec fn pub_id_text(prefix: Seq<char>, n: u128) -> Seq<char> {
    prefix + "_"@ + b62_encode(n as nat)
}

/// The value denoted by a public identifier text, if it is well formed.
pub open spec fn pub_id_parse(prefix: Seq<char>, s: Seq<char>) -> Option<u128> {
    let head = prefix + "_"@;
    let rest = s.subrange(head.len() as int, s.len() as int);
    if has_prefix(s, head) && b62_decodes(rest) {
        Some(b62_value(rest) as u128)
    } else {
        None
    }
}

/// Encodes a UUID value as a prefixed base62 public ID (e.g. `"job_3X4aB…"`).
pub fn pub_id_encode(prefix: &str, uuid: u128) -> (r: String)
    ensures
        r@ == pub_id_text(prefix@, uuid),
{
    let digits = b62_encode_exec(uuid);
    concat3(prefix, "_", digits.as_str())
}

/// Decodes a prefixed base62 public ID back to its UUID value.
pub fn pub_id_decode(prefix: &str, s: &str) -> (r: Result<u128, String>)
    ensures
        match r {
            Ok(v) => pub_id_parse(prefix@, s@) == Some(v),
            Err(msg) => pub_id_parse(prefix@, s@) is None && if has_prefix(s@, prefix@ + "_"@) {
                has_prefix(msg@, "invalid base62: "@)
            } else {
                msg@ == "expected prefix '"@ + prefix@ + "_"@ + "'"@
            },
        },
{
    let head = concat2(prefix, "_");
    if !starts_with(s, head.as_str()) {
        return Err(concat3("expected prefix '", head.as_str(), "'"));
    }
    let k = head.as_str().unicode_len();
    let n = s.unicode_len();
    let rest = s.substring_char(k, n);
    match b62_decode_exec(rest) {
        Ok(v) => Ok(v),
        Err(e) => {
            let text = b62_error_text(&e);
            let msg = concat2("invalid base62: ", text.as_str());
            assert(msg@.subrange(0, "invalid base62: "@.len() as int) =~= "invalid base62: "@);
            Err(msg)
        },
    }
}

/// Decoding the public text of an identifier gives the identifier back.
pub proof fn lemma_pub_id_roundtrip(prefix: Seq<char>, n: u128)
    ensures
        pub_id_parse(prefix, pub_id_text(prefix, n)) == Some(n),
{
    lemma_b62_roundtrip(n as nat);
    let head = prefix + "_"@;
    let s = pub_id_text(prefix, n);
    assert(s.subrange(0, head.len() as int) =~= head);
    assert(s.subrange(head.len() as int, s.len() as int) =~= b62_encode(n as nat));
}

/// Identifier with public prefix `job`.
#[derive(Debug, Clone, Copy, PartialEq, Eq, Structural)]
pub struct JobId(pub u128);

impl JobId {
    pub const PREFIX: &'static str = "job";

    /// The public text of this identifier.
    pub open spec fn public_text(self) -> Seq<char> {
        pub_id_text("job"@, self.0)
    }

    /// A fresh identifier from a new time-ordered UUID.
    pub fn new() -> (r: JobId)
        ensures
            is_uuid_v7(r.0),
    {
        JobId(new_uuid_v7())
    }

    pub fn from_uuid(uuid: u128) -> (r: JobId)
        ensures
            r.0 == uuid,
    {
        JobId(uuid)
    }

    pub fn as_uuid(&self) -> (r: u128)
        ensures
            r == self.0,
    {
        self.0
    }

    /// Renders the public text `job_{base62}`.
    pub fn to_string(&self) -> (r: String)
        ensures
            r@ == self.public_text(),
    {
        pub_id_encode("job", self.0)
    }

    /// Parses the public text `job_{base62}`.
    pub fn parse_str(s: &str) -> (r: Result<JobId, String>)
        ensures
            match r {
                Ok(id) => pub_id_parse("job"@, s@) == Some(id.0),
                Err(_) => pub_id_parse("job"@, s@) is None,
            },
    {
        match pub_id_decode("job", s) {
            Ok(v) => Ok(JobId(v)),
            Err(e) => Err(e),
        }
    }
}

impl Default for JobId {
    fn default() -> (r: JobId)
        ensures
            is_uuid_v7(r.0),
    {
        JobId::new()
    }
}

impl std::str::FromStr for JobId {
    type Err = String;

    fn from_str(s: &str) -> (r: Result<JobId, String>)
        ensures
            match r {
                Ok(id) => pub_id_parse("job"@, s@) == Some(id.0),
                Err(_) => pub_id_parse("job"@, s@) is None,
            },
    {
        JobId::parse_str(s)
    }
}

/// Identifier with public prefix `conv`.
#[derive(Debug, Clone, Copy, PartialEq, Eq, Structural)]
pub struct ConvId(pub u128);

impl ConvId {
    pub const PREFIX: &'static str = "conv";

    /// The public text of this identifier.
    pub open spec fn public_text(self) -> Seq<char> {
        pub_id_text("conv"@, self.0)
    }

    /// A fresh identifier from a new time-ordered UUID.
    pub fn new() -> (r: ConvId)
        ensures
            is_uuid_v7(r.0),
    {
        ConvId(new_uuid_v7())
    }

    pub fn from_uuid(uuid: u128) -> (r: ConvId)
        ensures
            r.0 == uuid,
    {
        ConvId(uuid)
    }

    pub fn as_uuid(&self) -> (r: u128)
        ensures
            r == self.0,
    {
        self.0
    }

    /// Renders the public text `conv_{base62}`.
    pub fn to_string(&self) -> (r: String)
        ensures
            r@ == self.public_text(),
    {
        pub_id_encode("conv", self.0)
    }

    /// Parses the public text `conv_{base62}`.
    pub fn parse_str(s: &str) -> (r: Result<ConvId, String>)
        ensures
            match r {
                Ok(id) => pub_id_parse("conv"@, s@) == Some(id.0),
                Err(_) => pub_id_parse("conv"@, s@) is None,
            },
    {
        match pub_id_decode("conv", s) {
            Ok(v) => Ok(ConvId(v)),
            Err(e) => Err(e),
        }
    }
}

impl Default for ConvId {
    fn default() -> (r: ConvId)
        ensures
            is_uuid_v7(r.0),
    {
        ConvId::new()
    }
}

impl std::str::FromStr for ConvId {
    type Err = String;

    fn from_str(s: &str) -> (r: Result<ConvId, String>)
        ensures
            match r {
                Ok(id) => pub_id_parse("conv"@, s@) == Some(id.0),
                Err(_) => pub_id_parse("conv"@, s@) is None,
            },
    {
        ConvId::parse_str(s)
    }
}

/// Identifier with public prefix `acct`.
#[derive(Debug, Clone, Copy, PartialEq, Eq, Structural)]
pub struct AccountId(pub u128);

impl AccountId {
    pub const PREFIX: &'static str = "acct";

    /// The public text of this identifier.
    pub open spec fn public_text(self) -> Seq<char> {
        pub_id_text("acct"@, self.0)
    }

    /// A fresh identifier from a new time-ordered UUID.
    pub fn new() -> (r: AccountId)
        ensures
            is_uuid_v7(r.0),
    {
        AccountId(new_uuid_v7())
    }

    pub fn from_uuid(uuid: u128) -> (r: AccountId)
        ensures
            r.0 == uuid,
    {
        AccountId(uuid)
    }

    pub fn as_uuid(&self) -> (r: u128)
        ensures
            r == self.0,
    {
        self.0
    }

    /// Renders the public text `acct_{base62}`.
    pub fn to_string(&self) -> (r: String)
        ensures
            r@ == self.public_text(),
    {
        pub_id_encode("acct", self.0)
    }

    /// Parses the public text `acct_{base62}`.
    pub fn parse_str(s: &str) -> (r: Result<AccountId, String>)
        ensures
            match r {
                Ok(id) => pub_id_parse("acct"@, s@) == Some(id.0),
                Err(_) => pub_id_parse("acct"@, s@) is None,
            },
    {
        match pub_id_decode("acct", s) {
            Ok(v) => Ok(AccountId(v)),
            Err(e) => Err(e),
        }
    }
}

impl Default for AccountId {
    fn default() -> (r: AccountId)
        ensures
            is_uuid_v7(r.0),
    {
        AccountId::new()
    }
}

impl std::str::FromStr for AccountId {
    type Err = String;

    fn from_str(s: &str) -> (r: Result<AccountId, String>)
        ensures
            match r {
                Ok(id) => pub_id_parse("acct"@, s@) == Some(id.0),
                Err(_) => pub_id_parse("acct"@, s@) is None,
            },
    {
        AccountId::parse_str(s)
    }
}

/// Identifier with public prefix `key`.
#[derive(Debug, Clone, Copy, PartialEq, Eq, Structural)]
pub struct ApiKeyId(pub u128);

impl ApiKeyId {
    pub const PREFIX: &'static str = "key";

    /// The public text of this identifier.
    pub open spec fn public_text(self) -> Seq<char> {
        pub_id_text("key"@, self.0)
    }

    /// A fresh identifier from a new time-ordered UUID.
    pub fn new() -> (r: ApiKeyId)
        ensures
            is_uuid_v7(r.0),
    {
        ApiKeyId(new_uuid_v7())
    }

    pub fn from_uuid(uuid: u128) -> (r: ApiKeyId)
        ensures
            r.0 == uuid,
    {
        ApiKeyId(uuid)
    }

    pub fn as_uuid(&self) -> (r: u128)
        ensures
            r == self.0,
    {
        self.0
    }

    /// Renders the public text `key_{base62}`.
    pub fn to_string(&self) -> (r: String)
        ensures
            r@ == self.public_text(),
    {
        pub_id_encode("key", self.0)
    }

    /// Parses the public text `key_{base62}`.
    pub fn parse_str(s: &str) -> (r: Result<ApiKeyId, String>)
        ensures
            match r {
                Ok(id) => pub_id_parse("key"@, s@) == Some(id.0),
                Err(_) => pub_id_parse("key"@, s@) is None,
            },
    {
        match pub_id_decode("key", s) {
            Ok(v) => Ok(ApiKeyId(v)),
            Err(e) => Err(e),
        }
    }
}

impl Default for ApiKeyId {
    fn default() -> (r: ApiKeyId)
        ensures
            is_uuid_v7(r.0),
    {
        ApiKeyId::new()
    }
}

impl std::str::FromStr for ApiKeyId {
    type Err = String;

    fn from_str(s: &str) -> (r: Result<ApiKeyId, String>)
        ensures
            match r {
                Ok(id) => pub_id_parse("key"@, s@) == Some(id.0),
                Err(_) => pub_id_parse("key"@, s@) is None,
            },
    {
        ApiKeyId::parse_str(s)
    }
}

/// Identifier with public prefix `role`.
#[derive(Debug, Clone, Copy, PartialEq, Eq, Structural)]
pub struct RoleId(pub u128);

impl RoleId {
    pub const PREFIX: &'static str = "role";

    /// The public text of this identifier.
    pub open spec fn public_text(self) -> Seq<char> {
        pub_id_text("role"@, self.0)
    }

    /// A fresh identifier from a new time-ordered UUID.
    pub fn new() -> (r: RoleId)
        ensures
            is_uuid_v7(r.0),
    {
        RoleId(new_uuid_v7())
    }

    pub fn from_uuid(uuid: u128) -> (r: RoleId)
        ensures
            r.0 == uuid,
    {
        RoleId(uuid)
    }

    pub fn as_uuid(&self) -> (r: u128)
        ensures
            r == self.0,
    {
        self.0
    }

    /// Renders the public text `role_{base62}`.
    pub fn to_string(&self) -> (r: String)
        ensures
            r@ == self.public_text(),
    {
        pub_id_encode("role", self.0)
    }

    /// Parses the public text `role_{base62}`.
    pub fn parse_str(s: &str) -> (r: Result<RoleId, String>)
        ensures
            match r {
                Ok(id) => pub_id_parse("role"@, s@) == Some(id.0),
                Err(_) => pub_id_parse("role"@, s@) is None,
            },
    {
        match pub_id_decode("role", s) {
            Ok(v) => Ok(RoleId(v)),
            Err(e) => Err(e),
        }
    }
}

impl Default for RoleId {
    fn default() -> (r: RoleId)
        ensures
            is_uuid_v7(r.0),
    {
        RoleId::new()
    }
}

impl std::str::FromStr for RoleId {
    type Err = String;

    fn from_str(s: &str) -> (r: Result<RoleId, String>)
        ensures
            match r {
                Ok(id) => pub_id_parse("role"@, s@) == Some(id.0),
                Err(_) => pub_id_parse("role"@, s@) is None,
            },
    {
        RoleId::parse_str(s)
    }
}

/// Identifier with public prefix `sess`.
#[derive(Debug, Clone, Copy, PartialEq, Eq, Structural)]
pub struct SessionId(pub u128);

impl SessionId {
    pub const PREFIX: &'static str = "sess";

    /// The public text of this identifier.
    pub open spec fn public_text(self) -> Seq<char> {
        pub_id_text("sess"@, self.0)
    }

    /// A fresh identifier from a new time-ordered UUID.
    pub fn new() -> (r: SessionId)
        ensures
            is_uuid_v7(r.0),
    {
        SessionId(new_uuid_v7())
    }

    pub fn from_uuid(uuid: u128) -> (r: SessionId)
        ensures
            r.0 == uuid,
    {
        SessionId(uuid)
    }

    pub fn as_uuid(&self) -> (r: u128)
        ensures
            r == self.0,
    {
        self.0
    }

    /// Renders the public text `sess_{base62}`.
    pub fn to_string(&self) -> (r: String)
        ensures
            r@ == self.public_text(),
    {
        pub_id_encode("sess", self.0)
    }

    /// Parses the public text `sess_{base62}`.
    pub fn parse_str(s: &str) -> (r: Result<SessionId, String>)
        ensures
            match r {
                Ok(id) => pub_id_parse("sess"@, s@) == Some(id.0),
                Err(_) => pub_id_parse("sess"@, s@) is None,
            },
    {
        match pub_id_decode("sess", s) {
            Ok(v) => Ok(SessionId(v)),
            Err(e) => Err(e),
        }
    }
}

impl Default for SessionId {
    fn default() -> (r: SessionId)
        ensures
            is_uuid_v7(r.0),
    {
        SessionId::new()
    }
}

impl std::str::FromStr for SessionId {
    type Err = String;

    fn from_str(s: &str) -> (r: Result<SessionId, String>)
        ensures
            match r {
                Ok(id) => pub_id_parse("sess"@, s@) == Some(id.0),
                Err(_) => pub_id_parse("sess"@, s@) is None,
            },
    {
        SessionId::parse_str(s)
    }
}

/// Identifier with public prefix `prov`.
#[derive(Debug, Clone, Copy, PartialEq, Eq, Structural)]
pub struct ProviderId(pub u128);

impl ProviderId {
    pub const PREFIX: &'static str = "prov";

    /// The public text of this identifier.
    pub open spec fn public_text(self) -> Seq<char> {
        pub_id_text("prov"@, self.0)
    }

    /// A fresh identifier from a new time-ordered UUID.
    pub fn new() -> (r: ProviderId)
        ensures
            is_uuid_v7(r.0),
    {
        ProviderId(new_uuid_v7())
    }

    pub fn from_uuid(uuid: u128) -> (r: ProviderId)
        ensures
            r.0 == uuid,
    {
        ProviderId(uuid)
    }

    pub fn as_uuid(&self) -> (r: u128)
        ensures
            r == self.0,
    {
        self.0
    }

    /// Renders the public text `prov_{base62}`.
    pub fn to_string(&self) -> (r: String)
        ensures
            r@ == self.public_text(),
    {
        pub_id_encode("prov", self.0)
    }

    /// Parses the public text `prov_{base62}`.
    pub fn parse_str(s: &str) -> (r: Result<ProviderId, String>)
        ensures
            match r {
                Ok(id) => pub_id_parse("prov"@, s@) == Some(id.0),
                Err(_) => pub_id_parse("prov"@, s@) is None,
            },
    {
        match pub_id_decode("prov", s) {
            Ok(v) => Ok(ProviderId(v)),
            Err(e) => Err(e),
        }
    }
}

impl Default for ProviderId {
    fn default() -> (r: ProviderId)
        ensures
            is_uuid_v7(r.0),
    {
        ProviderId::new()
    }
}

impl std::str::FromStr for ProviderId {
    type Err = String;

    fn from_str(s: &str) -> (r: Result<ProviderId, String>)
        ensures
            match r {
                Ok(id) => pub_id_parse("prov"@, s@) == Some(id.0),
                Err(_) => pub_id_parse("prov"@, s@) is None,
            },
    {
        ProviderId::parse_str(s)
    }
}

/// Identifier with public prefix `gpu`.
#[derive(Debug, Clone, Copy, PartialEq, Eq, Structural)]
pub struct GpuServerId(pub u128);

impl GpuServerId {
    pub const PREFIX: &'static str = "gpu";

    /// The public text of this identifier.
    pub open spec fn public_text(self) -> Seq<char> {
        pub_id_text("gpu"@, self.0)
    }

    /// A fresh identifier from a new time-ordered UUID.
    pub fn new() -> (r: GpuServerId)
        ensures
            is_uuid_v7(r.0),
    {
        GpuServerId(new_uuid_v7())
    }

    pub fn from_uuid(uuid: u128) -> (r: GpuServerId)
        ensures
            r.0 == uuid,
    {
        GpuServerId(uuid)
    }

    pub fn as_uuid(&self) -> (r: u128)
        ensures
            r == self.0,
    {
        self.0
    }

    /// Renders the public text `gpu_{base62}`.
    pub fn to_string(&self) -> (r: String)
        ensures
            r@ == self.public_text(),
    {
        pub_id_encode("gpu", self.0)
    }

    /// Parses the public text `gpu_{base62}`.
    pub fn parse_str(s: &str) -> (r: Result<GpuServerId, String>)
        ensures
            match r {
                Ok(id) => pub_id_parse("gpu"@, s@) == Some(id.0),
                Err(_) => pub_id_parse("gpu"@, s@) is None,
            },
    {
        match pub_id_decode("gpu", s) {
            Ok(v) => Ok(GpuServerId(v)),
            Err(e) => Err(e),
        }
    }
}

impl Default for GpuServerId {
    fn default() -> (r: GpuServerId)
        ensures
            is_uuid_v7(r.0),
    {
        GpuServerId::new()
    }
}

impl std::str::FromStr for GpuServerId {
    type Err = String;

    fn from_str(s: &str) -> (r: Result<GpuServerId, String>)
        ensures
            match r {
                Ok(id) => pub_id_parse("gpu"@, s@) == Some(id.0),
                Err(_) => pub_id_parse("gpu"@, s@) is None,
            },
    {
        GpuServerId::parse_str(s)
    }
}

/// Identifier with public prefix `mcp`.
#[derive(Debug, Clone, Copy, PartialEq, Eq, Structural)]
pub struct McpId(pub u128);

impl McpId {
    pub const PREFIX: &'static str = "mcp";

    /// The public text of this identifier.
    pub open spec fn public_text(self) -> Seq<char> {
        pub_id_text("mcp"@, self.0)
    }

    /// A fresh identifier from a new time-ordered UUID.
    pub fn new() -> (r: McpId)
        ensures
            is_uuid_v7(r.0),
    {
        McpId(new_uuid_v7())
    }

    pub fn from_uuid(uuid: u128) -> (r: McpId)
        ensures
            r.0 == uuid,
    {
        McpId(uuid)
    }

    pub fn as_uuid(&self) -> (r: u128)
        ensures
            r == self.0,
    {
        self.0
    }

    /// Renders the public text `mcp_{base62}`.
    pub fn to_string(&self) -> (r: String)
        ensures
            r@ == self.public_text(),
    {
        pub_id_encode("mcp", self.0)
    }

    /// Parses the public text `mcp_{base62}`.
    pub fn parse_str(s: &str) -> (r: Result<McpId, String>)
        ensures
            match r {
                Ok(id) => pub_id_parse("mcp"@, s@) == Some(id.0),
                Err(_) => pub_id_parse("mcp"@, s@) is None,
            },
    {
        match pub_id_decode("mcp", s) {
            Ok(v) => Ok(McpId(v)),
            Err(e) => Err(e),
        }
    }
}

impl Default for McpId {
    fn default() -> (r: McpId)
        ensures
            is_uuid_v7(r.0),
    {
        McpId::new()
    }
}

impl std::str::FromStr for McpId {
    type Err = String;

    fn from_str(s: &str) -> (r: Result<McpId, String>)
        ensures
            match r {
                Ok(id) => pub_id_parse("mcp"@, s@) == Some(id.0),
                Err(_) => pub_id_parse("mcp"@, s@) is None,
            },
    {
        McpId::parse_str(s)
    }
}

} // verus!
