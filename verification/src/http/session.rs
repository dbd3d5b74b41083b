//! Session handling of the auth endpoints: cookies, login and refresh
//! checks, first-run setup, password rules, and the claims of an access
//! token.

use vstd::prelude::*;
use vstd::string::*;

use crate::codec::uuid_hyphenated;
use crate::domain::entities::{Account, Session};
use crate::domain::services::argon2_accepts;
use crate::domain::enums::{AccountRole, ALL_MENUS, ALL_PERMISSIONS};
use crate::domain::ids::RoleId;
use crate::http::dto::RoleInfo;
use crate::http::auth::{Claims, ACCESS_COOKIE_PREFIX, REFRESH_COOKIE_PREFIX};
use crate::http::constants::{ACCESS_TOKEN_MAX_AGE, REFRESH_TOKEN_MAX_AGE};
use crate::http::error::AppError;
use crate::text::{concat3, insert_sorted, push_char, str_eq, strictly_sorted, texts, u64_to_decimal};

verus! {

// ── Cookies ──────────────────────────────────────────────────────────────────

/// Characters removed from a cookie value (header injection guard).
pub open spec fn cookie_unsafe(c: char) -> bool {
    c == '\r' || c == '\n' || c == ';' || c == ','
}

/// `v` without the characters that could break out of a cookie.
pub open spec fn sanitized(v: Seq<char>) -> Seq<char>
    decreases v.len(),
{
    if v.len() == 0 {
        Seq::empty()
    } else if cookie_unsafe(v.last()) {
        sanitized(v.drop_last())
    } else {
        sanitized(v.drop_last()).push(v.last())
    }
}

/// Removes CR, LF, `;` and `,` from a cookie value.
pub fn sanitize_cookie_value(v: &str) -> (r: String)
    ensures
        r@ == sanitized(v@),
{
    let n = v.unicode_len();
    let mut r = String::new();
    let mut i: usize = 0;
    while i < n
        invariant
            n == v@.len(),
            i <= n,
            r@ == sanitized(v@.subrange(0, i as int)),
        decreases n - i,
    {
        assert(v@.subrange(0, i + 1).drop_last() =~= v@.subrange(0, i as int));
        let c = v.get_char(i);
        if !(c == '\r' || c == '\n' || c == ';' || c == ',') {
            push_char(&mut r, c);
        }
        i += 1;
    }
    assert(v@.subrange(0, n as int) =~= v@);
    r
}

/// A sanitized cookie value holds none of the removed characters, keeps
/// every other character of the input in order, and sanitizing it again
/// changes nothing.
pub proof fn lemma_sanitized_safe(v: Seq<char>)
    ensures
        forall|i: int| 0 <= i < sanitized(v).len() ==> !cookie_unsafe(#[trigger] sanitized(v)[i]),
        sanitized(sanitized(v)) == sanitized(v),
        (forall|i: int| 0 <= i < v.len() ==> !cookie_unsafe(#[trigger] v[i])) ==> sanitized(v) == v,
    decreases v.len(),
{
    if v.len() > 0 {
        let w = v.drop_last();
        lemma_sanitized_safe(w);
        if !cookie_unsafe(v.last()) {
            let sw = sanitized(w);
            let t = sw.push(v.last());
            assert(t.drop_last() =~= sw);
            assert(t.last() == v.last());
            assert forall|i: int| 0 <= i < t.len() implies !cookie_unsafe(#[trigger] t[i]) by {
                if i < sw.len() {
                    assert(t[i] == sw[i]);
                }
            }
        }
        if forall|i: int| 0 <= i < v.len() ==> !cookie_unsafe(#[trigger] v[i]) {
            assert forall|i: int| 0 <= i < w.len() implies !cookie_unsafe(#[trigger] w[i]) by {
                assert(w[i] == v[i]);
            }
            assert(!cookie_unsafe(v[v.len() - 1]));
            assert(w.push(v.last()) =~= v);
        }
    } else {
        assert(sanitized(Seq::<char>::empty()) =~= Seq::<char>::empty());
    }
}

/// Attributes of the access-token cookie, after the value.
pub const ACCESS_COOKIE_ATTRS: &'static str = "; HttpOnly; Secure; SameSite=Strict; Path=/; Max-Age=";

/// Attributes of the refresh-token cookie (sent to the auth routes only).
pub const REFRESH_COOKIE_ATTRS: &'static str = "; HttpOnly; Secure; SameSite=Strict; Path=/v1/auth; Max-Age=";

/// The `Set-Cookie` values that store both tokens: the access token for
/// every path (one hour), the refresh token for `/v1/auth` (seven days),
/// each value sanitised.
pub fn auth_cookie_headers(access_token: &str, refresh_token: &str) -> (r: (String, String))
    ensures
        r.0@ == ACCESS_COOKIE_PREFIX@ + sanitized(access_token@) + ACCESS_COOKIE_ATTRS@ + crate::text::decimal(
            ACCESS_TOKEN_MAX_AGE as nat,
        ),
        r.1@ == REFRESH_COOKIE_PREFIX@ + sanitized(refresh_token@) + REFRESH_COOKIE_ATTRS@
            + crate::text::decimal(REFRESH_TOKEN_MAX_AGE as nat),
{
    let access = sanitize_cookie_value(access_token);
    let refresh = sanitize_cookie_value(refresh_token);
    let mut a = concat3(ACCESS_COOKIE_PREFIX, access.as_str(), ACCESS_COOKIE_ATTRS);
    let age_a = u64_to_decimal(ACCESS_TOKEN_MAX_AGE as u64);
    a.append(age_a.as_str());
    let mut b = concat3(REFRESH_COOKIE_PREFIX, refresh.as_str(), REFRESH_COOKIE_ATTRS);
    let age_b = u64_to_decimal(REFRESH_TOKEN_MAX_AGE as u64);
    b.append(age_b.as_str());
    (a, b)
}

/// The `Set-Cookie` values that clear both cookies (empty, `Max-Age=0`).
pub fn clear_cookie_headers() -> (r: (String, String))
    ensures
        r.0@ == ACCESS_COOKIE_PREFIX@ + ACCESS_COOKIE_ATTRS@ + "0"@,
        r.1@ == REFRESH_COOKIE_PREFIX@ + REFRESH_COOKIE_ATTRS@ + "0"@,
{
    (concat3(ACCESS_COOKIE_PREFIX, ACCESS_COOKIE_ATTRS, "0"), concat3(REFRESH_COOKIE_PREFIX, REFRESH_COOKIE_ATTRS, "0"))
}

// ── Passwords and login ──────────────────────────────────────────────────────

/// Fewest bytes of a new password.
pub const MIN_PASSWORD_LEN: usize = 8;

/// A new password must have at least eight bytes.
pub fn check_new_password(password: &str) -> (r: Result<(), AppError>)
    ensures
        password.len() < MIN_PASSWORD_LEN ==> (r matches Err(AppError::BadRequest(m)) && m@
            == "password must be at least 8 characters long"@),
        password.len() >= MIN_PASSWORD_LEN ==> r is Ok,
{
    if password.len() < MIN_PASSWORD_LEN {
        Err(AppError::BadRequest("password must be at least 8 characters long".to_owned()))
    } else {
        Ok(())
    }
}

/// Seconds a login-attempt counter lives.
pub const LOGIN_WINDOW_SECS: u64 = 300;

/// Login rate limit per client address: with a limit set, more than `limit`
/// attempts in the window are refused (429, retry after 300 s).
pub fn check_login_rate(limit: u32, attempts: i64) -> (r: Result<(), AppError>)
    ensures
        limit > 0 && attempts > limit ==> r == Err::<(), AppError>(AppError::TooManyRequests { retry_after: 300 }),
        !(limit > 0 && attempts > limit) ==> r is Ok,
{
    if limit > 0 && attempts > limit as i64 {
        Err(AppError::TooManyRequests { retry_after: 300 })
    } else {
        Ok(())
    }
}

/// `PasswordHash::new(phc)` then `Argon2::default().verify_password`.
#[verifier::external_body]
fn verify_password(password: &[u8], phc: &str) -> (r: bool)
    ensures
        r == argon2_accepts(password@, phc@),
{
    match argon2::PasswordHash::new(phc) {
        Ok(h) => argon2::PasswordVerifier::verify_password(&argon2::Argon2::default(), password, &h).is_ok(),
        Err(_) => false,
    }
}

/// A well-formed hash verified when the user is unknown, so that unknown
/// and known users take comparable time.
pub const DUMMY_PASSWORD_HASH: &'static str = "$argon2id$v=19$m=19456,t=2,p=1$AAAAAAAAAAAAAAAAAAAAAA$AAAAAAAAAAAAAAAAAAAAAAAAAAAAAAAAAAAAAAAAAAA";

/// What login reads of an account.
#[derive(Debug, Clone, PartialEq, Eq)]
pub struct LoginAccount {
    pub is_active: bool,
    pub password_hash: String,
}

/// `e` is `401` with message `msg`.
pub open spec fn unauthorized_with(e: AppError, msg: Seq<char>) -> bool {
    e matches AppError::Unauthorized(m) && m@ == msg
}

/// Checks a login: an unknown user or a wrong password is `401 invalid
/// credentials` (the same answer, so users cannot be enumerated); a
/// disabled account is `401 account is disabled`.
pub fn check_login(account: Option<&LoginAccount>, password: &str) -> (r: Result<(), AppError>)
    ensures
        match account {
            None => r matches Err(e) && unauthorized_with(e, "invalid credentials"@),
            Some(a) => if !a.is_active {
                r matches Err(e) && unauthorized_with(e, "account is disabled"@)
            } else if !argon2_accepts(password.spec_bytes(), a.password_hash@) {
                r matches Err(e) && unauthorized_with(e, "invalid credentials"@)
            } else {
                r is Ok
            },
        },
{
    match account {
        None => {
            let _ = verify_password("dummy".as_bytes(), DUMMY_PASSWORD_HASH);
            Err(AppError::Unauthorized("invalid credentials".to_owned()))
        },
        Some(a) => {
            if !a.is_active {
                return Err(AppError::Unauthorized("account is disabled".to_owned()));
            }
            if !verify_password(password.as_bytes(), a.password_hash.as_str()) {
                return Err(AppError::Unauthorized("invalid credentials".to_owned()));
            }
            Ok(())
        },
    }
}

// ── Refresh ──────────────────────────────────────────────────────────────────

/// Why a refresh is refused, in the order the checks run.
#[derive(Debug, Clone, Copy, PartialEq, Eq)]
pub enum RefreshRefusal {
    MissingToken,
    UnknownToken,
    AlreadyUsed,
    UnknownAccount,
    DisabledAccount,
}

/// The message of a refusal.
pub open spec fn refresh_refusal_text(why: RefreshRefusal) -> Seq<char> {
    match why {
        RefreshRefusal::MissingToken => "missing refresh token"@,
        RefreshRefusal::UnknownToken => "invalid refresh token"@,
        RefreshRefusal::AlreadyUsed => "refresh token already used"@,
        RefreshRefusal::UnknownAccount => "account not found"@,
        RefreshRefusal::DisabledAccount => "account is disabled"@,
    }
}

/// The 401 answer of a refused refresh.
pub fn refresh_refusal(why: RefreshRefusal) -> (r: AppError)
    ensures
        unauthorized_with(r, refresh_refusal_text(why)),
{
    let m = match why {
        RefreshRefusal::MissingToken => "missing refresh token",
        RefreshRefusal::UnknownToken => "invalid refresh token",
        RefreshRefusal::AlreadyUsed => "refresh token already used",
        RefreshRefusal::UnknownAccount => "account not found",
        RefreshRefusal::DisabledAccount => "account is disabled",
    };
    AppError::Unauthorized(m.to_owned())
}

/// The refusal of a refresh, if any, from what the lookups found: the
/// token cookie, whether a session has its hash, whether the one-time
/// claim of the token succeeded, and whether the account exists and is
/// active.
pub fn check_refresh(
    has_token: bool,
    session_found: bool,
    claimed: bool,
    account_active: Option<bool>,
) -> (r: Option<RefreshRefusal>)
    ensures
        r == if !has_token {
            Some(RefreshRefusal::MissingToken)
        } else if !session_found {
            Some(RefreshRefusal::UnknownToken)
        } else if !claimed {
            Some(RefreshRefusal::AlreadyUsed)
        } else {
            match account_active {
                None => Some(RefreshRefusal::UnknownAccount),
                Some(false) => Some(RefreshRefusal::DisabledAccount),
                Some(true) => None::<RefreshRefusal>,
            }
        },
{
    if !has_token {
        Some(RefreshRefusal::MissingToken)
    } else if !session_found {
        Some(RefreshRefusal::UnknownToken)
    } else if !claimed {
        Some(RefreshRefusal::AlreadyUsed)
    } else {
        match account_active {
            None => Some(RefreshRefusal::UnknownAccount),
            Some(false) => Some(RefreshRefusal::DisabledAccount),
            Some(true) => None,
        }
    }
}

// ── Setup ────────────────────────────────────────────────────────────────────

/// First-run setup is possible only while no account exists.
pub fn check_setup_open(existing_accounts: i64) -> (r: Result<(), AppError>)
    ensures
        existing_accounts > 0 ==> (r matches Err(AppError::Conflict(m)) && m@ == "setup already completed"@),
        existing_accounts <= 0 ==> r is Ok,
{
    if existing_accounts > 0 {
        Err(AppError::Conflict("setup already completed".to_owned()))
    } else {
        Ok(())
    }
}

// ── Reset tokens ─────────────────────────────────────────────────────────────

/// `uuid::Uuid::parse_str` of `text`, as the UUID's 128-bit value.
pub uninterp spec fn uuid_parsed(text: Seq<char>) -> Option<u128>;

/// `uuid::Uuid::parse_str`; the hyphenated form of a UUID parses back to it.
#[verifier::external_body]
fn parse_uuid(text: &str) -> (r: Option<u128>)
    ensures
        r == uuid_parsed(text@),
        forall|u: u128| text@ == #[trigger] uuid_hyphenated(u) ==> r == Some(u),
{
    match uuid::Uuid::parse_str(text) {
        Ok(u) => Some(u.as_u128()),
        Err(_) => None,
    }
}

/// The account of a one-time reset token: none stored is `401 invalid or
/// expired reset token`; a stored value that is not a UUID is an internal
/// error.
pub fn reset_token_account(stored: Option<&str>) -> (r: Result<u128, AppError>)
    ensures
        match stored {
            None => r matches Err(e) && unauthorized_with(e, "invalid or expired reset token"@),
            Some(s) => match uuid_parsed(s@) {
                Some(u) => r == Ok::<u128, AppError>(u),
                None => r matches Err(AppError::Internal(_)),
            },
        },
{
    match stored {
        None => Err(AppError::Unauthorized("invalid or expired reset token".to_owned())),
        Some(s) => match parse_uuid(s) {
            Some(u) => Ok(u),
            None => Err(AppError::Internal("invalid account id in reset token".to_owned())),
        },
    }
}

// ── Access tokens ────────────────────────────────────────────────────────────

/// Lifetime of an access token, in seconds.
pub const ACCESS_TOKEN_TTL_SECS: u64 = 3600;

/// The merged role information of an account.
#[derive(Debug, Clone, PartialEq, Eq)]
pub struct ResolvedRole {
    pub permissions: Vec<String>,
    pub menus: Vec<String>,
    pub name: String,
    pub is_super: bool,
}

/// The claims of a new access token issued at `now_secs`: super accounts
/// get the super role, others the admin role; it expires one hour later.
pub fn access_claims(account_id: u128, jti: u128, resolved: &ResolvedRole, now_secs: u64) -> (r: Claims)
    requires
        now_secs + ACCESS_TOKEN_TTL_SECS <= usize::MAX,
    ensures
        r.sub == account_id,
        r.jti == jti,
        r.role == if resolved.is_super {
            AccountRole::Super
        } else {
            AccountRole::Admin
        },
        r.exp == now_secs + ACCESS_TOKEN_TTL_SECS,
        same_texts(r.permissions@, resolved.permissions@),
        same_texts(r.menus@, resolved.menus@),
        r.role_name@ == resolved.name@,
{
    let role = if resolved.is_super {
        AccountRole::Super
    } else {
        AccountRole::Admin
    };
    let exp = (now_secs + ACCESS_TOKEN_TTL_SECS) as usize;
    Claims {
        sub: account_id,
        role,
        jti,
        exp,
        permissions: clone_strings(&resolved.permissions),
        menus: clone_strings(&resolved.menus),
        role_name: resolved.name.clone(),
    }
}

/// Two lists hold the same texts, in order.
pub open spec fn same_texts(a: Seq<String>, b: Seq<String>) -> bool {
    a.len() == b.len() && forall|i: int| 0 <= i < a.len() ==> #[trigger] a[i]@ == b[i]@
}

/// A copy of a list of strings.
pub fn clone_strings(v: &Vec<String>) -> (r: Vec<String>)
    ensures
        same_texts(r@, v@),
{
    let mut out: Vec<String> = Vec::new();
    let n = v.len();
    let mut i: usize = 0;
    while i < n
        invariant
            n == v@.len(),
            i <= n,
            out@.len() == i,
            forall|j: int| 0 <= j < i ==> #[trigger] out@[j]@ == v@[j]@,
        decreases n - i,
    {
        out.push(v[i].clone());
        i += 1;
    }
    out
}

// ── Role resolution ──────────────────────────────────────────────────────────

/// One role assigned to an account: its name, permissions and menus, and
/// whether it is a built-in role.
#[derive(Debug, Clone, PartialEq, Eq)]
pub struct RoleRow {
    pub name: String,
    pub permissions: Vec<String>,
    pub menus: Vec<String>,
    pub is_system: bool,
}

/// The row is the built-in `super` role.
pub open spec fn is_super_row(r: RoleRow) -> bool {
    r.is_system && r.name@ == "super"@
}

/// Some row is the built-in `super` role.
pub open spec fn any_super(rows: Seq<RoleRow>) -> bool {
    exists|i: int| 0 <= i < rows.len() && is_super_row(#[trigger] rows[i])
}

/// Some row grants permission `x`.
pub open spec fn row_permission(rows: Seq<RoleRow>, x: Seq<char>) -> bool {
    exists|i: int| 0 <= i < rows.len() && texts((#[trigger] rows[i]).permissions@).contains(x)
}

/// Some row opens menu `x`.
pub open spec fn row_menu(rows: Seq<RoleRow>, x: Seq<char>) -> bool {
    exists|i: int| 0 <= i < rows.len() && texts((#[trigger] rows[i]).menus@).contains(x)
}

/// `x` is one of the known permissions.
pub open spec fn known_permission(x: Seq<char>) -> bool {
    exists|i: int| 0 <= i < 9 && (#[trigger] ALL_PERMISSIONS@[i])@ == x
}

/// `x` is one of the known menus.
pub open spec fn known_menu(x: Seq<char>) -> bool {
    exists|i: int| 0 <= i < 12 && (#[trigger] ALL_MENUS@[i])@ == x
}

fn insert_all(v: &mut Vec<String>, items: &Vec<String>)
    requires
        strictly_sorted(texts(old(v)@)),
    ensures
        strictly_sorted(texts(final(v)@)),
        forall|x: Seq<char>| texts(final(v)@).contains(x) <==> (texts(old(v)@).contains(x) || texts(items@).contains(x)),
{
    let ghost start = texts(v@);
    let n = items.len();
    let mut i: usize = 0;
    while i < n
        invariant
            n == items@.len(),
            i <= n,
            strictly_sorted(texts(v@)),
            forall|x: Seq<char>| texts(v@).contains(x) <==> (start.contains(x) || texts(items@.subrange(0, i as int)).contains(x)),
        decreases n - i,
    {
        let ghost before = texts(v@);
        assert(forall|x: Seq<char>| before.contains(x) <==> (start.contains(x) || texts(items@.subrange(0, i as int)).contains(x)));
        insert_sorted(v, items[i].as_str());
        proof {
            let pre = texts(items@.subrange(0, i as int));
            let post = texts(items@.subrange(0, i + 1));
            assert(post =~= pre.push(items@[i as int]@));
            assert forall|x: Seq<char>| post.contains(x) <==> (pre.contains(x) || x == items@[i as int]@) by {
                if pre.contains(x) {
                    let k = choose|k: int| 0 <= k < pre.len() && pre[k] == x;
                    assert(post[k] == x);
                }
                if x == items@[i as int]@ {
                    assert(post[i as int] == x);
                }
                if post.contains(x) {
                    let k = choose|k: int| 0 <= k < post.len() && post[k] == x;
                    if k < i {
                        assert(pre[k] == x);
                    }
                }
            }
            assert forall|x: Seq<char>| texts(v@).contains(x) <==> (start.contains(x) || post.contains(x)) by {
                assert(texts(v@).contains(x) <==> (before.contains(x) || x == items@[i as int]@));
                assert(before.contains(x) <==> (start.contains(x) || pre.contains(x)));
            }
        }
        i += 1;
    }
    assert(items@.subrange(0, n as int) =~= items@);
}

fn known_list(all: &[&'static str]) -> (r: Vec<String>)
    ensures
        strictly_sorted(texts(r@)),
        forall|x: Seq<char>| texts(r@).contains(x) <==> (exists|i: int| 0 <= i < all@.len() && (#[trigger] all@[i])@ == x),
{
    let mut v: Vec<String> = Vec::new();
    let n = all.len();
    let mut i: usize = 0;
    while i < n
        invariant
            n == all@.len(),
            i <= n,
            strictly_sorted(texts(v@)),
            forall|x: Seq<char>| texts(v@).contains(x) <==> (exists|k: int| 0 <= k < i && (#[trigger] all@[k])@ == x),
        decreases n - i,
    {
        let ghost before = texts(v@);
        insert_sorted(&mut v, all[i]);
        assert forall|x: Seq<char>| texts(v@).contains(x) <==> (exists|k: int| 0 <= k < i + 1 && (#[trigger] all@[k])@ == x) by {
            if texts(v@).contains(x) && x != all@[i as int]@ {
                assert(before.contains(x));
            }
            if exists|k: int| 0 <= k < i + 1 && (#[trigger] all@[k])@ == x {
                let k = choose|k: int| 0 <= k < i + 1 && (#[trigger] all@[k])@ == x;
                if k < i {
                    assert(exists|k2: int| 0 <= k2 < i && (#[trigger] all@[k2])@ == x);
                }
            }
        }
        i += 1;
    }
    v
}

/// Refusal when an account has no role.
pub const ERR_NO_ROLES: &'static str = "no roles assigned to account";

/// What merging `rows` gives: `r` is super exactly when some row is the
/// built-in `super` role; its name is then `super`, else that of the first
/// row (empty without rows); its permissions and menus are sorted without
/// duplicates, and are every known one for super, else the union of the
/// rows'.
pub open spec fn merged(r: ResolvedRole, rows: Seq<RoleRow>) -> bool {
    &&& r.is_super == any_super(rows)
    &&& r.name@ == if r.is_super {
        "super"@
    } else if rows.len() > 0 {
        rows[0].name@
    } else {
        Seq::empty()
    }
    &&& strictly_sorted(texts(r.permissions@))
    &&& strictly_sorted(texts(r.menus@))
    &&& forall|x: Seq<char>| #[trigger] texts(r.permissions@).contains(x) <==> if r.is_super {
        known_permission(x)
    } else {
        row_permission(rows, x)
    }
    &&& forall|x: Seq<char>| #[trigger] texts(r.menus@).contains(x) <==> if r.is_super {
        known_menu(x)
    } else {
        row_menu(rows, x)
    }
}

/// Merges role rows: the union of their permissions and of their menus,
/// each sorted without duplicates; with the built-in `super` role among
/// them, every known permission and menu instead. The name is `super` then,
/// else that of the first row.
#[verifier::spinoff_prover]
pub fn merge_roles(rows: &Vec<RoleRow>) -> (r: ResolvedRole)
    ensures
        merged(r, rows@),
{
    let n = rows.len();
    let mut perms: Vec<String> = Vec::new();
    let mut menus: Vec<String> = Vec::new();
    let mut is_super = false;
    let mut i: usize = 0;
    while i < n
        invariant
            n == rows@.len(),
            i <= n,
            is_super == any_super(rows@.subrange(0, i as int)),
            strictly_sorted(texts(perms@)),
            strictly_sorted(texts(menus@)),
            forall|x: Seq<char>| texts(perms@).contains(x) <==> row_permission(rows@.subrange(0, i as int), x),
            forall|x: Seq<char>| texts(menus@).contains(x) <==> row_menu(rows@.subrange(0, i as int), x),
        decreases n - i,
    {
        let row = &rows[i];
        let ghost pre = rows@.subrange(0, i as int);
        let ghost post = rows@.subrange(0, i + 1);
        assert(post =~= pre.push(rows@[i as int]));
        if row.is_system && str_eq(row.name.as_str(), "super") {
            is_super = true;
        }
        let ghost perms_before = texts(perms@);
        let ghost menus_before = texts(menus@);
        assert(forall|x: Seq<char>| perms_before.contains(x) <==> row_permission(pre, x));
        assert(forall|x: Seq<char>| menus_before.contains(x) <==> row_menu(pre, x));
        insert_all(&mut perms, &row.permissions);
        insert_all(&mut menus, &row.menus);
        proof {
            assert(post[i as int] == rows@[i as int]);
            assert(any_super(post) == (any_super(pre) || is_super_row(rows@[i as int]))) by {
                if any_super(post) {
                    let k = choose|k: int| 0 <= k < post.len() && is_super_row(#[trigger] post[k]);
                    if k < i {
                        assert(pre[k] == post[k]);
                    }
                }
                if any_super(pre) {
                    let k = choose|k: int| 0 <= k < pre.len() && is_super_row(#[trigger] pre[k]);
                    assert(post[k] == pre[k]);
                }
            }
            assert forall|x: Seq<char>| row_permission(post, x) <==> (row_permission(pre, x) || texts(
                rows@[i as int].permissions@,
            ).contains(x)) by {
                if row_permission(post, x) {
                    let k = choose|k: int| 0 <= k < post.len() && texts((#[trigger] post[k]).permissions@).contains(x);
                    if k < i {
                        assert(pre[k] == post[k]);
                    }
                }
                if row_permission(pre, x) {
                    let k = choose|k: int| 0 <= k < pre.len() && texts((#[trigger] pre[k]).permissions@).contains(x);
                    assert(post[k] == pre[k]);
                }
            }
            assert forall|x: Seq<char>| row_menu(post, x) <==> (row_menu(pre, x) || texts(rows@[i as int].menus@).contains(
                x,
            )) by {
                if row_menu(post, x) {
                    let k = choose|k: int| 0 <= k < post.len() && texts((#[trigger] post[k]).menus@).contains(x);
                    if k < i {
                        assert(pre[k] == post[k]);
                    }
                }
                if row_menu(pre, x) {
                    let k = choose|k: int| 0 <= k < pre.len() && texts((#[trigger] pre[k]).menus@).contains(x);
                    assert(post[k] == pre[k]);
                }
            }
            assert forall|x: Seq<char>| texts(perms@).contains(x) <==> row_permission(post, x) by {
                assert(texts(perms@).contains(x) <==> (perms_before.contains(x) || texts(rows@[i as int].permissions@).contains(x)));
            }
            assert forall|x: Seq<char>| texts(menus@).contains(x) <==> row_menu(post, x) by {
                assert(texts(menus@).contains(x) <==> (menus_before.contains(x) || texts(rows@[i as int].menus@).contains(x)));
            }
        }
        i += 1;
    }
    assert(rows@.subrange(0, n as int) =~= rows@);
    if is_super {
        let all_p = known_list(ALL_PERMISSIONS);
        let all_m = known_list(ALL_MENUS);
        ResolvedRole { permissions: all_p, menus: all_m, name: "super".to_owned(), is_super: true }
    } else {
        let name = if n > 0 {
            rows[0].name.as_str().to_owned()
        } else {
            String::new()
        };
        ResolvedRole { permissions: perms, menus: menus, name, is_super: false }
    }
}

/// Resolves the roles of an account for a new access token: the merged
/// roles; an account without roles is an internal error.
pub fn resolve_roles(rows: &Vec<RoleRow>) -> (r: Result<ResolvedRole, AppError>)
    ensures
        rows@.len() == 0 <==> r is Err,
        r matches Err(e) ==> (e matches AppError::Internal(m) && m@ == ERR_NO_ROLES@),
        r matches Ok(res) ==> merged(res, rows@),
{
    if rows.len() == 0 {
        return Err(AppError::Internal(ERR_NO_ROLES.to_owned()));
    }
    Ok(merge_roles(rows))
}

/// An account as the account list shows it, with its merged roles.
#[derive(Debug, Clone, PartialEq, Eq)]
pub struct AccountSummary {
    pub id: u128,
    pub username: String,
    pub name: String,
    pub email: Option<String>,
    pub roles: Vec<RoleInfo>,
    pub role_name: String,
    pub permissions: Vec<String>,
    pub menus: Vec<String>,
    pub department: Option<String>,
    pub position: Option<String>,
    pub is_active: bool,
    pub last_login_at: Option<i64>,
    pub created_at: i64,
}

/// The listing of an account: its public fields (never the password hash),
/// each role by id and name, and the merged role name, permissions and
/// menus. `role_ids[i]` is the id of `rows[i]`.
pub fn account_summary(a: Account, role_ids: &Vec<u128>, rows: &Vec<RoleRow>) -> (r: AccountSummary)
    requires
        role_ids@.len() == rows@.len(),
    ensures
        r.id == a.id,
        r.username == a.username,
        r.name == a.name,
        r.email == a.email,
        r.department == a.department,
        r.position == a.position,
        r.is_active == a.is_active,
        r.last_login_at == a.last_login_at,
        r.created_at == a.created_at,
        r.roles@.len() == rows@.len(),
        forall|i: int| 0 <= i < rows@.len() ==> (#[trigger] r.roles@[i]).id == RoleId(role_ids@[i]) && r.roles@[i].name@ == rows@[i].name@,
        merged(
            ResolvedRole { permissions: r.permissions, menus: r.menus, name: r.role_name, is_super: any_super(rows@) },
            rows@,
        ),
{
    let resolved = merge_roles(rows);
    let mut roles: Vec<RoleInfo> = Vec::new();
    let n = rows.len();
    let mut i: usize = 0;
    while i < n
        invariant
            n == rows@.len(),
            n == role_ids@.len(),
            i <= n,
            roles@.len() == i,
            forall|k: int| 0 <= k < i ==> (#[trigger] roles@[k]).id == RoleId(role_ids@[k]) && roles@[k].name@ == rows@[k].name@,
        decreases n - i,
    {
        roles.push(RoleInfo { id: RoleId(role_ids[i]), name: rows[i].name.as_str().to_owned() });
        i += 1;
    }
    let ResolvedRole { permissions, menus, name, is_super } = resolved;
    AccountSummary {
        id: a.id,
        username: a.username,
        name: a.name,
        email: a.email,
        roles,
        role_name: name,
        permissions,
        menus,
        department: a.department,
        position: a.position,
        is_active: a.is_active,
        last_login_at: a.last_login_at,
        created_at: a.created_at,
    }
}

/// A new login session: its id, account, token id, refresh-token hash and
/// client address, created now, never used or revoked yet, and valid until
/// the access token expires.
pub fn build_session(
    id: u128,
    account_id: u128,
    jti: u128,
    refresh_hash: String,
    ip_address: Option<String>,
    now: i64,
    expires_at: i64,
) -> (r: Session)
    ensures
        r.id == id && r.account_id == account_id && r.jti == jti,
        r.refresh_token_hash == Some(refresh_hash),
        r.ip_address == ip_address,
        r.created_at == now,
        r.last_used_at is None,
        r.expires_at == expires_at,
        r.revoked_at is None,
{
    Session {
        id,
        account_id,
        jti,
        refresh_token_hash: Some(refresh_hash),
        ip_address,
        created_at: now,
        last_used_at: None,
        expires_at,
        revoked_at: None,
    }
}

} // verus!
