//! The signed-in user, its token claims, and the rules that decide whether a
//! token is still good.
use vstd::prelude::*;
use std::collections::HashSet;
use vstd::string::StringExecFns;
use crate::error::BusinessErrorCode;
use crate::text::push_char;

verus! {

/// The scheme under which tokens are sent.
pub const TOKEN_TYPE: &'static str = "Bearer";

/// The kind of a token that opens the service.
pub const ACCESS_TYPE: &'static str = "ACCESS";

/// The kind of a token that renews the access token.
pub const REFRESH_TYPE: &'static str = "REFRESH";

/// Lifetime of an access token in seconds.
pub const ACCESS_EXP: i64 = 7200;

/// Lifetime of a refresh token in seconds.
pub const REFRESH_EXP: i64 = 604800;

/// Seconds during which the access token that was replaced is still taken.
pub const GRACE_SECONDS: i64 = 300;

/// Seconds after the moment of issue at which a token says it was issued.
pub const ISSUED_AT_OFFSET: i64 = 7200;

/// The signed-in user as the session store holds it.
#[derive(Debug)]
pub struct AuthUser {
    pub id: i64,
    pub username: String,
    pub nick_name: String,
    pub is_admin: bool,
    pub access_token_id: i64,
    pub refresh_token_id: i64,
    pub last_access_token_id: Option<i64>,
    /// When the tokens were last renewed, in seconds since the Unix epoch.
    pub refreshed_at: Option<i64>,
    pub roles: HashSet<String>,
    pub permissions: HashSet<String>,
    pub menu_ids: HashSet<i64>,
}

impl AuthUser {
    /// A user whose tokens have never been renewed.
    pub fn new(
        id: i64,
        username: String,
        nick_name: String,
        is_admin: bool,
        access_token_id: i64,
        refresh_token_id: i64,
        roles: HashSet<String>,
        permissions: HashSet<String>,
        menu_ids: HashSet<i64>,
    ) -> (user: Self)
        ensures
            user.id == id,
            user.username == username,
            user.nick_name == nick_name,
            user.is_admin == is_admin,
            user.access_token_id == access_token_id,
            user.refresh_token_id == refresh_token_id,
            user.last_access_token_id is None,
            user.refreshed_at is None,
            user.roles == roles,
            user.permissions == permissions,
            user.menu_ids == menu_ids,
    {
        AuthUser {
            id,
            username,
            nick_name,
            is_admin,
            access_token_id,
            refresh_token_id,
            last_access_token_id: None,
            refreshed_at: None,
            roles,
            permissions,
            menu_ids,
        }
    }

    /// A user that remembers a replaced access token also remembers when it
    /// was replaced.
    pub open spec fn well_formed(&self) -> bool {
        self.last_access_token_id is Some ==> self.refreshed_at is Some
    }

    /// Whether the user record meets [`AuthUser::well_formed`].
    pub fn is_well_formed(&self) -> (ok: bool)
        ensures
            ok == self.well_formed(),
    {
        self.last_access_token_id.is_none() || self.refreshed_at.is_some()
    }
}

/// What a token states.
#[derive(Debug)]
pub struct Claims {
    /// Subject: the user.
    pub sub: i64,
    /// Issued at, in seconds since the Unix epoch.
    pub iat: i64,
    /// Expires at, in seconds since the Unix epoch.
    pub exp: i64,
    /// Audience.
    pub aud: String,
    /// Issuer.
    pub iss: String,
    /// Token identifier.
    pub jti: i64,
}

/// The signed-in user as it is shown to the user.
#[derive(Debug)]
pub struct AuthUserResponse {
    pub id: i64,
    pub username: String,
    pub nick_name: String,
    pub is_admin: bool,
    pub roles: HashSet<String>,
    pub permissions: HashSet<String>,
}

impl AuthUserResponse {
    /// The part of `value` that is shown: the token identifiers and the menu
    /// stay behind.
    pub fn new(value: AuthUser) -> (shown: Self)
        ensures
            shown.id == value.id,
            shown.username == value.username,
            shown.nick_name == value.nick_name,
            shown.is_admin == value.is_admin,
            shown.roles == value.roles,
            shown.permissions == value.permissions,
    {
        AuthUserResponse {
            id: value.id,
            username: value.username,
            nick_name: value.nick_name,
            is_admin: value.is_admin,
            roles: value.roles,
            permissions: value.permissions,
        }
    }
}

/// Whether the token with the identifier `jti` and the kind `token_type` is
/// good for `user` at the time `now_sec`.
///
/// An access token is good when it is the user's current one, or the one
/// replaced less than [`GRACE_SECONDS`] ago. A refresh token is good when it
/// is the user's current one. A token of any other kind is not checked.
pub open spec fn spec_token_accepted(
    user: AuthUser,
    token_type: Seq<char>,
    jti: i64,
    now_sec: i64,
) -> bool {
    if token_type == ACCESS_TYPE@ {
        user.access_token_id == jti || (user.last_access_token_id == Some(jti)
            && user.refreshed_at is Some && user.refreshed_at->Some_0 + GRACE_SECONDS > now_sec)
    } else if token_type == REFRESH_TYPE@ {
        user.refresh_token_id == jti
    } else {
        true
    }
}

/// Whether deciding on the token comes down to the time at which the access
/// token was replaced: it is an access token, and not the current one but
/// the one remembered as replaced.
pub open spec fn spec_grace_decides(user: AuthUser, token_type: Seq<char>, jti: i64) -> bool {
    &&& token_type == ACCESS_TYPE@
    &&& user.access_token_id != jti
    &&& user.last_access_token_id == Some(jti)
}

/// Whether two texts are the same.
pub fn same_text(left: &str, right: &str) -> (same: bool)
    ensures
        same == (left@ == right@),
{
    String::from_str(left) == String::from_str(right)
}

/// Decides whether a decoded token is good for the user found in the
/// session store: the user comes back when it is, and
/// [`BusinessErrorCode::Unauthorized`] when it is not.
///
/// Where the decision comes down to the time of the last renewal, the user
/// must hold that time; every well-formed user does.
pub fn auth_token(user: AuthUser, token_type: &str, jti: i64, now_sec: i64) -> (outcome: Result<
    AuthUser,
    BusinessErrorCode,
>)
    requires
        spec_grace_decides(user, token_type@, jti) ==> user.refreshed_at is Some,
    ensures
        spec_token_accepted(user, token_type@, jti, now_sec) ==> outcome == Ok::<
            AuthUser,
            BusinessErrorCode,
        >(user),
        !spec_token_accepted(user, token_type@, jti, now_sec) ==> outcome == Err::<
            AuthUser,
            BusinessErrorCode,
        >(BusinessErrorCode::Unauthorized),
{
    if same_text(token_type, ACCESS_TYPE) {
        if user.access_token_id != jti {
            let in_grace = match user.last_access_token_id {
                Some(last) => last == jti && match user.refreshed_at {
                    Some(at) => match at.checked_add(GRACE_SECONDS) {
                        Some(limit) => limit > now_sec,
                        None => true,
                    },
                    None => false,
                },
                None => false,
            };
            if !in_grace {
                return Err(BusinessErrorCode::Unauthorized);
            }
        }
    } else if same_text(token_type, REFRESH_TYPE) && user.refresh_token_id != jti {
        return Err(BusinessErrorCode::Unauthorized);
    }
    Ok(user)
}

/// The user record after its tokens were renewed at `now_sec` with the new
/// identifiers: a user that had an access token remembers it and the time;
/// everything else stays.
pub open spec fn spec_renew_tokens(
    user: AuthUser,
    access_token_id: i64,
    refresh_token_id: i64,
    now_sec: i64,
) -> AuthUser {
    AuthUser {
        access_token_id,
        refresh_token_id,
        last_access_token_id: if user.access_token_id != 0 {
            Some(user.access_token_id)
        } else {
            user.last_access_token_id
        },
        refreshed_at: if user.access_token_id != 0 {
            Some(now_sec)
        } else {
            user.refreshed_at
        },
        ..user
    }
}

/// Gives the user new token identifiers and remembers the access token that
/// they replace.
pub fn renew_tokens(
    user: AuthUser,
    access_token_id: i64,
    refresh_token_id: i64,
    now_sec: i64,
) -> (renewed: AuthUser)
    ensures
        renewed == spec_renew_tokens(user, access_token_id, refresh_token_id, now_sec),
        user.well_formed() ==> renewed.well_formed(),
{
    let mut renewed = user;
    if renewed.access_token_id != 0 {
        renewed.last_access_token_id = Some(renewed.access_token_id);
        renewed.refreshed_at = Some(now_sec);
    }
    renewed.access_token_id = access_token_id;
    renewed.refresh_token_id = refresh_token_id;
    renewed
}

/// The claims of a token issued at `now_sec` that lives `lifetime` seconds:
/// it expires at `now_sec + lifetime` and says it was issued at
/// `now_sec + ISSUED_AT_OFFSET`.
pub fn issue_claims(id: i64, aud: String, iss: String, jti: i64, lifetime: i64, now_sec: i64) -> (claims:
    Claims)
    requires
        i64::MIN <= now_sec + lifetime <= i64::MAX,
        now_sec + ISSUED_AT_OFFSET <= i64::MAX,
    ensures
        claims.sub == id,
        claims.iat == now_sec + ISSUED_AT_OFFSET,
        claims.exp == now_sec + lifetime,
        claims.aud == aud,
        claims.iss == iss,
        claims.jti == jti,
{
    Claims { sub: id, iat: now_sec + ISSUED_AT_OFFSET, exp: now_sec + lifetime, aud, iss, jti }
}

/// The character of a permission name that stands for `c` of a request
/// path: a colon for a slash, and the character itself otherwise.
pub open spec fn permission_char(c: char) -> char {
    if c == '/' {
        ':'
    } else {
        c
    }
}

/// The permission that a request to `path` needs: the path without its
/// first character, with a colon for every slash.
pub open spec fn spec_permission_of_path(path: Seq<char>) -> Seq<char> {
    if path.len() == 0 {
        path
    } else {
        path.subrange(1, path.len() as int).map_values(|c: char| permission_char(c))
    }
}

/// The permission that a request to `path` needs: `/system/role/list` needs
/// `system:role:list`.
pub fn permission_of_path(path: &str) -> (permission: String)
    ensures
        permission@ == spec_permission_of_path(path@),
{
    let length = path.unicode_len();
    let mut permission = String::new();
    if length == 0 {
        assert(permission@ =~= spec_permission_of_path(path@));
        return permission;
    }
    let mut at: usize = 1;
    while at < length
        invariant
            1 <= at <= length,
            length == path@.len(),
            permission@ == path@.subrange(1, at as int).map_values(|c: char| permission_char(c)),
        decreases length - at,
    {
        let c = path.get_char(at);
        push_char(&mut permission, if c == '/' {
            ':'
        } else {
            c
        });
        at = at + 1;
        assert(permission@ =~= path@.subrange(1, at as int).map_values(
            |c: char| permission_char(c),
        ));
    }
    assert(path@.subrange(1, at as int) == path@.subrange(1, path@.len() as int));
    permission
}

/// Whether a user may make a request that needs a permission: an
/// administrator always, another user when it holds the permission.
/// [`BusinessErrorCode::Forbidden`] comes back when it may not.
pub fn permission(is_admin: bool, holds_permission: bool) -> (outcome: Result<
    (),
    BusinessErrorCode,
>)
    ensures
        is_admin || holds_permission ==> outcome is Ok,
        !(is_admin || holds_permission) ==> outcome == Err::<(), BusinessErrorCode>(
            BusinessErrorCode::Forbidden,
        ),
{
    if is_admin || holds_permission {
        Ok(())
    } else {
        Err(BusinessErrorCode::Forbidden)
    }
}

} // verus!
