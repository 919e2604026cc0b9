//! The token service: issues and verifies signed, expiring bearer tokens
//! carrying identity and role claims, over the jsonwebtoken crate (HS256,
//! shared process-wide secret).

use vstd::prelude::*;
use crate::errors::AppError;
use crate::user::{Role, User, UserView, role_str};
use jsonwebtoken::{decode, encode, DecodingKey, EncodingKey, Header, Validation};
use serde_json::Value;

verus! {

/// Which of the pair a token is: the short-lived access token or the
/// long-lived refresh token.
#[derive(Clone, Copy, Debug, PartialEq, Eq, Structural)]
pub enum TokenKind {
    Access,
    Refresh,
}

/// The name under which a kind travels inside a token.
pub open spec fn kind_str(kind: TokenKind) -> Seq<char> {
    match kind {
        TokenKind::Access => "access"@,
        TokenKind::Refresh => "refresh"@,
    }
}

/// The kind a token's kind name stands for, if any.
pub open spec fn spec_kind_from(s: Seq<char>) -> Option<TokenKind> {
    if s == "access"@ {
        Some(TokenKind::Access)
    } else if s == "refresh"@ {
        Some(TokenKind::Refresh)
    } else {
        None
    }
}

impl TokenKind {
    pub fn as_str(self) -> (r: &'static str)
        ensures
            r@ == kind_str(self),
    {
        match self {
            TokenKind::Access => "access",
            TokenKind::Refresh => "refresh",
        }
    }

    pub fn from_name(s: &String) -> (r: Option<TokenKind>)
        ensures
            r == spec_kind_from(s@),
    {
        proof {
            reveal_strlit("access");
            reveal_strlit("refresh");
        }
        if *s == String::from_str("access") {
            Some(TokenKind::Access)
        } else if *s == String::from_str("refresh") {
            Some(TokenKind::Refresh)
        } else {
            None
        }
    }
}

/// A kind's token name always names that kind back.
pub proof fn lemma_kind_name_roundtrip(kind: TokenKind)
    ensures
        spec_kind_from(kind_str(kind)) == Some(kind),
{
    reveal_strlit("access");
    reveal_strlit("refresh");
    assert("access"@.len() == 6);
    assert("refresh"@.len() == 7);
}

/// The signed payload embedded in a bearer token: subject, kind, validity
/// window, and a snapshot of identity taken at issuance.
#[derive(Debug)]
pub struct Claims {
    pub sub: u128,
    pub name: String,
    pub email: String,
    pub phone: Option<String>,
    pub role: Role,
    pub avatar_url: Option<String>,
    pub exp: u64,
    pub iat: u64,
    pub token_type: TokenKind,
}

/// The canonical hyphenated text of a 128-bit identifier, as uuid renders it.
pub uninterp spec fn uuid_str_of(id: u128) -> Seq<char>;

/// Relies on uuid's Display: a uuid renders as its canonical hyphenated
/// form, a pure function of its 128 bits.
#[verifier::external_body]
fn uuid_to_string(id: u128) -> (r: String)
    ensures
        r@ == uuid_str_of(id),
{
    uuid::Uuid::from_u128(id).to_string()
}

/// Relies on uuid's parse_str: the canonical hyphenated form of an id parses
/// back to that id.
#[verifier::external_body]
fn uuid_parse(s: &String) -> (r: Option<u128>)
    ensures
        forall|id: u128| s@ == uuid_str_of(id) ==> r == Some(id),
{
    match uuid::Uuid::parse_str(s.as_str()) {
        Ok(u) => Some(u.as_u128()),
        Err(_) => None,
    }
}

/// Relies on uuid's new_v4: a freshly drawn random identifier. Randomness
/// promises nothing, so neither does this.
#[verifier::external_body]
pub(crate) fn new_uuid() -> u128 {
    uuid::Uuid::new_v4().as_u128()
}

/// Relies on chrono's Utc::now. The clock may say anything, so nothing is
/// promised of the result.
#[verifier::external_body]
pub(crate) fn now_unix_seconds() -> i64 {
    chrono::Utc::now().timestamp()
}

/// The signed token over a secret and the claim fields, in the order the
/// service writes them. HS256 signing is deterministic, so the token is a
/// pure function of these inputs.
pub uninterp spec fn token_of(
    secret: Seq<char>,
    sub: Seq<char>,
    name: Seq<char>,
    email: Seq<char>,
    phone: Option<Seq<char>>,
    role: Seq<char>,
    avatar_url: Option<Seq<char>>,
    exp: u64,
    iat: u64,
    kind: Seq<char>,
) -> Seq<char>;

/// Relies on jsonwebtoken::encode with the default HS256 header: the token
/// is a pure function of the signing secret and the claim fields, and the
/// call cannot fail — the HMAC key accepts any length, HS256 signing is
/// infallible, and the fixed-shape claim object always serializes. Assumes
/// the process installs no custom crypto provider in place of the crate's
/// feature-selected one.
#[verifier::external_body]
fn jwt_encode(
    secret: &str,
    sub: &str,
    name: &str,
    email: &str,
    phone: &Option<String>,
    role: &str,
    avatar_url: &Option<String>,
    exp: u64,
    iat: u64,
    token_type: &str,
) -> (r: Result<String, ()>)
    ensures
        r is Ok,
        r matches Ok(t) ==> t@ == token_of(
            secret@,
            sub@,
            name@,
            email@,
            phone.deep_view(),
            role@,
            avatar_url.deep_view(),
            exp,
            iat,
            token_type@,
        ),
{
    let pairs = [
        ("sub", Value::from(sub)), ("name", Value::from(name)), ("email", Value::from(email)),
        ("phone", phone.clone().into()), ("role", Value::from(role)),
        ("avatar_url", avatar_url.clone().into()),
        ("exp", Value::from(exp)), ("iat", Value::from(iat)), ("token_type", Value::from(token_type)),
    ];
    let claims = Value::Object(pairs.into_iter().map(|(k, v)| (k.to_string(), v)).collect());
    encode(&Header::default(), &claims, &EncodingKey::from_secret(secret.as_bytes())).map_err(|_| ())
}

/// The claim fields as decoding hands them back, before any interpretation.
struct RawClaims {
    sub: String,
    name: String,
    email: String,
    phone: Option<String>,
    role: String,
    avatar_url: Option<String>,
    exp: u64,
    iat: u64,
    token_type: String,
}

/// Relies on jsonwebtoken::decode with default validation (HS256 signature
/// and expiry checked): whether it succeeds depends on the clock, but a token
/// formed over given claim fields with this secret can only decode back to
/// exactly those fields. The expiry check's unsigned arithmetic could only
/// misbehave on a host clock within a minute of the epoch — environmental,
/// like running out of memory.
#[verifier::external_body]
fn jwt_decode(secret: &str, token: &str) -> (r: Result<RawClaims, ()>)
    ensures
        r matches Ok(c) ==> forall|
            sub: Seq<char>,
            name: Seq<char>,
            email: Seq<char>,
            phone: Option<Seq<char>>,
            role: Seq<char>,
            avatar_url: Option<Seq<char>>,
            exp: u64,
            iat: u64,
            kind: Seq<char>,
        |
            token@ == #[trigger] token_of(
                secret@,
                sub,
                name,
                email,
                phone,
                role,
                avatar_url,
                exp,
                iat,
                kind,
            ) ==> c.sub@ == sub && c.name@ == name && c.email@ == email && c.phone.deep_view()
                == phone && c.role@ == role && c.avatar_url.deep_view() == avatar_url && c.exp
                == exp && c.iat == iat && c.token_type@ == kind,
{
    let key = DecodingKey::from_secret(secret.as_bytes());
    let v = decode::<Value>(token, &key, &Validation::default()).map_err(|_| ())?.claims;
    let o = |k: &str| v.get(k).and_then(Value::as_str).map(String::from);
    let s = |k: &str| o(k).ok_or(());
    let n = |k: &str| v.get(k).and_then(Value::as_u64).ok_or(());
    Ok(RawClaims {
        sub: s("sub")?, name: s("name")?, email: s("email")?, phone: o("phone"),
        role: s("role")?, avatar_url: o("avatar_url"), exp: n("exp")?, iat: n("iat")?,
        token_type: s("token_type")?,
    })
}

/// Lifetime of an access token, in seconds.
pub const ACCESS_TOKEN_EXPIRY_SECONDS: u64 = 900;

/// Lifetime of a refresh token, in seconds.
pub const REFRESH_TOKEN_EXPIRY_SECONDS: u64 = 604800;

/// The token a user is issued: claims snapshot the user at issuance time.
pub open spec fn issued_token(
    secret: Seq<char>,
    u: UserView,
    iat: u64,
    exp: u64,
    kind: TokenKind,
) -> Seq<char> {
    token_of(
        secret,
        uuid_str_of(u.id),
        u.name,
        u.email,
        u.phone,
        role_str(u.role),
        u.avatar_url,
        exp,
        iat,
        kind_str(kind),
    )
}

/// What a verified token's claims say about any claim fields the token could
/// have been issued over: they are recovered exactly.
pub open spec fn claims_recover(c: Claims, secret: Seq<char>, token: Seq<char>) -> bool {
    forall|u: UserView, iat: u64, exp: u64, kind: TokenKind|
        token == #[trigger] issued_token(secret, u, iat, exp, kind) ==> c.sub == u.id && c.name@
            == u.name && c.email@ == u.email && c.phone.deep_view() == u.phone && c.role == u.role
            && c.avatar_url.deep_view() == u.avatar_url && c.exp == exp && c.iat == iat
            && c.token_type == kind
}

/// Token round trip: claims verified out of a token issued for a user carry
/// back that user's id and role — and the whole identity snapshot, the
/// validity window and the kind — exactly as they were at issuance.
pub proof fn lemma_token_roundtrip(
    c: Claims,
    secret: Seq<char>,
    token: Seq<char>,
    u: UserView,
    iat: u64,
    exp: u64,
    kind: TokenKind,
)
    requires
        claims_recover(c, secret, token),
        token == issued_token(secret, u, iat, exp, kind),
    ensures
        c.sub == u.id,
        c.role == u.role,
        c.name@ == u.name,
        c.email@ == u.email,
        c.phone.deep_view() == u.phone,
        c.avatar_url.deep_view() == u.avatar_url,
        c.iat == iat,
        c.exp == exp,
        c.token_type == kind,
{
}

/// The token service, holding the process-wide signing secret.
pub struct JwtService {
    secret: String,
}

impl View for JwtService {
    type V = Seq<char>;

    closed spec fn view(&self) -> Seq<char> {
        self.secret@
    }
}

impl JwtService {
    pub fn new(secret: String) -> (s: Self)
        ensures
            s@ == secret@,
    {
        JwtService { secret }
    }

    /// Issue the (access, refresh) pair for `user` with issued-at `iat`.
    /// Signing never fails, so neither does this.
    pub fn generate_tokens_at(&self, user: &User, iat: u64) -> (r: Result<
        (String, String),
        AppError,
    >)
        requires
            iat + REFRESH_TOKEN_EXPIRY_SECONDS <= u64::MAX,
        ensures
            r is Ok,
            r matches Ok(p) ==> p.0@ == issued_token(
                self@,
                user@,
                iat,
                (iat + ACCESS_TOKEN_EXPIRY_SECONDS) as u64,
                TokenKind::Access,
            ) && p.1@ == issued_token(
                self@,
                user@,
                iat,
                (iat + REFRESH_TOKEN_EXPIRY_SECONDS) as u64,
                TokenKind::Refresh,
            ),
            r matches Err(e) ==> e == AppError::TokenCreationError,
    {
        let sub = uuid_to_string(user.id);
        let access = jwt_encode(
            self.secret.as_str(),
            sub.as_str(),
            user.name.as_str(),
            user.email.as_str(),
            &user.phone,
            user.role.as_str(),
            &user.avatar_url,
            iat + ACCESS_TOKEN_EXPIRY_SECONDS,
            iat,
            TokenKind::Access.as_str(),
        );
        let access_token = match access {
            Ok(t) => t,
            Err(_) => {
                return Err(AppError::TokenCreationError);
            }
        };
        let refresh = jwt_encode(
            self.secret.as_str(),
            sub.as_str(),
            user.name.as_str(),
            user.email.as_str(),
            &user.phone,
            user.role.as_str(),
            &user.avatar_url,
            iat + REFRESH_TOKEN_EXPIRY_SECONDS,
            iat,
            TokenKind::Refresh.as_str(),
        );
        let refresh_token = match refresh {
            Ok(t) => t,
            Err(_) => {
                return Err(AppError::TokenCreationError);
            }
        };
        Ok((access_token, refresh_token))
    }

    /// Issue the (access, refresh) pair for `user` at the current time:
    /// access expires 15 minutes out, refresh 7 days out. Fails only when the
    /// clock reading would overflow the expiry arithmetic.
    pub fn generate_tokens(&self, user: &User) -> (r: Result<(String, String), AppError>)
        ensures
            r matches Ok(p) ==> exists|iat: u64|
                iat + REFRESH_TOKEN_EXPIRY_SECONDS <= u64::MAX && p.0@ == #[trigger] issued_token(
                    self@,
                    user@,
                    iat,
                    (iat + ACCESS_TOKEN_EXPIRY_SECONDS) as u64,
                    TokenKind::Access,
                ) && p.1@ == issued_token(
                    self@,
                    user@,
                    iat,
                    (iat + REFRESH_TOKEN_EXPIRY_SECONDS) as u64,
                    TokenKind::Refresh,
                ),
            r matches Err(e) ==> e == AppError::TokenCreationError,
    {
        let now = now_unix_seconds();
        let iat: u64 = if now < 0 {
            0
        } else {
            now as u64
        };
        if iat > u64::MAX - REFRESH_TOKEN_EXPIRY_SECONDS {
            return Err(AppError::TokenCreationError);
        }
        self.generate_tokens_at(user, iat)
    }

    /// Verify a token's signature and expiry and interpret its claims.
    /// On success the claims recover exactly what the token was issued over.
    pub fn verify_token(&self, token: &str) -> (r: Result<Claims, AppError>)
        ensures
            r matches Ok(c) ==> claims_recover(c, self@, token@),
            r matches Err(e) ==> e == AppError::InvalidToken,
    {
        let raw = match jwt_decode(self.secret.as_str(), token) {
            Ok(raw) => raw,
            Err(_) => {
                return Err(AppError::InvalidToken);
            }
        };
        let sub = match uuid_parse(&raw.sub) {
            Some(id) => id,
            None => {
                return Err(AppError::InvalidToken);
            }
        };
        let role = match Role::from_name(&raw.role) {
            Some(role) => role,
            None => {
                return Err(AppError::InvalidToken);
            }
        };
        let kind = match TokenKind::from_name(&raw.token_type) {
            Some(kind) => kind,
            None => {
                return Err(AppError::InvalidToken);
            }
        };
        let c = Claims {
            sub,
            name: raw.name,
            email: raw.email,
            phone: raw.phone,
            role,
            avatar_url: raw.avatar_url,
            exp: raw.exp,
            iat: raw.iat,
            token_type: kind,
        };
        proof {
            assert forall|u: UserView, iat: u64, exp: u64, k: TokenKind|
                token@ == #[trigger] issued_token(self@, u, iat, exp, k) implies c.sub == u.id
                && c.name@ == u.name && c.email@ == u.email && c.phone.deep_view() == u.phone
                && c.role == u.role && c.avatar_url.deep_view() == u.avatar_url && c.exp == exp
                && c.iat == iat && c.token_type == k by {
                crate::user::lemma_role_name_roundtrip(u.role);
                lemma_kind_name_roundtrip(k);
            }
        }
        Ok(c)
    }

    /// Verify a token and require it to be an access token, as the request
    /// guard does: a refresh token is never accepted here.
    pub fn verify_access_token(&self, token: &str) -> (r: Result<Claims, AppError>)
        ensures
            r matches Ok(c) ==> claims_recover(c, self@, token@) && c.token_type
                == TokenKind::Access,
            r matches Err(e) ==> e == AppError::InvalidToken,
            forall|u: UserView, iat: u64, exp: u64|
                token@ == #[trigger] issued_token(self@, u, iat, exp, TokenKind::Refresh) ==> r
                    == Err::<Claims, AppError>(AppError::InvalidToken),
    {
        let claims = match self.verify_token(token) {
            Ok(c) => c,
            Err(e) => {
                return Err(AppError::InvalidToken);
            }
        };
        match claims.token_type {
            TokenKind::Access => Ok(claims),
            TokenKind::Refresh => Err(AppError::InvalidToken),
        }
    }
}

} // verus!
