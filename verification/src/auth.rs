use vstd::prelude::*;

verus! {

/// What a token says of its holder.
#[derive(Debug)]
pub struct Claims {
    pub sub: String,
    pub company: String,
    pub exp: usize,
    pub username: String,
}

/// The credentials a login request carries.
#[derive(Debug)]
pub struct AuthPayload {
    pub username: String,
    pub password: String,
}

/// The answer to a successful login: the signed token.
#[derive(Debug)]
pub struct AuthBody {
    pub access_token: String,
}

/// Why a request was refused.
#[derive(Debug, Clone, Copy, PartialEq, Eq, Structural)]
pub enum AuthError {
    /// No user matches the given username and password.
    MissingCredentials,
    /// The token could not be signed.
    TokenCreation,
    /// The request carries no bearer token, or one that does not verify.
    InvalidToken,
}

/// What checking the bearer token of a request found.
pub enum TokenCheck {
    /// The request has no `Authorization: Bearer` header.
    MissingBearer,
    /// The token did not decode, verify or pass validation.
    Rejected,
    /// The token verified; these are its claims.
    Verified(Claims),
}

/// How long an issued token stays valid, in seconds: one day.
pub open spec fn token_lifetime() -> int {
    86400
}

/// The expiry stamped into a token issued at `now` (seconds since the epoch),
/// as the platform's unsigned word.
pub open spec fn expiry_of(now: i64) -> usize {
    (now + token_lifetime()) as usize
}

/// `c` are the claims issued to `username` at `now`.
pub open spec fn issued_for(c: Claims, username: Seq<char>, now: i64) -> bool {
    &&& c.sub@ == "b@b.com"@
    &&& c.company@ == "ACME"@
    &&& c.exp == expiry_of(now)
    &&& c.username@ == username
}

/// What the login decision answers for a lookup result, at time `now`.
pub open spec fn login_answer(found: Option<String>, now: i64, r: Result<Claims, AuthError>) -> bool {
    match found {
        None => r == Err::<Claims, AuthError>(AuthError::MissingCredentials),
        Some(u) => r matches Ok(c) && issued_for(c, u@, now),
    }
}

/// What the token guard answers for a token check.
pub open spec fn guard_answer(check: TokenCheck) -> Result<Claims, AuthError> {
    match check {
        TokenCheck::Verified(c) => Ok(c),
        _ => Err(AuthError::InvalidToken),
    }
}

/// Decides a login: with no matching user the request is refused with
/// `MissingCredentials` (the clock is not consulted then); otherwise the
/// claims for that user, expiring one day after `now`.
pub fn login_claims(found_username: Option<String>, now: i64) -> (r: Result<Claims, AuthError>)
    requires
        found_username is Some ==> now + token_lifetime() <= i64::MAX,
    ensures
        login_answer(found_username, now, r),
        found_username is None ==> r == Err::<Claims, AuthError>(AuthError::MissingCredentials),
        found_username matches Some(u) ==> (r matches Ok(c) && c.username@ == u@ && c.sub@
            == "b@b.com"@ && c.company@ == "ACME"@ && c.exp == ((now + 86400) as usize)),
        0 <= now + token_lifetime() <= usize::MAX ==> (r matches Ok(c) ==> c.exp == now
            + token_lifetime()),
{
    match found_username {
        None => Err(AuthError::MissingCredentials),
        Some(username) => {
            let expires_at: i64 = now + 86400;
            let exp: usize = #[verifier::truncate] (expires_at as usize);
            proof {
                reveal_strlit("b@b.com");
                reveal_strlit("ACME");
            }
            Ok(
                Claims {
                    sub: String::from_str("b@b.com"),
                    company: String::from_str("ACME"),
                    exp,
                    username,
                },
            )
        },
    }
}

/// Answers a login once signing was attempted: the signed token, or
/// `TokenCreation` when signing failed.
pub fn auth_body(signed: Option<String>) -> (r: Result<AuthBody, AuthError>)
    ensures
        signed is None ==> r == Err::<AuthBody, AuthError>(AuthError::TokenCreation),
        signed matches Some(t) ==> r matches Ok(b) && b.access_token == t,
{
    match signed {
        Some(access_token) => Ok(AuthBody { access_token }),
        None => Err(AuthError::TokenCreation),
    }
}

/// The guard in front of protected routes: the verified claims, or
/// `InvalidToken` whatever went wrong.
pub fn authenticate(check: TokenCheck) -> (r: Result<Claims, AuthError>)
    ensures
        r == guard_answer(check),
{
    match check {
        TokenCheck::Verified(claims) => Ok(claims),
        TokenCheck::MissingBearer => Err(AuthError::InvalidToken),
        TokenCheck::Rejected => Err(AuthError::InvalidToken),
    }
}

/// Claims issued at login pass the guard unchanged once their token
/// verifies: the protected handler sees the user's name and the expiry one
/// day after the login.
pub proof fn law_issued_claims_pass_the_guard(found: Option<String>, now: i64, issued: Claims)
    requires
        login_answer(found, now, Ok(issued)),
    ensures
        found is Some,
        guard_answer(TokenCheck::Verified(issued)) == Ok::<Claims, AuthError>(issued),
        issued_for(issued, found->0@, now),
{
}

/// A login is refused exactly when no user matched, whatever the clock
/// reads; a refused login is answered `MissingCredentials` and issues no
/// claims.
pub proof fn law_login_refused_exactly_without_user(found: Option<String>, now: i64, r: Result<Claims, AuthError>)
    requires
        login_answer(found, now, r),
    ensures
        (r is Err) <==> (found is None),
        r is Err ==> r == Err::<Claims, AuthError>(AuthError::MissingCredentials),
{
}

/// Issued claims carry the matched user's name exactly as it was found,
/// whatever its length or content, together with the fixed subject and
/// company, and expire one day (86400 seconds) after the login.
pub proof fn law_issued_claims_carry_the_user(c: Claims, username: Seq<char>, now: i64)
    requires
        issued_for(c, username, now),
    ensures
        c.username@ == username,
        c.username@.len() == username.len(),
        c.sub@ == "b@b.com"@,
        c.company@ == "ACME"@,
        0 <= now + 86400 <= usize::MAX ==> c.exp == now + 86400,
{
}

/// Every refused token check is answered the same way, `InvalidToken`.
pub proof fn law_refused_tokens_answer_invalid_token(check: TokenCheck)
    requires
        !(check is Verified),
    ensures
        guard_answer(check) == Err::<Claims, AuthError>(AuthError::InvalidToken),
{
}

} // verus!
