use vstd::prelude::*;

use crate::clock::{now_micros, MAX_INSTANT, MIN_INSTANT};
use crate::lifecycle::RecvFailure;
use crate::text::{clone_opt_string, str_eq};

verus! {

/// Whether `key` is one of the parameters that OAuth2 itself uses (RFC 6749 and RFC 7636),
/// which may not be passed as an extra parameter.
pub open spec fn is_disallowed_key(key: Seq<char>) -> bool {
    ||| key == "client_id"@
    ||| key == "client_secret"@
    ||| key == "response_type"@
    ||| key == "scope"@
    ||| key == "state"@
    ||| key == "redirect_uri"@
    ||| key == "error"@
    ||| key == "error_description"@
    ||| key == "error_uri"@
    ||| key == "grant_type"@
    ||| key == "code"@
    ||| key == "access_token"@
    ||| key == "token_type"@
    ||| key == "expires_in"@
    ||| key == "username"@
    ||| key == "password"@
    ||| key == "refresh_token"@
    ||| key == "code_verifier"@
    ||| key == "code_challenge"@
}

/// Whether `key` may be passed as an extra parameter.
pub fn is_allowed_key(key: &str) -> (r: bool)
    ensures
        r == !is_disallowed_key(key@),
{
    !(str_eq(key, "client_id") || str_eq(key, "client_secret") || str_eq(key, "response_type")
        || str_eq(key, "scope") || str_eq(key, "state") || str_eq(key, "redirect_uri")
        || str_eq(key, "error") || str_eq(key, "error_description") || str_eq(key, "error_uri")
        || str_eq(key, "grant_type") || str_eq(key, "code") || str_eq(key, "access_token")
        || str_eq(key, "token_type") || str_eq(key, "expires_in") || str_eq(key, "username")
        || str_eq(key, "password") || str_eq(key, "refresh_token") || str_eq(key, "code_verifier")
        || str_eq(key, "code_challenge"))
}

/// Checks that `key` may be passed as an extra parameter; callers must not pass a key that
/// OAuth2 itself uses.
pub fn assert_allowed_key(key: &str)
    requires
        !is_disallowed_key(key@),
{
    let allowed = is_allowed_key(key);
    assert(allowed);
}

/// A parameter added to OAuth2 requests beyond the standard ones.
#[derive(Debug, PartialEq, Eq)]
pub struct ExtraParameter {
    key: String,
    value: String,
}

impl ExtraParameter {
    /// No extra parameter ever carries a key that OAuth2 itself uses.
    #[verifier::type_invariant]
    closed spec fn key_is_allowed(self) -> bool {
        !is_disallowed_key(self.key@)
    }

    /// The parameter `key`=`value`; `key` must not be one that OAuth2 itself uses.
    pub fn new(key: String, value: String) -> (r: Self)
        requires
            !is_disallowed_key(key@),
        ensures
            r.key() == key,
            r.value() == value,
    {
        assert_allowed_key(key.as_str());
        ExtraParameter { key, value }
    }

    pub closed spec fn key(&self) -> String {
        self.key
    }

    pub closed spec fn value(&self) -> String {
        self.value
    }

    /// The key; it is never one that OAuth2 itself uses.
    pub fn get_key(&self) -> (r: &String)
        ensures
            *r == self.key(),
            !is_disallowed_key(r@),
    {
        proof {
            use_type_invariant(self);
        }
        &self.key
    }

    pub fn get_value(&self) -> (r: &String)
        ensures
            *r == self.value(),
    {
        &self.value
    }
}

/// The type of an access token.
#[derive(Clone, Debug, PartialEq, Eq)]
pub enum TokenType {
    Bearer,
    Mac,
    Extension(String),
}

impl TokenType {
    pub fn duplicate(&self) -> (r: Self)
        ensures
            r == *self,
    {
        match self {
            TokenType::Bearer => TokenType::Bearer,
            TokenType::Mac => TokenType::Mac,
            TokenType::Extension(s) => TokenType::Extension(s.clone()),
        }
    }
}

/// An OAuth2 token as it is stored: the access token, when it expires (microseconds after
/// the Unix epoch) and the refresh token, if any.
#[derive(Clone, Debug, PartialEq, Eq)]
pub struct Token {
    pub access_token: String,
    pub token_type: TokenType,
    pub expires_at: Option<i64>,
    pub refresh_token: Option<String>,
}

/// Whether a token can be used, must be refreshed with the given refresh token, or must
/// be retrieved anew.
#[derive(Debug, PartialEq, Eq)]
pub enum TokenStatus {
    Usable(Token),
    Expired(String),
    Absent,
}

/// The status of `token` at `now`: usable while it has not expired; expired (and
/// refreshable with its refresh token) once it has; absent where it has no expiry time, or
/// has expired with no refresh token.
pub open spec fn token_status(token: Token, now: i64) -> TokenStatus {
    match token.expires_at {
        Some(expires_at) => if expires_at < now {
            match token.refresh_token {
                Some(r) => TokenStatus::Expired(r),
                None => TokenStatus::Absent,
            }
        } else {
            TokenStatus::Usable(token)
        },
        None => TokenStatus::Absent,
    }
}

/// A year in microseconds: the lifetime given to a token whose own lifetime would reach
/// past the last instant.
pub const FALLBACK_TOKEN_LIFETIME: i64 = 31_536_000_000_000;

/// When a token received at `now` that lives `expires_in` seconds expires: that many seconds
/// later where the instant exists, else a year later; never where no lifetime is given.
pub open spec fn expiry_time(now: i64, expires_in: Option<u64>) -> Option<int> {
    match expires_in {
        Some(s) => if now + s * 1_000_000 <= MAX_INSTANT {
            Some(now + s * 1_000_000)
        } else {
            Some(now + FALLBACK_TOKEN_LIFETIME)
        },
        None => None,
    }
}

/// The status of a token read from storage, if any was read.
pub open spec fn stored_token_status(token: Option<Token>, now: i64) -> TokenStatus {
    match token {
        Some(t) => token_status(t, now),
        None => TokenStatus::Absent,
    }
}

/// The status with the refresh token set on a usable token.
pub open spec fn status_with_refresh_token(status: TokenStatus, refresh_token: String) -> TokenStatus {
    match status {
        TokenStatus::Usable(t) => TokenStatus::Usable(Token { refresh_token: Some(refresh_token), ..t }),
        _ => status,
    }
}

impl Token {
    pub fn duplicate(&self) -> (r: Self)
        ensures
            r == *self,
    {
        Token {
            access_token: self.access_token.clone(),
            token_type: self.token_type.duplicate(),
            expires_at: self.expires_at,
            refresh_token: clone_opt_string(&self.refresh_token),
        }
    }

    /// The expiry time of a token received at `now` with a lifetime of `expires_in`
    /// seconds, as `expiry_time` says. A year must fit after `now` where the lifetime does
    /// not.
    pub fn expiry_after(now: i64, expires_in: Option<u64>) -> (r: Option<i64>)
        requires
            MIN_INSTANT <= now <= MAX_INSTANT,
            match expires_in {
                Some(s) => now + s * 1_000_000 > MAX_INSTANT ==> now + FALLBACK_TOKEN_LIFETIME
                    <= MAX_INSTANT,
                None => true,
            },
        ensures
            match r {
                Some(t) => expiry_time(now, expires_in) == Some(t as int),
                None => expiry_time(now, expires_in) is None,
            },
    {
        match expires_in {
            Some(s) => {
                let later: i128 = now as i128 + s as i128 * 1_000_000;
                if later <= MAX_INSTANT as i128 {
                    Some(later as i64)
                } else {
                    Some(now + FALLBACK_TOKEN_LIFETIME)
                }
            },
            None => None,
        }
    }

    /// The status of this token at `now`.
    pub fn status_at(&self, now: i64) -> (r: TokenStatus)
        ensures
            r == token_status(*self, now),
    {
        match self.expires_at {
            Some(expires_at) => if expires_at < now {
                match &self.refresh_token {
                    Some(refresh_token) => TokenStatus::Expired(refresh_token.clone()),
                    None => TokenStatus::Absent,
                }
            } else {
                TokenStatus::Usable(self.duplicate())
            },
            None => TokenStatus::Absent,
        }
    }

    /// The status of this token at the time the clock reads; `None` where the clock reads
    /// an instant that dates cannot be given for.
    pub fn get_status(&self) -> (r: Option<TokenStatus>)
        ensures
            r matches Some(s) ==> exists|now: i64|
                MIN_INSTANT <= now <= MAX_INSTANT && s == #[trigger] token_status(*self, now),
    {
        match now_micros() {
            Some(now) => Some(self.status_at(now)),
            None => None,
        }
    }
}

/// The status of a token read from storage, if any was read, at `now`.
pub fn stored_status_at(token: &Option<Token>, now: i64) -> (r: TokenStatus)
    ensures
        r == stored_token_status(*token, now),
{
    match token {
        Some(t) => t.status_at(now),
        None => TokenStatus::Absent,
    }
}

impl TokenStatus {
    /// The status with `refresh_token` set on a usable token; other statuses are kept.
    pub fn with_refresh_token(self, refresh_token: &String) -> (r: Self)
        ensures
            r == status_with_refresh_token(self, *refresh_token),
    {
        match self {
            TokenStatus::Usable(mut token) => {
                token.refresh_token = Some(refresh_token.clone());
                TokenStatus::Usable(token)
            },
            _ => self,
        }
    }
}

/// The errors of an OAuth2 client.
#[derive(Clone, Debug, PartialEq, Eq)]
pub enum ClientError {
    /// The redirect could not be delivered, or no code came back, after every attempt.
    FailedAfterRetries,
    /// The state that came back with the code is not the one that was sent.
    Oauth2CsrfMismatch,
    /// The redirect was delivered but no code came back.
    Oauth2CodeMissing,
    /// The token that was retrieved had already expired.
    Oauth2TokenExpired,
    /// No token was retrieved.
    Oauth2TokenAbsent,
    /// A task of the client ended abnormally, with this message.
    TaskFailed(String),
}

/// What getting a token takes, given the stored token's status.
#[derive(Debug, PartialEq, Eq)]
pub enum TokenPlan {
    /// Use this access token.
    Use(String),
    /// Refresh with this refresh token.
    Refresh(String),
    /// Retrieve a token through the user's consent.
    Retrieve,
}

pub open spec fn token_plan_spec(status: TokenStatus) -> TokenPlan {
    match status {
        TokenStatus::Usable(t) => TokenPlan::Use(t.access_token),
        TokenStatus::Expired(r) => TokenPlan::Refresh(r),
        TokenStatus::Absent => TokenPlan::Retrieve,
    }
}

/// A usable token is used as it is, an expired one refreshed, an absent one retrieved.
pub fn plan_token(status: &TokenStatus) -> (r: TokenPlan)
    ensures
        r == token_plan_spec(*status),
        *status matches TokenStatus::Usable(t) ==> r == TokenPlan::Use(t.access_token),
        *status matches TokenStatus::Expired(rt) ==> r == TokenPlan::Refresh(rt),
        *status is Absent ==> r == TokenPlan::Retrieve,
{
    match status {
        TokenStatus::Usable(t) => TokenPlan::Use(t.access_token.clone()),
        TokenStatus::Expired(r) => TokenPlan::Refresh(r.clone()),
        TokenStatus::Absent => TokenPlan::Retrieve,
    }
}

/// Getting a token for a stored token `t` at `now`: while `t` has not expired, its own
/// access token is used, whatever refresh token it carries; once it has expired, it is
/// refreshed with its refresh token, or retrieved anew where it has none; a token with no
/// expiry time is retrieved anew. The refresh token is never handed out as an access token.
pub proof fn stored_token_plan(t: Token, now: i64)
    ensures
        t.expires_at matches Some(e) && e >= now ==> token_plan_spec(token_status(t, now))
            == TokenPlan::Use(t.access_token),
        t.expires_at matches Some(e) && e < now ==> token_plan_spec(token_status(t, now)) == (
        match t.refresh_token {
            Some(rt) => TokenPlan::Refresh(rt),
            None => TokenPlan::Retrieve,
        }),
        t.expires_at is None ==> token_plan_spec(token_status(t, now)) == TokenPlan::Retrieve,
        token_plan_spec(token_status(t, now)) matches TokenPlan::Use(a) ==> a == t.access_token,
{
}

/// A usable token is used with its own access token, whatever its refresh token.
pub proof fn usable_token_plan(t: Token)
    ensures
        token_plan_spec(TokenStatus::Usable(t)) == TokenPlan::Use(t.access_token),
{
}

pub open spec fn token_to_write_spec(status: TokenStatus) -> Result<Token, ClientError> {
    match status {
        TokenStatus::Usable(t) => Ok(t),
        TokenStatus::Expired(_) => Err(ClientError::Oauth2TokenExpired),
        TokenStatus::Absent => Err(ClientError::Oauth2TokenAbsent),
    }
}

/// The token to store after a retrieval or a refresh: only a usable token is stored; an
/// expired or absent one is an error.
pub fn token_to_write(status: &TokenStatus) -> (r: Result<Token, ClientError>)
    ensures
        r == token_to_write_spec(*status),
{
    match status {
        TokenStatus::Usable(t) => Ok(t.duplicate()),
        TokenStatus::Expired(_) => Err(ClientError::Oauth2TokenExpired),
        TokenStatus::Absent => Err(ClientError::Oauth2TokenAbsent),
    }
}

/// The code returned by the provider is accepted only with the state that was sent.
pub fn check_csrf(returned_state: &str, sent_state: &str) -> (r: Result<(), ClientError>)
    ensures
        r is Ok <==> returned_state@ == sent_state@,
        r is Err ==> r == Err::<(), ClientError>(ClientError::Oauth2CsrfMismatch),
{
    if str_eq(returned_state, sent_state) {
        Ok(())
    } else {
        Err(ClientError::Oauth2CsrfMismatch)
    }
}

/// What retrieving a token does once the user was sent to the consent page and the code
/// was awaited.
#[derive(Debug, PartialEq, Eq)]
pub enum CodeDecision {
    /// Exchange this authorization code for a token.
    Exchange(String),
    /// Give up with this error.
    Fail(ClientError),
}

pub open spec fn code_decision(
    presented: Result<(), ClientError>,
    code: Result<OAuthCode, ClientError>,
    sent_state: Seq<char>,
) -> CodeDecision {
    match presented {
        Err(e) => CodeDecision::Fail(e),
        Ok(()) => match code {
            Err(e) => CodeDecision::Fail(e),
            Ok(c) => if c.state@ == sent_state {
                CodeDecision::Exchange(c.code)
            } else {
                CodeDecision::Fail(ClientError::Oauth2CsrfMismatch)
            },
        },
    }
}

/// Decides on the code: a failure to present the consent page, or to get a code, ends the
/// retrieval; a code is exchanged only where it came back with the state that was sent.
pub fn decide_code_exchange(
    presented: Result<(), ClientError>,
    code: Result<OAuthCode, ClientError>,
    sent_state: &str,
) -> (r: CodeDecision)
    ensures
        r == code_decision(presented, code, sent_state@),
        r matches CodeDecision::Exchange(x) ==> (presented is Ok && (code matches Ok(c)
            && c.state@ == sent_state@ && c.code == x)),
{
    match presented {
        Err(e) => CodeDecision::Fail(e),
        Ok(()) => match code {
            Err(e) => CodeDecision::Fail(e),
            Ok(c) => match check_csrf(c.state.as_str(), sent_state) {
                Ok(()) => CodeDecision::Exchange(c.code),
                Err(e) => CodeDecision::Fail(e),
            },
        },
    }
}

/// The token to store after a refresh: the refreshed status with the refresh token that
/// was used set on it, stored only where usable. A refreshed token keeps that refresh token.
pub fn refreshed_token(status: TokenStatus, refresh_token: &String) -> (r: Result<Token, ClientError>)
    ensures
        r == token_to_write_spec(status_with_refresh_token(status, *refresh_token)),
        r matches Ok(t) ==> t.refresh_token == Some(*refresh_token),
{
    let refreshed = status.with_refresh_token(refresh_token);
    token_to_write(&refreshed)
}

} // verus!

verus! {

/// How many times a client tries again after a first failure.
pub const RETRY_MAX: u8 = 9;

/// The attempts a client starts with: the first one and every retry.
pub fn initial_attempts() -> (r: u8)
    ensures
        r == RETRY_MAX + 1,
{
    RETRY_MAX + 1
}

/// An authorization code, with the state that came back with it.
#[derive(Clone, Debug, PartialEq, Eq)]
pub struct OAuthCode {
    pub code: String,
    pub state: String,
}

/// The events of the web server that an OAuth2 client listens to.
#[derive(Clone, Debug, PartialEq, Eq)]
pub enum WebEvent {
    /// A code arrived at the given path.
    Oauth2Code(OAuthCode, String),
    /// The user should be sent to this address; a reply is expected on the given channel.
    Redirect(String, u128),
    /// Anything else.
    Other,
}

/// Before each attempt: go on while attempts are left, else fail.
pub fn check_attempts(attempts: u8) -> (r: Result<(), ClientError>)
    ensures
        r is Ok <==> attempts > 0,
        r is Err ==> r == Err::<(), ClientError>(ClientError::FailedAfterRetries),
{
    if attempts == 0 {
        Err(ClientError::FailedAfterRetries)
    } else {
        Ok(())
    }
}

/// What a client waiting for its code does with an event.
#[derive(Debug, PartialEq, Eq)]
pub enum CodeWait {
    /// The code for the callback path arrived.
    Got(OAuthCode),
    /// Keep waiting, with this many attempts left.
    Continue(u8),
}

pub open spec fn code_wait(attempts: u8, event: Result<WebEvent, RecvFailure>, callback_path: Seq<char>) -> CodeWait {
    match event {
        Ok(WebEvent::Oauth2Code(code, path)) => if path@ == callback_path {
            CodeWait::Got(code)
        } else {
            CodeWait::Continue(attempts)
        },
        Ok(_) => CodeWait::Continue(attempts),
        Err(RecvFailure::Closed) => CodeWait::Continue((attempts - 1) as u8),
        Err(RecvFailure::Lagged(_)) => CodeWait::Continue(attempts),
    }
}

/// One turn of waiting for the authorization code: a code for the callback path ends the
/// wait; codes for other paths, other events and missed events are skipped; a closed
/// channel uses up an attempt.
pub fn code_received(attempts: u8, event: Result<WebEvent, RecvFailure>, callback_path: &str) -> (r: CodeWait)
    requires
        attempts > 0,
    ensures
        r == code_wait(attempts, event, callback_path@),
{
    match event {
        Ok(WebEvent::Oauth2Code(code, path)) => {
            if str_eq(path.as_str(), callback_path) {
                CodeWait::Got(code)
            } else {
                CodeWait::Continue(attempts)
            }
        },
        Ok(_) => CodeWait::Continue(attempts),
        Err(RecvFailure::Closed) => CodeWait::Continue(attempts - 1),
        Err(RecvFailure::Lagged(_)) => CodeWait::Continue(attempts),
    }
}

/// What a client does after trying to deliver the redirect address.
#[derive(Clone, Copy, Debug, PartialEq, Eq)]
pub enum RedirectSend {
    /// Delivered to at least one subscriber: wait for the code.
    Delivered,
    /// Not delivered: sleep, then try again with this many attempts left.
    SleepThenRetry(u8),
}

pub open spec fn redirect_send(attempts: u8, delivered: bool) -> RedirectSend {
    if delivered {
        RedirectSend::Delivered
    } else {
        RedirectSend::SleepThenRetry((attempts - 1) as u8)
    }
}

/// One attempt to deliver the redirect address: success ends the attempts, a failure uses
/// one up.
pub fn redirect_sent(attempts: u8, delivered: bool) -> (r: RedirectSend)
    requires
        attempts > 0,
    ensures
        r == redirect_send(attempts, delivered),
{
    if delivered {
        RedirectSend::Delivered
    } else {
        RedirectSend::SleepThenRetry(attempts - 1)
    }
}

pub open spec fn redirect_result_spec(task: Result<Option<String>, String>) -> Result<(), ClientError> {
    match task {
        Ok(Some(_)) => Ok(()),
        Ok(None) => Err(ClientError::Oauth2CodeMissing),
        Err(e) => Err(ClientError::TaskFailed(e)),
    }
}

/// The outcome of presenting the address to the user: a reply ends it well; a channel
/// closed without a reply means the code is missing; a failed task is reported as such.
pub fn redirect_result(task: Result<Option<String>, String>) -> (r: Result<(), ClientError>)
    ensures
        r == redirect_result_spec(task),
{
    match task {
        Ok(Some(_)) => Ok(()),
        Ok(None) => Err(ClientError::Oauth2CodeMissing),
        Err(e) => Err(ClientError::TaskFailed(e)),
    }
}

/// How a wait for the code that starts with `attempts` attempts ends on `events`: the code,
/// or giving up (`None`) when the attempts run out; `Some(None)` where the events run out
/// first.
pub open spec fn await_code_run(attempts: u8, events: Seq<Result<WebEvent, RecvFailure>>, callback_path: Seq<char>) -> Option<Option<OAuthCode>>
    decreases events.len(),
{
    if attempts == 0 {
        None
    } else if events.len() == 0 {
        Some(None)
    } else {
        match code_wait(attempts, events[0], callback_path) {
            CodeWait::Got(c) => Some(Some(c)),
            CodeWait::Continue(a) => await_code_run(a, events.drop_first(), callback_path),
        }
    }
}

/// The number of closed-channel receptions among `events`.
pub open spec fn closed_count(events: Seq<Result<WebEvent, RecvFailure>>) -> nat
    decreases events.len(),
{
    if events.len() == 0 {
        0
    } else {
        (if events[0] == Err::<WebEvent, RecvFailure>(RecvFailure::Closed) {
            1nat
        } else {
            0nat
        }) + closed_count(events.drop_first())
    }
}

/// A client gives up waiting for its code only after as many closed-channel receptions as
/// it had attempts; skipped codes, other events and missed events never use one up.
pub proof fn await_code_gives_up_only_on_closed_channels(
    attempts: u8,
    events: Seq<Result<WebEvent, RecvFailure>>,
    callback_path: Seq<char>,
)
    requires
        await_code_run(attempts, events, callback_path) is None,
    ensures
        closed_count(events) >= attempts,
    decreases events.len(),
{
    if attempts == 0 {
    } else if events.len() == 0 {
    } else {
        match code_wait(attempts, events[0], callback_path) {
            CodeWait::Got(c) => {},
            CodeWait::Continue(a) => {
                await_code_gives_up_only_on_closed_channels(a, events.drop_first(), callback_path);
            },
        }
    }
}

} // verus!

verus! {

/// A token that has expired stays expired: its status at any later time is the same.
pub proof fn token_expiry_is_permanent(token: Token, now: i64, later: i64)
    requires
        now <= later,
        !(token_status(token, now) is Usable),
        token.expires_at is Some,
    ensures
        token_status(token, later) == token_status(token, now),
{
}

/// A token usable at some time was usable at every earlier time.
pub proof fn usable_token_was_usable_before(token: Token, earlier: i64, now: i64)
    requires
        earlier <= now,
        token_status(token, now) is Usable,
    ensures
        token_status(token, earlier) == token_status(token, now),
{
}

/// Setting the refresh token twice is setting it once, with the second one.
pub proof fn refresh_token_last_wins(status: TokenStatus, first: String, second: String)
    ensures
        status_with_refresh_token(status_with_refresh_token(status, first), second)
            == status_with_refresh_token(status, second),
{
}

/// How presenting the address ends, starting with `attempts` attempts, when the deliveries
/// go as `deliveries` says: delivered (`Some(true)`), given up (`None`), or `Some(false)`
/// where the deliveries run out first.
pub open spec fn redirect_run(attempts: u8, deliveries: Seq<bool>) -> Option<bool>
    decreases deliveries.len(),
{
    if attempts == 0 {
        None
    } else if deliveries.len() == 0 {
        Some(false)
    } else {
        match redirect_send(attempts, deliveries[0]) {
            RedirectSend::Delivered => Some(true),
            RedirectSend::SleepThenRetry(a) => redirect_run(a, deliveries.drop_first()),
        }
    }
}

/// Presenting the address is given up only after as many failed deliveries in a row as
/// there were attempts: the first `attempts` deliveries all failed.
pub proof fn redirect_gives_up_only_after_failed_deliveries(attempts: u8, deliveries: Seq<bool>)
    requires
        redirect_run(attempts, deliveries) is None,
    ensures
        deliveries.len() >= attempts,
        forall|i: int| 0 <= i < attempts ==> !deliveries[i],
    decreases deliveries.len(),
{
    if attempts == 0 {
    } else if deliveries.len() == 0 {
    } else {
        if !deliveries[0] {
            redirect_gives_up_only_after_failed_deliveries((attempts - 1) as u8, deliveries.drop_first());
            assert forall|i: int| 0 <= i < attempts implies !deliveries[i] by {
                if i > 0 {
                    assert(deliveries.drop_first()[i - 1] == deliveries[i]);
                }
            }
        }
    }
}

} // verus!
