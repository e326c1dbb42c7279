//! The admission pipeline: what becomes of a request, stage by stage, and
//! what the caller is told.

use crate::auth::{carried_claims, AuthError, Claims};
use crate::jwt::signed_with;
use crate::conf::{Conf, ConfJwt};
use crate::data::{
    day_of, lemma_second_hit, lookup, next_count, remaining, spec_day_of, spec_hit_step,
    spec_tokens_add, used, DayKey, HitOutcome,
    HitRecord, Ledger, LedgerError, StorageError,
};
use crate::gate::{
    budget_gate, rate_gate, role_gate, spec_keeps_interval, spec_role, spec_roles,
    AdmissionError, Role, Route,
};
use crate::text::{is_prefix_of, strip_prefix};
use crate::time::{Moment, Span, MAX_STORED_SECS};
use serde_json::Value;
use vstd::prelude::*;
use vstd::string::StringExecFns;

verus! {

/// A caller whose token was accepted.
#[derive(Clone, Debug, PartialEq, Eq)]
pub struct User {
    pub uid: String,
    pub role: Role,
}

/// Why the upstream service gave no answer to pass on.
#[derive(Clone, Copy, Debug, PartialEq, Eq, Structural)]
pub enum UpstreamError {
    /// The request did not reach the service.
    Unreachable,
    /// The service answered with a status outside 200 to 299.
    NonSuccessStatus,
    /// The answer could not be read to its end.
    MalformedResponse,
}

/// What the upstream service answered.
#[derive(Clone, Debug, PartialEq, Eq)]
pub struct UpstreamReply {
    pub status: u16,
    pub body: Vec<u8>,
}

/// Why the ledger could not be consulted or written.
#[derive(Clone, Copy, Debug, PartialEq, Eq, Structural)]
pub enum Failure {
    /// The ledger refused the operation.
    Ledger(LedgerError),
    /// The store behind the ledger failed.
    Storage(StorageError),
}

/// Why a request is turned away.
#[derive(Clone, Copy, Debug, PartialEq, Eq, Structural)]
pub enum Rejection {
    /// The token carries no trust.
    Auth(AuthError),
    /// The body is no chat request.
    BadRequest,
    /// The caller is known, and a gate is closed.
    Admission(AdmissionError),
    /// The ledger could not be consulted, so nobody is let through.
    Unavailable(Failure),
    /// The upstream service gave no answer to pass on.
    Upstream(UpstreamError),
}

/// What a caller is told of a request that was turned away.
#[derive(Clone, Debug, PartialEq, Eq)]
pub struct ErrorResponse {
    pub error: String,
    pub details: Option<String>,
}

/// A status and what the caller is told with it.
#[derive(Clone, Debug, PartialEq, Eq)]
pub struct ApiError(pub u16, pub ErrorResponse);

/// What a bearer token is preceded by in its header.
pub open spec fn bearer_prefix() -> Seq<char> {
    "Bearer "@
}

/// The token in an authorization header: what follows `Bearer `.
pub open spec fn spec_bearer_token(header: Option<Seq<char>>) -> Result<Seq<char>, AuthError> {
    match header {
        Some(h) if is_prefix_of(bearer_prefix(), h) => Ok(
            h.subrange(bearer_prefix().len() as int, h.len() as int),
        ),
        _ => Err(AuthError::Malformed),
    }
}

/// The text of a header, if there is one.
pub open spec fn header_text(header: Option<&str>) -> Option<Seq<char>> {
    match header {
        Some(h) => Some(h@),
        None => None,
    }
}

/// The token in an authorization header; `Malformed` where there is no
/// header or it does not start with `Bearer `.
pub fn bearer_token<'a>(header: Option<&'a str>) -> (r: Result<&'a str, AuthError>)
    ensures
        match spec_bearer_token(header_text(header)) {
            Ok(t) => r is Ok && r->Ok_0@ == t,
            Err(e) => r == Err::<&str, AuthError>(e),
        },
{
    match header {
        None => Err(AuthError::Malformed),
        Some(h) => match strip_prefix(h, "Bearer ") {
            Some(token) => Ok(token),
            None => Err(AuthError::Malformed),
        },
    }
}

impl User {
    /// The caller that claims speak of: the subject, in the role that the
    /// claims name.
    pub fn of_claims(claims: Claims) -> (user: User)
        ensures
            user.uid == claims.sub,
            user.role == spec_role(claims.role@),
    {
        let role: Role = Role::parse(claims.role.as_str());
        User { uid: claims.sub, role }
    }
}

/// The caller that a verdict on a token lets in, if it lets one in.
pub fn user_of(verdict: Result<Claims, AuthError>) -> (r: Result<User, AuthError>)
    ensures
        match verdict {
            Ok(claims) => r is Ok && r->Ok_0.uid == claims.sub && r->Ok_0.role == spec_role(
                claims.role@,
            ),
            Err(e) => r == Err::<User, AuthError>(e),
        },
{
    match verdict {
        Ok(claims) => Ok(User::of_claims(claims)),
        Err(e) => Err(e),
    }
}

/// Whether `user` is the caller that `token` speaks of for a gateway with
/// these settings: the token is signed with the secret, the claims that it
/// carries name the issuer and the audience expected, and the user is their
/// subject in the role that they name.
pub open spec fn speaks_of(token: Seq<char>, user: User, jwt_conf: ConfJwt) -> bool {
    &&& signed_with(token, jwt_conf.secret@)
    &&& carried_claims(token) matches Some(c) && {
        &&& c.iss == jwt_conf.issuer@
        &&& c.aud == jwt_conf.audience@
        &&& user.uid@ == c.sub
        &&& user.role == spec_role(c.role)
    }
}

/// The caller behind a token, if the token is accepted now: the caller
/// that the token speaks of.
pub fn authorize(auth_token: &str, jwt_conf: &ConfJwt) -> (r: Option<User>)
    ensures
        r matches Some(user) ==> speaks_of(auth_token@, user, *jwt_conf),
{
    match user_of(Claims::from_str(auth_token, jwt_conf)) {
        Ok(user) => Some(user),
        Err(_) => None,
    }
}

/// The caller behind an authorization header, if it holds a token that is
/// accepted now: the caller that the token in the header speaks of.
pub fn authenticate(header: Option<&str>, jwt_conf: &ConfJwt) -> (r: Result<User, AuthError>)
    ensures
        spec_bearer_token(header_text(header)) is Err ==> r == Err::<User, AuthError>(
            AuthError::Malformed,
        ),
        r matches Ok(user) ==> spec_bearer_token(header_text(header)) matches Ok(token)
            && speaks_of(token, user, *jwt_conf),
{
    match bearer_token(header) {
        Err(e) => Err(e),
        Ok(token) => user_of(Claims::from_str(token, jwt_conf)),
    }
}

/// The status that tells a caller of a rejection.
pub open spec fn spec_status(rejection: Rejection) -> u16 {
    match rejection {
        Rejection::BadRequest => 400,
        Rejection::Auth(_) => 401,
        Rejection::Admission(AdmissionError::ForbiddenRole) => 403,
        Rejection::Admission(_) => 429,
        Rejection::Unavailable(_) => 503,
        Rejection::Upstream(UpstreamError::NonSuccessStatus) => 503,
        Rejection::Upstream(_) => 502,
    }
}

/// The words that the `http` crate gives for a status; `None` where it has
/// none for it.
pub uninterp spec fn status_phrase(status: u16) -> Option<Seq<char>>;

/// `http::StatusCode::from_u16`, and `canonical_reason` on the status that
/// it gives: the words that stand for a status. They depend on the number
/// alone, so they have a name.
#[verifier::external_body]
fn canonical_reason(status: u16) -> (r: Option<&'static str>)
    ensures
        r matches Some(words) ==> status_phrase(status) == Some(words@),
        r is None ==> status_phrase(status) is None,
{
    axum::http::StatusCode::from_u16(status).ok()?.canonical_reason()
}

/// The words that stand for a status: those that the `http` crate gives,
/// or a phrase of the gateway's own where it gives none.
pub open spec fn spec_reason(status: u16) -> Seq<char> {
    match status_phrase(status) {
        Some(words) => words,
        None => "Unknown error"@,
    }
}

/// What more a caller is told of a rejection: which of the two gates that
/// answer alike was closed.
pub open spec fn spec_details(rejection: Rejection) -> Option<Seq<char>> {
    match rejection {
        Rejection::Admission(AdmissionError::TooSoon) => Some("too soon"@),
        Rejection::Admission(AdmissionError::OverBudget) => Some("budget exceeded"@),
        _ => None,
    }
}

/// The words that stand for a status.
pub fn reason(status: u16) -> (words: &'static str)
    ensures
        words@ == spec_reason(status),
{
    match canonical_reason(status) {
        Some(words) => words,
        None => "Unknown error",
    }
}

impl Rejection {
    /// The status that tells a caller of this rejection.
    pub fn status(&self) -> (status: u16)
        ensures
            status == spec_status(*self),
    {
        match self {
            Rejection::BadRequest => 400,
            Rejection::Auth(_) => 401,
            Rejection::Admission(AdmissionError::ForbiddenRole) => 403,
            Rejection::Admission(_) => 429,
            Rejection::Unavailable(_) => 503,
            Rejection::Upstream(UpstreamError::NonSuccessStatus) => 503,
            Rejection::Upstream(_) => 502,
        }
    }

    /// What more a caller is told of this rejection.
    pub fn details(&self) -> (details: Option<String>)
        ensures
            match spec_details(*self) {
                Some(words) => details is Some && details->Some_0@ == words,
                None => details is None,
            },
    {
        match self {
            Rejection::Admission(AdmissionError::TooSoon) => Some("too soon".to_string()),
            Rejection::Admission(AdmissionError::OverBudget) => Some(
                "budget exceeded".to_string(),
            ),
            _ => None,
        }
    }
}

impl ApiError {
    /// What the caller is told of a rejection: its status, the words that
    /// stand for the status, and which gate was closed where two answer
    /// alike. Nothing of what went on inside is told.
    pub fn of(rejection: Rejection) -> (e: ApiError)
        ensures
            e.0 == spec_status(rejection),
            e.1.error@ == spec_reason(spec_status(rejection)),
            match spec_details(rejection) {
                Some(words) => e.1.details is Some && e.1.details->Some_0@ == words,
                None => e.1.details is None,
            },
    {
        let status: u16 = rejection.status();
        ApiError(
            status,
            ErrorResponse { error: reason(status).to_string(), details: rejection.details() },
        )
    }
}

/// The address that a request for `endpoint` is forwarded to.
pub open spec fn spec_target_url(target_address: Seq<char>, endpoint: Seq<char>) -> Seq<char> {
    "https://"@ + target_address + "/"@ + endpoint
}

/// The address that a request for `endpoint` is forwarded to.
pub fn target_url(target_address: &str, endpoint: &str) -> (url: String)
    ensures
        url@ == spec_target_url(target_address@, endpoint@),
{
    let mut url: String = "https://".to_string();
    url.append(target_address);
    url.append("/");
    url.append(endpoint);
    url
}

/// The authorization header that carries `token`.
pub fn bearer_header(token: &str) -> (header: String)
    ensures
        header@ == bearer_prefix() + token@,
        spec_bearer_token(Some(header@)) == Ok::<Seq<char>, AuthError>(token@),
{
    let mut header: String = "Bearer ".to_string();
    header.append(token);
    assert(header@.subrange(0, bearer_prefix().len() as int) == bearer_prefix());
    assert(header@.subrange(bearer_prefix().len() as int, header@.len() as int) == token@);
    header
}

/// Whether a status says that the upstream service did what was asked.
pub open spec fn is_success(status: u16) -> bool {
    200 <= status < 300
}

/// Whether `body` is a JSON text, as the `serde_json` crate reads it.
pub uninterp spec fn parses_as_json(body: Seq<u8>) -> bool;

/// `serde_json::from_slice`, asked for a `Value`: whether it reads `body`
/// as a JSON text. That depends on the bytes alone, so it has a name.
#[verifier::external_body]
fn reads_as_json(body: &[u8]) -> (r: bool)
    ensures
        r == parses_as_json(body@),
{
    serde_json::from_slice::<Value>(body).is_ok()
}

/// What is sent back to the caller.
#[derive(Clone, Debug, PartialEq, Eq)]
pub enum Reply {
    /// The upstream service's answer, passed on as it came; `json` says
    /// whether the body is marked as JSON.
    Relay { status: u16, body: Vec<u8>, json: bool },
    /// A rejection.
    Error(ApiError),
}

impl UpstreamReply {
    /// The answer as it is passed on: status and body as they came, marked
    /// as JSON if the body is a JSON text.
    pub fn relay(self) -> (reply: Reply)
        ensures
            reply == (Reply::Relay {
                status: self.status,
                body: self.body,
                json: parses_as_json(self.body@),
            }),
    {
        let json: bool = reads_as_json(self.body.as_slice());
        Reply::Relay { status: self.status, body: self.body, json }
    }
}

/// How far a request has come.
#[derive(Clone, Debug, PartialEq, Eq)]
pub enum Stage {
    /// Nothing is known of the caller.
    Unauthenticated,
    /// The token was accepted.
    Authenticated(User),
    /// The route is open to the caller's role.
    RoleChecked(User),
    /// The request was counted and keeps the interval.
    RateChecked(User),
    /// The tokens asked for fit into the day's allowance.
    BudgetChecked(User),
    /// The upstream service has done what was asked.
    Forwarded(User, UpstreamReply),
    /// The answer stands; `billed` says whether the tokens were booked.
    Settled { reply: UpstreamReply, billed: bool },
    /// The request was turned away.
    Rejected(Rejection),
}

/// What has happened outside the pipeline.
#[derive(Debug, PartialEq, Eq)]
pub enum Event {
    /// The token was judged.
    Verified(Result<User, AuthError>),
    /// The route asked for is known.
    Routed(Route),
    /// The ledger was asked to count the request.
    Counted(Result<HitOutcome, Failure>),
    /// The body turned out to be no chat request, so that there is nothing
    /// to estimate.
    Unparsed,
    /// The ledger was asked whether the tokens fit.
    Budgeted(Result<bool, Failure>),
    /// The upstream service was asked.
    Answered(Result<UpstreamReply, UpstreamError>),
    /// The ledger was asked to book the tokens.
    Booked(Result<(), Failure>),
}

/// What is to be done next for a request.
#[derive(Clone, Copy, Debug, PartialEq, Eq, Structural)]
pub enum Action {
    Verify,
    Route,
    Count,
    Budget,
    Forward,
    Book,
    Respond,
}

/// The stage that follows `stage` on `event`, for a gateway that asks for
/// `min` between two requests of one caller. Each stage goes on with one
/// kind of event and stays as it is on any other. That the tokens could
/// not be booked changes nothing of an answer that stands.
pub open spec fn spec_advance(stage: Stage, event: Event, min: Span) -> Stage {
    match (stage, event) {
        (Stage::Unauthenticated, Event::Verified(Ok(user))) => Stage::Authenticated(user),
        (Stage::Unauthenticated, Event::Verified(Err(e))) => Stage::Rejected(Rejection::Auth(e)),
        (Stage::Authenticated(user), Event::Routed(route)) => if spec_roles(route).spec_contains(
            user.role,
        ) {
            Stage::RoleChecked(user)
        } else {
            Stage::Rejected(Rejection::Admission(AdmissionError::ForbiddenRole))
        },
        (Stage::RoleChecked(user), Event::Counted(Ok(hit))) => if spec_keeps_interval(
            hit.elapsed,
            min,
        ) {
            Stage::RateChecked(user)
        } else {
            Stage::Rejected(Rejection::Admission(AdmissionError::TooSoon))
        },
        (Stage::RoleChecked(_), Event::Counted(Err(f))) => Stage::Rejected(
            Rejection::Unavailable(f),
        ),
        (Stage::RateChecked(_), Event::Unparsed) => Stage::Rejected(Rejection::BadRequest),
        (Stage::RateChecked(user), Event::Budgeted(Ok(fits))) => if fits {
            Stage::BudgetChecked(user)
        } else {
            Stage::Rejected(Rejection::Admission(AdmissionError::OverBudget))
        },
        (Stage::RateChecked(_), Event::Budgeted(Err(f))) => Stage::Rejected(
            Rejection::Unavailable(f),
        ),
        (Stage::BudgetChecked(user), Event::Answered(Ok(reply))) => if is_success(reply.status) {
            Stage::Forwarded(user, reply)
        } else {
            Stage::Rejected(Rejection::Upstream(UpstreamError::NonSuccessStatus))
        },
        (Stage::BudgetChecked(_), Event::Answered(Err(e))) => Stage::Rejected(
            Rejection::Upstream(e),
        ),
        (Stage::Forwarded(_, reply), Event::Booked(booked)) => Stage::Settled {
            reply,
            billed: booked is Ok,
        },
        (stage, _) => stage,
    }
}

/// What is to be done next at `stage`.
pub open spec fn spec_next_action(stage: Stage) -> Action {
    match stage {
        Stage::Unauthenticated => Action::Verify,
        Stage::Authenticated(_) => Action::Route,
        Stage::RoleChecked(_) => Action::Count,
        Stage::RateChecked(_) => Action::Budget,
        Stage::BudgetChecked(_) => Action::Forward,
        Stage::Forwarded(_, _) => Action::Book,
        Stage::Settled { .. } => Action::Respond,
        Stage::Rejected(_) => Action::Respond,
    }
}

impl Stage {
    /// Whether nothing more happens to the request.
    pub open spec fn is_final(&self) -> bool {
        *self is Settled || *self is Rejected
    }

    /// The caller, while the request is on its way: from the moment the
    /// token is accepted until the answer stands.
    pub open spec fn spec_user(&self) -> Option<User> {
        match *self {
            Stage::Authenticated(user) => Some(user),
            Stage::RoleChecked(user) => Some(user),
            Stage::RateChecked(user) => Some(user),
            Stage::BudgetChecked(user) => Some(user),
            Stage::Forwarded(user, _) => Some(user),
            _ => None,
        }
    }

    /// The caller, while the request is on its way.
    pub fn user(&self) -> (r: Option<&User>)
        ensures
            match self.spec_user() {
                Some(user) => r == Some(&user),
                None => r is None,
            },
    {
        match self {
            Stage::Authenticated(user) => Some(user),
            Stage::RoleChecked(user) => Some(user),
            Stage::RateChecked(user) => Some(user),
            Stage::BudgetChecked(user) => Some(user),
            Stage::Forwarded(user, _) => Some(user),
            _ => None,
        }
    }

    /// The stage that follows this one on `event`.
    pub fn advance(self, event: Event, min: &Span) -> (next: Stage)
        ensures
            next == spec_advance(self, event, *min),
    {
        match (self, event) {
            (Stage::Unauthenticated, Event::Verified(Ok(user))) => Stage::Authenticated(user),
            (Stage::Unauthenticated, Event::Verified(Err(e))) => Stage::Rejected(
                Rejection::Auth(e),
            ),
            (Stage::Authenticated(user), Event::Routed(route)) => match role_gate(
                route,
                user.role,
            ) {
                Ok(_) => Stage::RoleChecked(user),
                Err(e) => Stage::Rejected(Rejection::Admission(e)),
            },
            (Stage::RoleChecked(user), Event::Counted(Ok(hit))) => match rate_gate(&hit, min) {
                Ok(_) => Stage::RateChecked(user),
                Err(e) => Stage::Rejected(Rejection::Admission(e)),
            },
            (Stage::RoleChecked(_), Event::Counted(Err(f))) => Stage::Rejected(
                Rejection::Unavailable(f),
            ),
            (Stage::RateChecked(_), Event::Unparsed) => Stage::Rejected(Rejection::BadRequest),
            (Stage::RateChecked(user), Event::Budgeted(Ok(fits))) => match budget_gate(fits) {
                Ok(_) => Stage::BudgetChecked(user),
                Err(e) => Stage::Rejected(Rejection::Admission(e)),
            },
            (Stage::RateChecked(_), Event::Budgeted(Err(f))) => Stage::Rejected(
                Rejection::Unavailable(f),
            ),
            (Stage::BudgetChecked(user), Event::Answered(Ok(reply))) => {
                if 200 <= reply.status && reply.status < 300 {
                    Stage::Forwarded(user, reply)
                } else {
                    Stage::Rejected(Rejection::Upstream(UpstreamError::NonSuccessStatus))
                }
            },
            (Stage::BudgetChecked(_), Event::Answered(Err(e))) => Stage::Rejected(
                Rejection::Upstream(e),
            ),
            (Stage::Forwarded(_, reply), Event::Booked(booked)) => Stage::Settled {
                reply,
                billed: booked.is_ok(),
            },
            (stage, _) => stage,
        }
    }

    /// What is to be done next at this stage.
    pub fn next_action(&self) -> (action: Action)
        ensures
            action == spec_next_action(*self),
    {
        match self {
            Stage::Unauthenticated => Action::Verify,
            Stage::Authenticated(_) => Action::Route,
            Stage::RoleChecked(_) => Action::Count,
            Stage::RateChecked(_) => Action::Budget,
            Stage::BudgetChecked(_) => Action::Forward,
            Stage::Forwarded(_, _) => Action::Book,
            Stage::Settled { .. } => Action::Respond,
            Stage::Rejected(_) => Action::Respond,
        }
    }

    /// What is sent back once nothing more happens to the request: the
    /// upstream service's answer, or the rejection. `None` before that.
    pub fn respond(self) -> (reply: Option<Reply>)
        ensures
            match self {
                Stage::Settled { reply: answer, billed } => reply == Some(
                    Reply::Relay {
                        status: answer.status,
                        body: answer.body,
                        json: parses_as_json(answer.body@),
                    },
                ),
                Stage::Rejected(rejection) => reply is Some && reply->Some_0 is Error && ({
                    let e = reply->Some_0->Error_0;
                    &&& e.0 == spec_status(rejection)
                    &&& e.1.error@ == spec_reason(spec_status(rejection))
                    &&& match spec_details(rejection) {
                        Some(words) => e.1.details is Some && e.1.details->Some_0@ == words,
                        None => e.1.details is None,
                    }
                }),
                _ => reply is None,
            },
    {
        match self {
            Stage::Settled { reply, billed: _ } => Some(reply.relay()),
            Stage::Rejected(rejection) => Some(Reply::Error(ApiError::of(rejection))),
            _ => None,
        }
    }
}

/// What serving one request leaves behind: the stage it ended in, and the
/// ledger.
pub struct Served {
    pub stage: Stage,
    pub hits: Map<Seq<char>, HitRecord>,
    pub totals: Map<DayKey, u64>,
}

/// What counting a request of `uid` at `now` does to the records, and what
/// the pipeline learns.
pub open spec fn spec_count(hits: Map<Seq<char>, HitRecord>, uid: Seq<char>, now: Moment) -> (
    Map<Seq<char>, HitRecord>,
    Result<HitOutcome, Failure>,
) {
    match spec_hit_step(lookup(hits, uid), now) {
        Ok((rec, out)) => (hits.insert(uid, rec), Ok(out)),
        Err(e) => (hits, Err(Failure::Ledger(e))),
    }
}

/// What asking whether `estimate` tokens fit does to the totals, and what
/// the pipeline learns. The tokens are looked up under the day in which
/// `now` falls.
pub open spec fn spec_budget(
    totals: Map<DayKey, u64>,
    daily_max: u64,
    uid: Seq<char>,
    now: Moment,
    estimate: u64,
) -> (Map<DayKey, u64>, Result<bool, Failure>) {
    match spec_day_of(now) {
        None => (totals, Err(Failure::Ledger(LedgerError::TimeOutOfRange))),
        Some(day) => (
            if totals.contains_key((uid, day)) {
                totals
            } else {
                totals.insert((uid, day), 0)
            },
            Ok(estimate <= remaining(daily_max, used(totals, (uid, day)))),
        ),
    }
}

/// What booking `estimate` tokens does to the totals, and what the
/// pipeline learns.
pub open spec fn spec_book(totals: Map<DayKey, u64>, uid: Seq<char>, now: Moment, estimate: u64)
    -> (Map<DayKey, u64>, Result<(), Failure>) {
    match spec_day_of(now) {
        None => (totals, Err(Failure::Ledger(LedgerError::TimeOutOfRange))),
        Some(day) => match spec_tokens_add(used(totals, (uid, day)), estimate) {
            Ok(total) => (totals.insert((uid, day), total), Ok(())),
            Err(e) => (totals, Err(Failure::Ledger(e))),
        },
    }
}

/// What becomes of one request, and of the ledger with it. The token's
/// verdict and the role are judged first. A caller that passes both is
/// counted, then held to the interval, then to the day's allowance. Only
/// then the upstream service is asked, and only if it did what was asked
/// the tokens are booked.
pub open spec fn spec_serve(
    hits: Map<Seq<char>, HitRecord>,
    totals: Map<DayKey, u64>,
    daily_max: u64,
    min: Span,
    verdict: Result<User, AuthError>,
    route: Route,
    estimate: u64,
    now: Moment,
    upstream: Result<UpstreamReply, UpstreamError>,
) -> Served {
    let judged = spec_advance(
        spec_advance(Stage::Unauthenticated, Event::Verified(verdict), min),
        Event::Routed(route),
        min,
    );
    match judged {
        Stage::RoleChecked(user) => {
            let (hits, counted) = spec_count(hits, user.uid@, now);
            let paced = spec_advance(judged, Event::Counted(counted), min);
            if !(paced is RateChecked) {
                Served { stage: paced, hits, totals }
            } else {
                let (totals, budgeted) = spec_budget(totals, daily_max, user.uid@, now, estimate);
                let funded = spec_advance(paced, Event::Budgeted(budgeted), min);
                if !(funded is BudgetChecked) {
                    Served { stage: funded, hits, totals }
                } else {
                    let answered = spec_advance(funded, Event::Answered(upstream), min);
                    if !(answered is Forwarded) {
                        Served { stage: answered, hits, totals }
                    } else {
                        let (totals, booked) = spec_book(totals, user.uid@, now, estimate);
                        Served {
                            stage: spec_advance(answered, Event::Booked(booked), min),
                            hits,
                            totals,
                        }
                    }
                }
            }
        },
        _ => Served { stage: judged, hits, totals },
    }
}

/// Takes one request through the pipeline against `ledger`. `verdict` is
/// what was found of the caller's token, `estimate` the tokens that the
/// request is taken to cost, `now` the time at which it is counted, and
/// `upstream` what the upstream service answers if it is asked.
pub fn serve(
    ledger: &mut Ledger,
    conf: &Conf,
    verdict: Result<User, AuthError>,
    route: Route,
    estimate: u64,
    now: &Moment,
    upstream: Result<UpstreamReply, UpstreamError>,
) -> (stage: Stage)
    requires
        old(ledger).wf(),
    ensures
        final(ledger).wf(),
        final(ledger).daily_max() == old(ledger).daily_max(),
        (Served { stage, hits: final(ledger).hits(), totals: final(ledger).totals() })
            == spec_serve(
            old(ledger).hits(),
            old(ledger).totals(),
            old(ledger).daily_max(),
            conf.min_hit_interval,
            verdict,
            route,
            estimate,
            *now,
            upstream,
        ),
{
    let min: &Span = &conf.min_hit_interval;
    let stage: Stage = Stage::Unauthenticated.advance(Event::Verified(verdict), min);
    let stage: Stage = stage.advance(Event::Routed(route), min);
    let uid: String = match &stage {
        Stage::RoleChecked(user) => user.uid.clone(),
        _ => { return stage; },
    };
    let counted: Result<HitOutcome, Failure> = match ledger.hit(uid.as_str(), now) {
        Ok(hit) => Ok(hit),
        Err(e) => Err(Failure::Ledger(e)),
    };
    let stage: Stage = stage.advance(Event::Counted(counted), min);
    match &stage {
        Stage::RateChecked(_) => {},
        _ => { return stage; },
    }
    let day: String = match day_of(now) {
        Some(day) => day,
        None => {
            return stage.advance(
                Event::Budgeted(Err(Failure::Ledger(LedgerError::TimeOutOfRange))),
                min,
            );
        },
    };
    let fits: bool = ledger.tokens_check(uid.as_str(), day.as_str(), estimate);
    let stage: Stage = stage.advance(Event::Budgeted(Ok(fits)), min);
    match &stage {
        Stage::BudgetChecked(_) => {},
        _ => { return stage; },
    }
    let stage: Stage = stage.advance(Event::Answered(upstream), min);
    match &stage {
        Stage::Forwarded(_, _) => {},
        _ => { return stage; },
    }
    let booked: Result<(), Failure> = match ledger.tokens_consume(
        uid.as_str(),
        day.as_str(),
        estimate,
    ) {
        Ok(_) => Ok(()),
        Err(e) => Err(Failure::Ledger(e)),
    };
    stage.advance(Event::Booked(booked), min)
}

/// How far a stage is along the way of a request.
pub open spec fn spec_rank(stage: Stage) -> nat {
    match stage {
        Stage::Unauthenticated => 0,
        Stage::Authenticated(_) => 1,
        Stage::RoleChecked(_) => 2,
        Stage::RateChecked(_) => 3,
        Stage::BudgetChecked(_) => 4,
        Stage::Forwarded(_, _) => 5,
        Stage::Settled { .. } => 6,
        Stage::Rejected(_) => 6,
    }
}

/// A request only goes forward: an event either leaves the stage as it
/// is, or takes the request one stage on, or turns it away. It is settled
/// only from the stage at which the upstream service has answered, and the
/// caller stays the same all the way.
pub proof fn lemma_stages_go_forward(stage: Stage, event: Event, min: Span)
    ensures
        ({
            let next = spec_advance(stage, event, min);
            &&& next == stage || next is Rejected || spec_rank(next) == spec_rank(stage) + 1
            &&& next is Settled && !(stage is Settled) ==> stage is Forwarded
            &&& next.spec_user() is Some && next != stage && !(stage is Unauthenticated)
                ==> next.spec_user() == stage.spec_user()
        }),
{
}

/// Nothing more happens to a request that was settled or turned away:
/// no event moves it.
pub proof fn lemma_final_stage_stays(stage: Stage, event: Event, min: Span)
    requires
        stage.is_final(),
    ensures
        spec_advance(stage, event, min) == stage,
{
}

/// A request that comes too soon is turned away: a caller that has passed
/// the role gate and comes before the interval has passed does not reach
/// the budget gate.
pub proof fn lemma_too_soon(user: User, hit: HitOutcome, min: Span)
    requires
        hit.elapsed is Some,
        !hit.elapsed->Some_0.spec_at_least(min),
    ensures
        spec_advance(Stage::RoleChecked(user), Event::Counted(Ok(hit)), min) == Stage::Rejected(
            Rejection::Admission(AdmissionError::TooSoon),
        ),
{
}

/// Two requests of one caller in a row: where the first is counted and
/// the second follows before the interval has passed since the second in
/// which the first came, the second is counted too and turned away as too
/// soon, and costs no tokens, whatever it asks for.
pub proof fn lemma_second_request_too_soon(
    hits: Map<Seq<char>, HitRecord>,
    totals: Map<DayKey, u64>,
    daily_max: u64,
    min: Span,
    user: User,
    route: Route,
    estimates: (u64, u64),
    first: Moment,
    second: Moment,
    upstreams: (Result<UpstreamReply, UpstreamError>, Result<UpstreamReply, UpstreamError>),
    key: DayKey,
)
    requires
        spec_roles(route).spec_contains(user.role),
        spec_hit_step(lookup(hits, user.uid@), first) is Ok,
        first.secs <= second.secs <= MAX_STORED_SECS,
        !(Span { secs: (second.secs - first.secs) as u64, nanos: second.nanos }).spec_at_least(
            min,
        ),
    ensures
        ({
            let once = spec_serve(
                hits,
                totals,
                daily_max,
                min,
                Ok(user),
                route,
                estimates.0,
                first,
                upstreams.0,
            );
            let twice = spec_serve(
                once.hits,
                once.totals,
                daily_max,
                min,
                Ok(user),
                route,
                estimates.1,
                second,
                upstreams.1,
            );
            &&& twice.stage == Stage::Rejected(Rejection::Admission(AdmissionError::TooSoon))
            &&& twice.hits == once.hits.insert(
                user.uid@,
                HitRecord {
                    count_of_all: next_count(once.hits[user.uid@].count_of_all),
                    time_of_last: second.secs,
                },
            )
            &&& used(twice.totals, key) == used(once.totals, key)
        }),
{
    lemma_second_hit(lookup(hits, user.uid@), first, second);
}

/// Every request of a caller that passes the role gate is counted,
/// whatever becomes of it later: the records after the request do not
/// depend on the tokens asked for, nor on what the upstream service says.
pub proof fn lemma_counted_whatever_follows(
    hits: Map<Seq<char>, HitRecord>,
    totals: Map<DayKey, u64>,
    daily_max: u64,
    min: Span,
    user: User,
    route: Route,
    estimate: u64,
    now: Moment,
    upstream: Result<UpstreamReply, UpstreamError>,
)
    requires
        spec_roles(route).spec_contains(user.role),
    ensures
        spec_serve(hits, totals, daily_max, min, Ok(user), route, estimate, now, upstream).hits
            == spec_count(hits, user.uid@, now).0,
{
}

/// No caller is counted for a request that fails at the token or at the
/// role, and no tokens are touched.
pub proof fn lemma_strangers_leave_no_trace(
    hits: Map<Seq<char>, HitRecord>,
    totals: Map<DayKey, u64>,
    daily_max: u64,
    min: Span,
    verdict: Result<User, AuthError>,
    route: Route,
    estimate: u64,
    now: Moment,
    upstream: Result<UpstreamReply, UpstreamError>,
)
    requires
        verdict is Err || !spec_roles(route).spec_contains(verdict->Ok_0.role),
    ensures
        ({
            let served = spec_serve(
                hits,
                totals,
                daily_max,
                min,
                verdict,
                route,
                estimate,
                now,
                upstream,
            );
            &&& served.hits == hits
            &&& served.totals == totals
            &&& verdict matches Err(e) ==> served.stage == Stage::Rejected(Rejection::Auth(e))
            &&& verdict is Ok ==> served.stage == Stage::Rejected(
                Rejection::Admission(AdmissionError::ForbiddenRole),
            )
        }),
{
}

/// Only a settled request costs tokens. Unless the request ends settled
/// and billed, every caller has used on every day what was used before.
/// Where it does, the tokens asked for are added to what the caller has
/// used on the day of the request, and nothing else changes.
pub proof fn lemma_only_settled_costs(
    hits: Map<Seq<char>, HitRecord>,
    totals: Map<DayKey, u64>,
    daily_max: u64,
    min: Span,
    verdict: Result<User, AuthError>,
    route: Route,
    estimate: u64,
    now: Moment,
    upstream: Result<UpstreamReply, UpstreamError>,
    key: DayKey,
)
    ensures
        ({
            let served = spec_serve(
                hits,
                totals,
                daily_max,
                min,
                verdict,
                route,
                estimate,
                now,
                upstream,
            );
            if served.stage matches Stage::Settled { billed: true, .. } {
                &&& verdict is Ok
                &&& spec_day_of(now) is Some
                &&& used(served.totals, key) == if key == (
                    verdict->Ok_0.uid@,
                    spec_day_of(now)->Some_0,
                ) {
                    used(totals, key) + estimate
                } else {
                    used(totals, key) as int
                }
            } else {
                used(served.totals, key) == used(totals, key)
            }
        }),
{
}

/// An upstream service that fails, or answers with a status outside 200
/// to 299, leaves the caller with an error of the gateway and costs no
/// tokens.
pub proof fn lemma_failed_upstream_costs_nothing(
    hits: Map<Seq<char>, HitRecord>,
    totals: Map<DayKey, u64>,
    daily_max: u64,
    min: Span,
    verdict: Result<User, AuthError>,
    route: Route,
    estimate: u64,
    now: Moment,
    upstream: Result<UpstreamReply, UpstreamError>,
    key: DayKey,
)
    requires
        upstream matches Ok(reply) ==> !is_success(reply.status),
    ensures
        ({
            let served = spec_serve(
                hits,
                totals,
                daily_max,
                min,
                verdict,
                route,
                estimate,
                now,
                upstream,
            );
            &&& served.stage is Rejected
            &&& used(served.totals, key) == used(totals, key)
            &&& served.stage->Rejected_0 is Upstream ==> 502 <= spec_status(
                served.stage->Rejected_0,
            ) <= 503
        }),
{
}

/// A request that would take the caller beyond the day's allowance is
/// turned away before the upstream service is asked: what becomes of it
/// does not depend on what the service would say.
pub proof fn lemma_over_budget_stops_before_upstream(
    hits: Map<Seq<char>, HitRecord>,
    totals: Map<DayKey, u64>,
    daily_max: u64,
    min: Span,
    user: User,
    route: Route,
    estimate: u64,
    now: Moment,
    upstream: Result<UpstreamReply, UpstreamError>,
    other: Result<UpstreamReply, UpstreamError>,
)
    requires
        spec_day_of(now) matches Some(day) && estimate > remaining(
            daily_max,
            used(totals, (user.uid@, day)),
        ),
    ensures
        spec_serve(hits, totals, daily_max, min, Ok(user), route, estimate, now, upstream)
            == spec_serve(hits, totals, daily_max, min, Ok(user), route, estimate, now, other),
        !(spec_serve(
            hits,
            totals,
            daily_max,
            min,
            Ok(user),
            route,
            estimate,
            now,
            upstream,
        ).stage is Settled),
{
}

} // verus!
