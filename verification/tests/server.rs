use raskol::auth::{AuthError, Claims};
use raskol::conf::{Conf, ConfJwt};
use raskol::data::{HitOutcome, HitRecord, Ledger, LedgerError, StorageError};
use raskol::gate::{AdmissionError, Role, Route};
use raskol::server::{
    authenticate, authorize, bearer_header, bearer_token, reason, serve, target_url, user_of,
    Action, ApiError, ErrorResponse, Event, Failure, Rejection, Reply, Stage, UpstreamError,
    UpstreamReply, User,
};
use raskol::time::{Moment, Span};
use std::time::{SystemTime, UNIX_EPOCH};

const DAY: &str = "2001-09-09";

fn at(secs: u64) -> Moment {
    Moment { secs: 1_000_000_000 + secs, nanos: 0 }
}

fn conf(cap: u64) -> Conf {
    Conf {
        jwt: ConfJwt {
            secret: "test-secret".to_string(),
            audience: "test".to_string(),
            issuer: "test".to_string(),
        },
        min_hit_interval: Span { secs: 5, nanos: 0 },
        max_tokens_per_day: cap,
        ..Conf::default()
    }
}

fn user(role: Role) -> User {
    User { uid: "test-user".to_string(), role }
}

fn hacker() -> Result<User, AuthError> {
    Ok(user(Role::Hacker))
}

fn ok(status: u16) -> Result<UpstreamReply, UpstreamError> {
    Ok(UpstreamReply { status, body: b"{\"choices\":[]}".to_vec() })
}

fn token(aud: &str, exp: u64) -> String {
    let claims = Claims {
        sub: "test-user".to_string(),
        exp,
        role: "ADMIN".to_string(),
        iss: "test".to_string(),
        aud: aud.to_string(),
        iat: 0,
        nbf: None,
    };
    claims.to_str(&conf(10).jwt).unwrap()
}

fn now_secs() -> u64 {
    SystemTime::now().duration_since(UNIX_EPOCH).unwrap().as_secs()
}

fn status_of(stage: Stage) -> u16 {
    match stage.respond() {
        Some(Reply::Relay { status, .. }) => status,
        Some(Reply::Error(ApiError(status, _))) => status,
        None => 0,
    }
}

fn details_of(stage: Stage) -> Option<String> {
    match stage.respond() {
        Some(Reply::Error(ApiError(_, body))) => body.details,
        _ => None,
    }
}

#[test]
fn bearer_token_follows_the_prefix() {
    assert_eq!(bearer_token(Some("Bearer abc.def.ghi")), Ok("abc.def.ghi"));
    assert_eq!(bearer_token(Some("Bearer ")), Ok(""));
    assert_eq!(bearer_token(Some("Bearer  x")), Ok(" x"));
}

#[test]
fn bearer_token_needs_header_and_prefix() {
    assert_eq!(bearer_token(None), Err(AuthError::Malformed));
    assert_eq!(bearer_token(Some("")), Err(AuthError::Malformed));
    assert_eq!(bearer_token(Some("Bearer")), Err(AuthError::Malformed));
    assert_eq!(bearer_token(Some("bearer abc")), Err(AuthError::Malformed));
    assert_eq!(bearer_token(Some("Basic abc")), Err(AuthError::Malformed));
    assert_eq!(bearer_token(Some(" Bearer abc")), Err(AuthError::Malformed));
}

#[test]
fn bearer_header_carries_the_token() {
    assert_eq!(bearer_header("abc"), "Bearer abc");
    assert_eq!(bearer_token(Some(bearer_header("abc").as_str())), Ok("abc"));
}

#[test]
fn target_url_is_https_host_and_endpoint() {
    assert_eq!(
        target_url("api.groq.com", "openai/v1/chat/completions"),
        "https://api.groq.com/openai/v1/chat/completions"
    );
    assert_eq!(target_url("", ""), "https:///");
}

#[test]
fn user_is_subject_and_role() {
    let claims = Claims {
        sub: "s".to_string(),
        exp: 1,
        role: "ADMIN".to_string(),
        iss: String::new(),
        aud: String::new(),
        iat: 0,
        nbf: None,
    };
    assert_eq!(User::of_claims(claims.clone()), User { uid: "s".to_string(), role: Role::Admin });
    assert_eq!(user_of(Ok(claims)), Ok(User { uid: "s".to_string(), role: Role::Admin }));
    assert_eq!(user_of(Err(AuthError::Expired)), Err(AuthError::Expired));
}

#[test]
fn authorize_accepts_a_valid_token() {
    let user = authorize(&token("test", now_secs() + 60), &conf(10).jwt);
    assert_eq!(user, Some(User { uid: "test-user".to_string(), role: Role::Admin }));
}

#[test]
fn authorize_refuses_what_is_not_valid() {
    assert_eq!(authorize(&token("test", now_secs() - 60), &conf(10).jwt), None);
    assert_eq!(authorize(&token("other", now_secs() + 60), &conf(10).jwt), None);
    assert_eq!(authorize("", &conf(10).jwt), None);
}

#[test]
fn authenticate_reads_the_header() {
    let header = bearer_header(&token("test", now_secs() + 60));
    assert_eq!(
        authenticate(Some(header.as_str()), &conf(10).jwt),
        Ok(User { uid: "test-user".to_string(), role: Role::Admin })
    );
    assert_eq!(authenticate(None, &conf(10).jwt), Err(AuthError::Malformed));
    assert_eq!(
        authenticate(Some(token("test", now_secs() + 60).as_str()), &conf(10).jwt),
        Err(AuthError::Malformed)
    );
    let late = bearer_header(&token("test", now_secs() - 60));
    assert_eq!(authenticate(Some(late.as_str()), &conf(10).jwt), Err(AuthError::Expired));
}

#[test]
fn status_of_each_rejection() {
    assert_eq!(Rejection::BadRequest.status(), 400);
    for e in [
        AuthError::InvalidSignature,
        AuthError::Expired,
        AuthError::InvalidAudience,
        AuthError::InvalidIssuer,
        AuthError::Malformed,
    ] {
        assert_eq!(Rejection::Auth(e).status(), 401);
    }
    assert_eq!(Rejection::Admission(AdmissionError::ForbiddenRole).status(), 403);
    assert_eq!(Rejection::Admission(AdmissionError::TooSoon).status(), 429);
    assert_eq!(Rejection::Admission(AdmissionError::OverBudget).status(), 429);
    for e in [StorageError::LockTimeout, StorageError::IOFailure, StorageError::SchemaFailure] {
        assert_eq!(Rejection::Unavailable(Failure::Storage(e)).status(), 503);
    }
    assert_eq!(Rejection::Unavailable(Failure::Ledger(LedgerError::ClockWentBack)).status(), 503);
    assert_eq!(Rejection::Upstream(UpstreamError::NonSuccessStatus).status(), 503);
    assert_eq!(Rejection::Upstream(UpstreamError::Unreachable).status(), 502);
    assert_eq!(Rejection::Upstream(UpstreamError::MalformedResponse).status(), 502);
}

#[test]
fn words_for_each_status() {
    assert_eq!(reason(400), "Bad Request");
    assert_eq!(reason(401), "Unauthorized");
    assert_eq!(reason(403), "Forbidden");
    assert_eq!(reason(429), "Too Many Requests");
    assert_eq!(reason(502), "Bad Gateway");
    assert_eq!(reason(503), "Service Unavailable");
    assert_eq!(reason(500), "Internal Server Error");
    assert_eq!(reason(200), "OK");
    assert_eq!(reason(299), "Unknown error");
    assert_eq!(reason(99), "Unknown error");
    assert_eq!(reason(1000), "Unknown error");
    assert_eq!(reason(u16::MAX), "Unknown error");
}

#[test]
fn what_a_caller_is_told() {
    assert_eq!(
        ApiError::of(Rejection::Admission(AdmissionError::TooSoon)),
        ApiError(
            429,
            ErrorResponse {
                error: "Too Many Requests".to_string(),
                details: Some("too soon".to_string())
            }
        )
    );
    assert_eq!(
        ApiError::of(Rejection::Admission(AdmissionError::OverBudget)),
        ApiError(
            429,
            ErrorResponse {
                error: "Too Many Requests".to_string(),
                details: Some("budget exceeded".to_string())
            }
        )
    );
    assert_eq!(
        ApiError::of(Rejection::Auth(AuthError::InvalidAudience)),
        ApiError(401, ErrorResponse { error: "Unauthorized".to_string(), details: None })
    );
    assert_eq!(Rejection::Upstream(UpstreamError::Unreachable).details(), None);
}

#[test]
fn relay_marks_json_bodies() {
    let reply = UpstreamReply { status: 201, body: b"{\"a\": [1, 2]}".to_vec() };
    assert_eq!(
        reply.relay(),
        Reply::Relay { status: 201, body: b"{\"a\": [1, 2]}".to_vec(), json: true }
    );
    let plain = UpstreamReply { status: 200, body: b"upstream says hi".to_vec() };
    assert_eq!(
        plain.relay(),
        Reply::Relay { status: 200, body: b"upstream says hi".to_vec(), json: false }
    );
    let empty = UpstreamReply { status: 200, body: Vec::new() };
    assert_eq!(empty.relay(), Reply::Relay { status: 200, body: Vec::new(), json: false });
}

#[test]
fn stages_follow_one_another() {
    let min = Span { secs: 5, nanos: 0 };
    let stage = Stage::Unauthenticated;
    assert_eq!(stage.next_action(), Action::Verify);
    let stage = stage.advance(Event::Verified(hacker()), &min);
    assert_eq!(stage, Stage::Authenticated(user(Role::Hacker)));
    assert_eq!(stage.next_action(), Action::Route);
    let stage = stage.advance(Event::Routed(Route::Api), &min);
    assert_eq!(stage, Stage::RoleChecked(user(Role::Hacker)));
    assert_eq!(stage.next_action(), Action::Count);
    let hit = HitOutcome { prior_count: 3, elapsed: Some(Span { secs: 5, nanos: 0 }) };
    let stage = stage.advance(Event::Counted(Ok(hit)), &min);
    assert_eq!(stage, Stage::RateChecked(user(Role::Hacker)));
    assert_eq!(stage.next_action(), Action::Budget);
    let stage = stage.advance(Event::Budgeted(Ok(true)), &min);
    assert_eq!(stage, Stage::BudgetChecked(user(Role::Hacker)));
    assert_eq!(stage.next_action(), Action::Forward);
    let stage = stage.advance(Event::Answered(ok(200)), &min);
    assert_eq!(stage, Stage::Forwarded(user(Role::Hacker), ok(200).unwrap()));
    assert_eq!(stage.next_action(), Action::Book);
    assert_eq!(stage.clone().respond(), None);
    let stage = stage.advance(Event::Booked(Ok(())), &min);
    assert_eq!(stage, Stage::Settled { reply: ok(200).unwrap(), billed: true });
    assert_eq!(stage.next_action(), Action::Respond);
    assert_eq!(
        stage.respond(),
        Some(Reply::Relay { status: 200, body: b"{\"choices\":[]}".to_vec(), json: true })
    );
}

#[test]
fn each_gate_can_turn_away() {
    let min = Span { secs: 5, nanos: 0 };
    let u = || user(Role::Hacker);
    assert_eq!(
        Stage::Unauthenticated.advance(Event::Verified(Err(AuthError::Expired)), &min),
        Stage::Rejected(Rejection::Auth(AuthError::Expired))
    );
    assert_eq!(
        Stage::Authenticated(u()).advance(Event::Routed(Route::TotalStats), &min),
        Stage::Rejected(Rejection::Admission(AdmissionError::ForbiddenRole))
    );
    let soon = HitOutcome { prior_count: 1, elapsed: Some(Span { secs: 4, nanos: 999_999_999 }) };
    assert_eq!(
        Stage::RoleChecked(u()).advance(Event::Counted(Ok(soon)), &min),
        Stage::Rejected(Rejection::Admission(AdmissionError::TooSoon))
    );
    let locked = Failure::Storage(StorageError::LockTimeout);
    assert_eq!(
        Stage::RoleChecked(u()).advance(Event::Counted(Err(locked)), &min),
        Stage::Rejected(Rejection::Unavailable(locked))
    );
    assert_eq!(
        Stage::RateChecked(u()).advance(Event::Unparsed, &min),
        Stage::Rejected(Rejection::BadRequest)
    );
    assert_eq!(
        Stage::RateChecked(u()).advance(Event::Budgeted(Ok(false)), &min),
        Stage::Rejected(Rejection::Admission(AdmissionError::OverBudget))
    );
    assert_eq!(
        Stage::RateChecked(u()).advance(Event::Budgeted(Err(locked)), &min),
        Stage::Rejected(Rejection::Unavailable(locked))
    );
    for status in [0u16, 100, 199, 300, 404, 500, 503, u16::MAX] {
        assert_eq!(
            Stage::BudgetChecked(u()).advance(Event::Answered(ok(status)), &min),
            Stage::Rejected(Rejection::Upstream(UpstreamError::NonSuccessStatus))
        );
    }
    for status in [200u16, 201, 204, 299] {
        assert_eq!(
            Stage::BudgetChecked(u()).advance(Event::Answered(ok(status)), &min),
            Stage::Forwarded(u(), ok(status).unwrap())
        );
    }
    assert_eq!(
        Stage::BudgetChecked(u()).advance(Event::Answered(Err(UpstreamError::Unreachable)), &min),
        Stage::Rejected(Rejection::Upstream(UpstreamError::Unreachable))
    );
}

#[test]
fn booking_failure_does_not_change_the_answer() {
    let min = Span { secs: 5, nanos: 0 };
    let stage = Stage::Forwarded(user(Role::Hacker), ok(200).unwrap());
    let stage = stage.advance(Event::Booked(Err(Failure::Storage(StorageError::IOFailure))), &min);
    assert_eq!(stage, Stage::Settled { reply: ok(200).unwrap(), billed: false });
    assert_eq!(status_of(stage), 200);
}

#[test]
fn events_out_of_turn_change_nothing() {
    let min = Span { secs: 5, nanos: 0 };
    assert_eq!(
        Stage::Unauthenticated.advance(Event::Budgeted(Ok(true)), &min),
        Stage::Unauthenticated
    );
    assert_eq!(
        Stage::RoleChecked(user(Role::Hacker)).advance(Event::Answered(ok(200)), &min),
        Stage::RoleChecked(user(Role::Hacker))
    );
    let done = Stage::Rejected(Rejection::Auth(AuthError::Malformed));
    assert_eq!(done.clone().advance(Event::Verified(hacker()), &min), done);
    let settled = Stage::Settled { reply: ok(200).unwrap(), billed: false };
    assert_eq!(settled.clone().advance(Event::Booked(Ok(())), &min), settled);
}

#[test]
fn first_request_is_served_and_billed() {
    let mut ledger = Ledger::new(10);
    let conf = conf(10);
    let stage = serve(&mut ledger, &conf, hacker(), Route::Api, 3, &at(0), ok(200));
    assert_eq!(stage, Stage::Settled { reply: ok(200).unwrap(), billed: true });
    assert_eq!(status_of(stage), 200);
    assert_eq!(ledger.total("test-user", DAY), Some(3));
    assert_eq!(
        ledger.hit_record("test-user"),
        Some(HitRecord { count_of_all: 1, time_of_last: 1_000_000_000 })
    );
}

#[test]
fn second_request_comes_too_soon() {
    let mut ledger = Ledger::new(10);
    let conf = conf(10);
    serve(&mut ledger, &conf, hacker(), Route::Api, 3, &at(0), ok(200));
    let stage = serve(&mut ledger, &conf, hacker(), Route::Api, 3, &at(4), ok(200));
    assert_eq!(stage, Stage::Rejected(Rejection::Admission(AdmissionError::TooSoon)));
    assert_eq!(status_of(stage.clone()), 429);
    assert_eq!(details_of(stage), Some("too soon".to_string()));
    assert_eq!(
        ledger.hit_record("test-user"),
        Some(HitRecord { count_of_all: 2, time_of_last: 1_000_000_004 })
    );
    assert_eq!(ledger.total("test-user", DAY), Some(3));
}

#[test]
fn over_budget_is_stopped_before_upstream() {
    let mut ledger = Ledger::new(10);
    let conf = conf(10);
    serve(&mut ledger, &conf, hacker(), Route::Api, 3, &at(0), ok(200));
    serve(&mut ledger, &conf, hacker(), Route::Api, 3, &at(1), ok(200));
    let stage = serve(&mut ledger, &conf, hacker(), Route::Api, 8, &at(6), ok(200));
    assert_eq!(stage, Stage::Rejected(Rejection::Admission(AdmissionError::OverBudget)));
    assert_eq!(status_of(stage.clone()), 429);
    assert_eq!(details_of(stage), Some("budget exceeded".to_string()));
    assert_eq!(ledger.total("test-user", DAY), Some(3));
    let same = serve(
        &mut ledger,
        &conf,
        hacker(),
        Route::Api,
        8,
        &at(11),
        Err(UpstreamError::Unreachable),
    );
    assert_eq!(same, Stage::Rejected(Rejection::Admission(AdmissionError::OverBudget)));
    let fits = serve(&mut ledger, &conf, hacker(), Route::Api, 7, &at(16), ok(200));
    assert_eq!(fits, Stage::Settled { reply: ok(200).unwrap(), billed: true });
    assert_eq!(ledger.total("test-user", DAY), Some(10));
}

#[test]
fn wrong_audience_is_unauthorized() {
    let conf = conf(10);
    for exp in [now_secs() + 60, now_secs() - 60] {
        let mut ledger = Ledger::new(10);
        let header = bearer_header(&token("someone-else", exp));
        let verdict = authenticate(Some(header.as_str()), &conf.jwt);
        assert!(verdict.is_err());
        let stage = serve(&mut ledger, &conf, verdict, Route::Api, 3, &at(0), ok(200));
        assert_eq!(status_of(stage), 401);
        assert_eq!(ledger.hit_record("test-user"), None);
        assert_eq!(ledger.total("test-user", DAY), None);
    }
    let valid = token("someone-else", now_secs() + 60);
    assert_eq!(
        authenticate(Some(bearer_header(&valid).as_str()), &conf.jwt),
        Err(AuthError::InvalidAudience)
    );
}

#[test]
fn upstream_failure_costs_nothing() {
    let mut ledger = Ledger::new(10);
    let conf = conf(10);
    let stage = serve(&mut ledger, &conf, hacker(), Route::Api, 3, &at(0), ok(500));
    assert_eq!(stage, Stage::Rejected(Rejection::Upstream(UpstreamError::NonSuccessStatus)));
    assert_eq!(status_of(stage), 503);
    assert_eq!(ledger.total("test-user", DAY), Some(0));
    assert_eq!(
        ledger.hit_record("test-user"),
        Some(HitRecord { count_of_all: 1, time_of_last: 1_000_000_000 })
    );
    let stage = serve(
        &mut ledger,
        &conf,
        hacker(),
        Route::Api,
        3,
        &at(10),
        Err(UpstreamError::Unreachable),
    );
    assert_eq!(status_of(stage), 502);
    assert_eq!(ledger.total("test-user", DAY), Some(0));
}

#[test]
fn forbidden_role_is_not_counted() {
    let mut ledger = Ledger::new(10);
    let conf = conf(10);
    let stage = serve(&mut ledger, &conf, Ok(user(Role::Other)), Route::Api, 3, &at(0), ok(200));
    assert_eq!(stage, Stage::Rejected(Rejection::Admission(AdmissionError::ForbiddenRole)));
    assert_eq!(status_of(stage), 403);
    assert_eq!(ledger.hit_record("test-user"), None);
    let stage = serve(&mut ledger, &conf, hacker(), Route::TotalStats, 0, &at(0), ok(200));
    assert_eq!(status_of(stage), 403);
    let stage = serve(&mut ledger, &conf, Ok(user(Role::Admin)), Route::TotalStats, 0, &at(0), ok(200));
    assert_eq!(status_of(stage), 200);
}

#[test]
fn ledger_trouble_fails_closed() {
    let mut ledger = Ledger::new(10);
    let conf = conf(10);
    serve(&mut ledger, &conf, hacker(), Route::Api, 3, &at(100), ok(200));
    let stage = serve(&mut ledger, &conf, hacker(), Route::Api, 3, &at(50), ok(200));
    assert_eq!(
        stage,
        Stage::Rejected(Rejection::Unavailable(Failure::Ledger(LedgerError::ClockWentBack)))
    );
    assert_eq!(status_of(stage), 503);
    let far = Moment { secs: i64::MAX as u64, nanos: 0 };
    let stage = serve(&mut ledger, &conf, hacker(), Route::Api, 3, &far, ok(200));
    assert_eq!(
        stage,
        Stage::Rejected(Rejection::Unavailable(Failure::Ledger(LedgerError::TimeOutOfRange)))
    );
    assert_eq!(ledger.total("test-user", DAY), Some(3));
}

#[test]
fn booking_trouble_leaves_the_answer() {
    let mut ledger = Ledger::new(u64::MAX);
    let conf = conf(u64::MAX);
    let stage = serve(&mut ledger, &conf, hacker(), Route::Api, u64::MAX, &at(0), ok(200));
    assert_eq!(stage, Stage::Settled { reply: ok(200).unwrap(), billed: false });
    assert_eq!(status_of(stage), 200);
    assert_eq!(ledger.total("test-user", DAY), Some(0));
}

#[test]
fn days_roll_over() {
    let mut ledger = Ledger::new(10);
    let conf = conf(10);
    serve(&mut ledger, &conf, hacker(), Route::Api, 10, &at(0), ok(200));
    let stage = serve(&mut ledger, &conf, hacker(), Route::Api, 1, &at(10), ok(200));
    assert_eq!(status_of(stage), 429);
    let stage = serve(&mut ledger, &conf, hacker(), Route::Api, 10, &at(86_400), ok(200));
    assert_eq!(status_of(stage), 200);
    assert_eq!(ledger.total("test-user", DAY), Some(10));
    assert_eq!(ledger.total("test-user", "2001-09-10"), Some(10));
}
