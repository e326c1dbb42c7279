use raskol::auth::{AuthError, ClaimFields, Claims};
use raskol::conf::ConfJwt;
use raskol::jwt::{Fault, Field};
use raskol::time::{Moment, Span};
use std::time::{Duration, SystemTime, UNIX_EPOCH};

fn now_secs() -> u64 {
    SystemTime::now().duration_since(UNIX_EPOCH).unwrap().as_secs()
}

fn conf() -> ConfJwt {
    ConfJwt {
        secret: "test-secret".to_string(),
        audience: "test".to_string(),
        issuer: "test-issuer".to_string(),
    }
}

fn claims(exp: u64) -> Claims {
    Claims {
        sub: "test-user".to_string(),
        exp,
        role: "HACKER".to_string(),
        iss: "test-issuer".to_string(),
        aud: "test".to_string(),
        iat: 7,
        nbf: None,
    }
}

fn fields(c: &Claims) -> ClaimFields {
    ClaimFields {
        sub: Field::Text(c.sub.clone()),
        exp: Field::Unsigned(c.exp),
        role: Field::Text(c.role.clone()),
        iss: Field::Text(c.iss.clone()),
        aud: Field::Text(c.aud.clone()),
        iat: Field::Unsigned(c.iat),
        nbf: match c.nbf {
            Some(n) => Field::Unsigned(n),
            None => Field::Null,
        },
    }
}

fn sign(payload: &serde_json::Map<String, serde_json::Value>, secret: &str) -> String {
    jsonwebtoken::encode(
        &jsonwebtoken::Header::default(),
        payload,
        &jsonwebtoken::EncodingKey::from_secret(secret.as_bytes()),
    )
    .unwrap()
}

#[test]
fn good() {
    let conf = ConfJwt::default();
    let mut claims = Claims::new("foo", Duration::from_secs(5)).unwrap();
    claims.iss = conf.issuer.clone();
    claims.aud = conf.audience.clone();
    let encoded: String = claims.to_str(&conf).unwrap();
    let decoded = Claims::from_str(&encoded, &conf).unwrap();
    assert_eq!(&claims, &decoded);
}

#[test]
fn bad_key() {
    let claims = Claims::new("foo", Duration::from_secs(5)).unwrap();

    let conf_good = ConfJwt::default();
    let conf_bad = ConfJwt {
        secret: conf_good.secret.to_string() + "naughty",
        ..conf_good.clone()
    };

    let encoded: String = claims.to_str(&conf_good).unwrap();
    let decode_result = Claims::from_str(&encoded, &conf_bad);

    assert!(matches!(decode_result, Err(e) if e == AuthError::InvalidSignature));
}

#[test]
fn expired() {
    let conf = ConfJwt {
        secret: "super secret".to_string(),
        ..Default::default()
    };

    let mut claims = Claims::new("foo", Duration::ZERO).unwrap();
    claims.exp -= 10; // Expire arbitrarily-far back in the past.

    let encoded: String = claims.to_str(&conf).unwrap();
    let decode_result = Claims::from_str(&encoded, &conf);

    assert!(matches!(decode_result, Err(e) if e == AuthError::Expired));
}

#[test]
fn new_claims_have_the_defaults() {
    let before = now_secs();
    let c = Claims::new("foo", Duration::from_secs(5)).unwrap();
    let after = now_secs();
    assert_eq!(c.sub, "foo");
    assert_eq!(c.role, "HACKER");
    assert_eq!(c.iss, "");
    assert_eq!(c.aud, "");
    assert_eq!(c.iat, 0);
    assert_eq!(c.nbf, None);
    assert!(before + 5 <= c.exp && c.exp <= after + 5);
}

#[test]
fn issue_sets_expiry_to_now_plus_ttl() {
    let now = Moment { secs: 1_000, nanos: 0 };
    let c = Claims::issue("u", &now, &Span { secs: 300, nanos: 0 });
    assert_eq!(c.exp, 1_300);
    assert_eq!(c.sub, "u");
    assert_eq!(c.role, "HACKER");
}

#[test]
fn issue_carries_the_fractions() {
    let now = Moment { secs: 10, nanos: 600_000_000 };
    assert_eq!(Claims::issue("u", &now, &Span { secs: 0, nanos: 500_000_000 }).exp, 11);
    assert_eq!(Claims::issue("u", &now, &Span { secs: 0, nanos: 399_999_999 }).exp, 10);
    assert_eq!(Claims::issue("u", &now, &Span { secs: 0, nanos: 400_000_000 }).exp, 11);
}

#[test]
fn issue_holds_expiry_at_the_largest_second() {
    let now = Moment { secs: u64::MAX - 1, nanos: 999_999_999 };
    assert_eq!(Claims::issue("u", &now, &Span { secs: 5, nanos: 1 }).exp, u64::MAX);
    assert_eq!(Claims::issue("u", &now, &Span { secs: 0, nanos: 0 }).exp, u64::MAX - 1);
    assert_eq!(Claims::issue("u", &now, &Span { secs: 0, nanos: 1 }).exp, u64::MAX);
}

#[test]
fn round_trip_keeps_every_claim() {
    let conf = conf();
    let mut c = claims(now_secs() + 60);
    c.nbf = Some(3);
    let token = c.to_str(&conf).unwrap();
    assert_ne!(token, c.sub);
    assert_eq!(token.split('.').count(), 3);
    assert_eq!(Claims::from_str(&token, &conf), Ok(c));
}

#[test]
fn token_depends_on_claims_and_secret_alone() {
    let c = claims(2_000_000_000);
    assert_eq!(c.to_str(&conf()), c.to_str(&conf()));
    let other = ConfJwt { secret: "other".to_string(), ..conf() };
    assert_ne!(c.to_str(&conf()), c.to_str(&other));
    assert_ne!(c.to_str(&conf()), claims(2_000_000_001).to_str(&conf()));
}

#[test]
fn token_writes_claims_in_the_order_of_the_fields() {
    let token = claims(2_000_000_000).to_str(&conf()).unwrap();
    let mut expected = serde_json::Map::new();
    expected.insert("sub".to_string(), serde_json::Value::from("test-user"));
    expected.insert("exp".to_string(), serde_json::Value::from(2_000_000_000u64));
    expected.insert("role".to_string(), serde_json::Value::from("HACKER"));
    expected.insert("iss".to_string(), serde_json::Value::from("test-issuer"));
    expected.insert("aud".to_string(), serde_json::Value::from("test"));
    expected.insert("iat".to_string(), serde_json::Value::from(7u64));
    expected.insert("nbf".to_string(), serde_json::Value::Null);
    assert_eq!(token, sign(&expected, "test-secret"));
}

#[test]
fn one_second_in_the_future_is_accepted() {
    let conf = conf();
    let c = claims(now_secs() + 1);
    let token = c.to_str(&conf).unwrap();
    assert_eq!(Claims::from_str(&token, &conf), Ok(c));
}

#[test]
fn one_second_in_the_past_is_expired() {
    let conf = conf();
    let token = claims(now_secs() - 1).to_str(&conf).unwrap();
    assert_eq!(Claims::from_str(&token, &conf), Err(AuthError::Expired));
}

#[test]
fn wrong_secret_is_an_invalid_signature() {
    let token = claims(now_secs() + 60).to_str(&conf()).unwrap();
    let other = ConfJwt { secret: "test-secret2".to_string(), ..conf() };
    assert_eq!(Claims::from_str(&token, &other), Err(AuthError::InvalidSignature));
}

#[test]
fn wrong_audience_is_rejected() {
    let mut c = claims(now_secs() + 60);
    c.aud = "elsewhere".to_string();
    let token = c.to_str(&conf()).unwrap();
    assert_eq!(Claims::from_str(&token, &conf()), Err(AuthError::InvalidAudience));
}

#[test]
fn wrong_audience_is_rejected_when_expired_too() {
    let mut c = claims(now_secs() - 60);
    c.aud = "elsewhere".to_string();
    let token = c.to_str(&conf()).unwrap();
    assert!(Claims::from_str(&token, &conf()).is_err());
}

#[test]
fn wrong_issuer_is_rejected() {
    let mut c = claims(now_secs() + 60);
    c.iss = "someone".to_string();
    let token = c.to_str(&conf()).unwrap();
    assert_eq!(Claims::from_str(&token, &conf()), Err(AuthError::InvalidIssuer));
}

#[test]
fn garbage_is_malformed() {
    assert_eq!(Claims::from_str("garbage", &conf()), Err(AuthError::Malformed));
    assert_eq!(Claims::from_str("", &conf()), Err(AuthError::Malformed));
    assert_eq!(Claims::from_str("a.b.c", &conf()), Err(AuthError::Malformed));
}

#[test]
fn token_without_a_role_is_malformed() {
    let mut payload = serde_json::Map::new();
    payload.insert("sub".to_string(), serde_json::Value::from("test-user"));
    payload.insert("exp".to_string(), serde_json::Value::from(now_secs() + 60));
    payload.insert("iss".to_string(), serde_json::Value::from("test-issuer"));
    payload.insert("aud".to_string(), serde_json::Value::from("test"));
    payload.insert("iat".to_string(), serde_json::Value::from(0u64));
    let token = sign(&payload, "test-secret");
    assert_eq!(Claims::from_str(&token, &conf()), Err(AuthError::Malformed));
}

#[test]
fn token_without_nbf_is_accepted() {
    let exp = now_secs() + 60;
    let mut payload = serde_json::Map::new();
    payload.insert("sub".to_string(), serde_json::Value::from("test-user"));
    payload.insert("exp".to_string(), serde_json::Value::from(exp));
    payload.insert("role".to_string(), serde_json::Value::from("HACKER"));
    payload.insert("iss".to_string(), serde_json::Value::from("test-issuer"));
    payload.insert("aud".to_string(), serde_json::Value::from("test"));
    payload.insert("iat".to_string(), serde_json::Value::from(7u64));
    let token = sign(&payload, "test-secret");
    assert_eq!(Claims::from_str(&token, &conf()), Ok(claims(exp)));
}

#[test]
fn token_with_a_text_for_a_number_is_malformed() {
    let mut payload = serde_json::Map::new();
    payload.insert("sub".to_string(), serde_json::Value::from("test-user"));
    payload.insert("exp".to_string(), serde_json::Value::from(now_secs() + 60));
    payload.insert("role".to_string(), serde_json::Value::from("HACKER"));
    payload.insert("iss".to_string(), serde_json::Value::from("test-issuer"));
    payload.insert("aud".to_string(), serde_json::Value::from("test"));
    payload.insert("iat".to_string(), serde_json::Value::from("seven"));
    let token = sign(&payload, "test-secret");
    assert_eq!(Claims::from_str(&token, &conf()), Err(AuthError::Malformed));
}

#[test]
fn parse_takes_complete_fields() {
    let c = claims(99);
    assert_eq!(Claims::parse(fields(&c)), Ok(c));
    let mut with_nbf = claims(99);
    with_nbf.nbf = Some(5);
    assert_eq!(Claims::parse(fields(&with_nbf)), Ok(with_nbf));
    let mut absent = fields(&claims(99));
    absent.nbf = Field::Absent;
    assert_eq!(Claims::parse(absent), Ok(claims(99)));
}

#[test]
fn parse_refuses_incomplete_fields() {
    let c = claims(99);
    let mut f = fields(&c);
    f.sub = Field::Absent;
    assert_eq!(Claims::parse(f), Err(AuthError::Malformed));
    let mut f = fields(&c);
    f.exp = Field::Text("99".to_string());
    assert_eq!(Claims::parse(f), Err(AuthError::Malformed));
    let mut f = fields(&c);
    f.role = Field::Null;
    assert_eq!(Claims::parse(f), Err(AuthError::Malformed));
    let mut f = fields(&c);
    f.iss = Field::Other;
    assert_eq!(Claims::parse(f), Err(AuthError::Malformed));
    let mut f = fields(&c);
    f.aud = Field::Unsigned(1);
    assert_eq!(Claims::parse(f), Err(AuthError::Malformed));
    let mut f = fields(&c);
    f.iat = Field::Absent;
    assert_eq!(Claims::parse(f), Err(AuthError::Malformed));
    let mut f = fields(&c);
    f.nbf = Field::Text("soon".to_string());
    assert_eq!(Claims::parse(f), Err(AuthError::Malformed));
}

#[test]
fn vet_has_no_leeway() {
    let c = claims(100);
    assert_eq!(c.vet(&conf(), 99), Ok(()));
    assert_eq!(c.vet(&conf(), 100), Ok(()));
    assert_eq!(c.vet(&conf(), 101), Err(AuthError::Expired));
}

#[test]
fn vet_judges_expiry_then_issuer_then_audience() {
    let mut c = claims(100);
    c.iss = "x".to_string();
    c.aud = "y".to_string();
    assert_eq!(c.vet(&conf(), 101), Err(AuthError::Expired));
    assert_eq!(c.vet(&conf(), 100), Err(AuthError::InvalidIssuer));
    c.iss = "test-issuer".to_string();
    assert_eq!(c.vet(&conf(), 100), Err(AuthError::InvalidAudience));
}

#[test]
fn accept_is_parse_then_vet() {
    let c = claims(100);
    assert_eq!(Claims::accept(fields(&c), &conf(), 100), Ok(claims(100)));
    assert_eq!(Claims::accept(fields(&c), &conf(), 101), Err(AuthError::Expired));
    let mut f = fields(&c);
    f.sub = Field::Null;
    assert_eq!(Claims::accept(f, &conf(), 101), Err(AuthError::Malformed));
}

#[test]
fn settle_maps_each_fault() {
    let clock = Some(Moment { secs: 5, nanos: 0 });
    let conf = conf();
    assert_eq!(
        Claims::settle(Err(Fault::InvalidSignature), clock, &conf),
        Err(AuthError::InvalidSignature)
    );
    assert_eq!(Claims::settle(Err(Fault::ExpiredSignature), clock, &conf), Err(AuthError::Expired));
    assert_eq!(
        Claims::settle(Err(Fault::InvalidIssuer), clock, &conf),
        Err(AuthError::InvalidIssuer)
    );
    assert_eq!(
        Claims::settle(Err(Fault::InvalidAudience), clock, &conf),
        Err(AuthError::InvalidAudience)
    );
    assert_eq!(Claims::settle(Err(Fault::Other), clock, &conf), Err(AuthError::Malformed));
    assert_eq!(AuthError::of_fault(Fault::Other), AuthError::Malformed);
}

#[test]
fn settle_vets_an_accepted_payload_at_the_clock() {
    let c = claims(100);
    let conf = conf();
    assert_eq!(
        Claims::settle(Ok(fields(&c)), Some(Moment { secs: 100, nanos: 999_999_999 }), &conf),
        Ok(claims(100))
    );
    assert_eq!(
        Claims::settle(Ok(fields(&c)), Some(Moment { secs: 101, nanos: 0 }), &conf),
        Err(AuthError::Expired)
    );
    assert_eq!(Claims::settle(Ok(fields(&c)), None, &conf), Err(AuthError::Expired));
}

#[test]
fn read_finds_each_kind_of_field() {
    let mut payload = serde_json::Map::new();
    payload.insert("sub".to_string(), serde_json::Value::from("s"));
    payload.insert("exp".to_string(), serde_json::Value::from(5u64));
    payload.insert("role".to_string(), serde_json::Value::Null);
    payload.insert("iss".to_string(), serde_json::Value::from(-1i64));
    payload.insert("aud".to_string(), serde_json::Value::from(true));
    payload.insert("nbf".to_string(), serde_json::Value::from(u64::MAX));
    let f = ClaimFields::read(&serde_json::Value::Object(payload));
    assert_eq!(f.sub, Field::Text("s".to_string()));
    assert_eq!(f.exp, Field::Unsigned(5));
    assert_eq!(f.role, Field::Null);
    assert_eq!(f.iss, Field::Other);
    assert_eq!(f.aud, Field::Other);
    assert_eq!(f.iat, Field::Absent);
    assert_eq!(f.nbf, Field::Unsigned(u64::MAX));
}

#[test]
fn decode_yields_the_payload_of_an_accepted_token() {
    let c = claims(now_secs() + 60);
    let token = c.to_str(&conf()).unwrap();
    let payload = raskol::jwt::decode(&token, &conf()).unwrap();
    assert_eq!(payload.get("sub"), Some(&serde_json::Value::from("test-user")));
    assert_eq!(payload.get("nbf"), Some(&serde_json::Value::Null));
    assert_eq!(ClaimFields::read(&payload), fields(&c));
}

#[test]
fn decode_tells_the_faults_apart() {
    let good = claims(now_secs() + 60);
    let other = ConfJwt { secret: "other".to_string(), ..conf() };
    assert_eq!(
        raskol::jwt::decode(&good.to_str(&other).unwrap(), &conf()).err(),
        Some(Fault::InvalidSignature)
    );
    assert_eq!(
        raskol::jwt::decode(&claims(now_secs() - 60).to_str(&conf()).unwrap(), &conf()).err(),
        Some(Fault::ExpiredSignature)
    );
    let mut foreign = claims(now_secs() + 60);
    foreign.iss = "someone".to_string();
    assert_eq!(
        raskol::jwt::decode(&foreign.to_str(&conf()).unwrap(), &conf()).err(),
        Some(Fault::InvalidIssuer)
    );
    let mut elsewhere = claims(now_secs() + 60);
    elsewhere.aud = "elsewhere".to_string();
    assert_eq!(
        raskol::jwt::decode(&elsewhere.to_str(&conf()).unwrap(), &conf()).err(),
        Some(Fault::InvalidAudience)
    );
    assert_eq!(raskol::jwt::decode("garbage", &conf()).err(), Some(Fault::Other));
}

#[test]
fn encode_signs_what_to_str_signs() {
    let c = claims(2_000_000_000);
    assert_eq!(raskol::jwt::encode(&c, &conf()).ok(), c.to_str(&conf()).ok());
}
