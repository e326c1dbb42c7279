//! Identity claims: how they are issued, written into a token, and vetted
//! when a token comes back.

use crate::conf::ConfJwt;
use crate::gate::{spec_role, Role};
use crate::jwt;
use crate::jwt::{Fault, Field, FieldView};
use crate::time::{span_of, Moment, Span};
use std::time::{Duration, SystemTimeError};
use vstd::prelude::*;

verus! {

/// Why a bearer token carries no trust.
#[derive(Clone, Copy, Debug, PartialEq, Eq, Structural)]
pub enum AuthError {
    InvalidSignature,
    Expired,
    InvalidAudience,
    InvalidIssuer,
    Malformed,
}

/// The payload of an identity token.
#[derive(Clone, Debug, PartialEq, Eq)]
pub struct Claims {
    /// The caller.
    pub sub: String,
    /// The last second, counted from the epoch, in which the token holds.
    pub exp: u64,
    pub role: String,
    pub iss: String,
    pub aud: String,
    pub iat: u64,
    pub nbf: Option<u64>,
}

/// What a `Claims` value holds.
pub struct ClaimsView {
    pub sub: Seq<char>,
    pub exp: u64,
    pub role: Seq<char>,
    pub iss: Seq<char>,
    pub aud: Seq<char>,
    pub iat: u64,
    pub nbf: Option<u64>,
}

impl View for Claims {
    type V = ClaimsView;

    open spec fn view(&self) -> ClaimsView {
        ClaimsView {
            sub: self.sub@,
            exp: self.exp,
            role: self.role@,
            iss: self.iss@,
            aud: self.aud@,
            iat: self.iat,
            nbf: self.nbf,
        }
    }
}

/// What a token's payload holds under the seven names of the claims.
#[derive(Clone, Debug, PartialEq, Eq)]
pub struct ClaimFields {
    pub sub: Field,
    pub exp: Field,
    pub role: Field,
    pub iss: Field,
    pub aud: Field,
    pub iat: Field,
    pub nbf: Field,
}

/// The name of the role that a freshly issued token gives.
pub open spec fn issued_role() -> Seq<char> {
    "HACKER"@
}

/// A freshly issued token gives the role of a hacker.
pub proof fn lemma_issued_role()
    ensures
        spec_role(issued_role()) == Role::Hacker,
{
}

/// The error that stands for a fault of the token crate.
pub open spec fn spec_error_of(f: Fault) -> AuthError {
    match f {
        Fault::InvalidSignature => AuthError::InvalidSignature,
        Fault::ExpiredSignature => AuthError::Expired,
        Fault::InvalidIssuer => AuthError::InvalidIssuer,
        Fault::InvalidAudience => AuthError::InvalidAudience,
        Fault::Other => AuthError::Malformed,
    }
}

/// The verdict on claims at second `now` for a gateway that expects
/// `issuer` and `audience`: the expiry is judged first and without leeway,
/// then the issuer, then the audience.
pub open spec fn spec_vet(c: ClaimsView, issuer: Seq<char>, audience: Seq<char>, now: u64)
    -> Result<(), AuthError> {
    if c.exp < now {
        Err(AuthError::Expired)
    } else if c.iss != issuer {
        Err(AuthError::InvalidIssuer)
    } else if c.aud != audience {
        Err(AuthError::InvalidAudience)
    } else {
        Ok(())
    }
}

impl AuthError {
    /// The error that stands for a fault of the token crate.
    pub fn of_fault(f: Fault) -> (e: AuthError)
        ensures
            e == spec_error_of(f),
    {
        match f {
            Fault::InvalidSignature => AuthError::InvalidSignature,
            Fault::ExpiredSignature => AuthError::Expired,
            Fault::InvalidIssuer => AuthError::InvalidIssuer,
            Fault::InvalidAudience => AuthError::InvalidAudience,
            Fault::Other => AuthError::Malformed,
        }
    }
}

impl ClaimFields {
    /// Every claim is there in its type.
    pub open spec fn complete(&self) -> bool {
        self@.complete()
    }

    /// The claims that complete fields hold.
    pub open spec fn claims(&self) -> ClaimsView
        recommends
            self.complete(),
    {
        self@.claims()
    }

    /// What `payload` holds under the seven names of the claims.
    pub fn read(payload: &serde_json::Value) -> (f: ClaimFields)
        ensures
            f@ == fields_held(jwt::payload_members(*payload)),
    {
        ClaimFields {
            sub: jwt::field(payload, "sub"),
            exp: jwt::field(payload, "exp"),
            role: jwt::field(payload, "role"),
            iss: jwt::field(payload, "iss"),
            aud: jwt::field(payload, "aud"),
            iat: jwt::field(payload, "iat"),
            nbf: jwt::field(payload, "nbf"),
        }
    }
}

/// The verdict on a payload's fields at second `now`: incomplete fields are
/// malformed, complete ones are vetted as claims.
pub open spec fn spec_accept(
    f: ClaimFieldsView,
    issuer: Seq<char>,
    audience: Seq<char>,
    now: u64,
) -> Result<ClaimsView, AuthError> {
    if !f.complete() {
        Err(AuthError::Malformed)
    } else {
        match spec_vet(f.claims(), issuer, audience, now) {
            Ok(_) => Ok(f.claims()),
            Err(e) => Err(e),
        }
    }
}

/// `r` is the executable form of the verdict `v`.
pub open spec fn verdict_is(r: Result<Claims, AuthError>, v: Result<ClaimsView, AuthError>)
    -> bool {
    match (r, v) {
        (Ok(c), Ok(cv)) => c@ == cv,
        (Err(e), Err(ev)) => e == ev,
        _ => false,
    }
}

impl Claims {
    /// The claims issued to `sub` at `now` for the time `ttl`: they expire
    /// in the second in which `now + ttl` falls, give the role of a fresh
    /// token, and name no issuer and no audience.
    pub fn issue(sub: &str, now: &Moment, ttl: &Span) -> (c: Claims)
        ensures
            c@ == spec_issue(sub@, *now, *ttl),
            c.sub@ == sub@,
            c.exp == now.spec_expiry(*ttl),
            c.role@ == issued_role(),
            c.iss@ == Seq::<char>::empty(),
            c.aud@ == Seq::<char>::empty(),
            c.iat == 0,
            c.nbf is None,
    {
        Claims {
            sub: sub.to_string(),
            exp: now.expiry(ttl),
            role: Role::default().as_str().to_string(),
            iss: String::new(),
            aud: String::new(),
            iat: 0,
            nbf: None,
        }
    }

    /// The claims issued to `sub` now for the time `ttl`: they expire in the
    /// second in which the moment that the clock shows, with `ttl` added,
    /// falls. The clock's error where it shows a time before the epoch.
    pub fn new(sub: &str, ttl: Duration) -> (r: Result<Claims, SystemTimeError>)
        ensures
            r matches Ok(c) ==> {
                &&& c.sub@ == sub@
                &&& c.role@ == issued_role()
                &&& c.iss@ == Seq::<char>::empty()
                &&& c.aud@ == Seq::<char>::empty()
                &&& c.iat == 0
                &&& c.nbf is None
            },
            r matches Ok(c) ==> exists|now: Moment|
                now.wf() && c@ == #[trigger] spec_issue(sub@, now, span_of(ttl)),
    {
        match Moment::now() {
            Ok(now) => {
                let span = Span::from_duration(&ttl);
                let claims = Claims::issue(sub, &now, &span);
                assert(claims@ == spec_issue(sub@, now, span_of(ttl)));
                Ok(claims)
            },
            Err(e) => Err(e),
        }
    }

    /// The token that carries these claims, signed with the secret of
    /// `jwt_conf`.
    pub fn to_str(&self, jwt_conf: &ConfJwt) -> (r: Result<String, AuthError>)
        ensures
            r matches Ok(token) ==> jwt::signed_token(
                self.sub@,
                self.exp,
                self.role@,
                self.iss@,
                self.aud@,
                self.iat,
                self.nbf,
                jwt_conf.secret@,
            ) == Some(token@),
            r is Err ==> jwt::signed_token(
                self.sub@,
                self.exp,
                self.role@,
                self.iss@,
                self.aud@,
                self.iat,
                self.nbf,
                jwt_conf.secret@,
            ) is None,
            r matches Ok(token) ==> jwt::signed_with(token@, jwt_conf.secret@) && carried_claims(
                token@,
            ) == Some(self@),
            r matches Err(e) ==> e == AuthError::Malformed,
    {
        proof {
            lemma_claim_members_held(self@);
        }
        match jwt::encode(self, jwt_conf) {
            Ok(token) => Ok(token),
            Err(_) => Err(AuthError::Malformed),
        }
    }

    /// The claims that complete fields hold; `Malformed` where a claim is
    /// missing or of another type.
    pub fn parse(fields: ClaimFields) -> (r: Result<Claims, AuthError>)
        ensures
            fields.complete() ==> r is Ok && r->Ok_0@ == fields.claims(),
            !fields.complete() ==> r == Err::<Claims, AuthError>(AuthError::Malformed),
    {
        let ClaimFields { sub, exp, role, iss, aud, iat, nbf } = fields;
        let nbf: Option<u64> = match nbf {
            Field::Unsigned(n) => Some(n),
            Field::Absent => None,
            Field::Null => None,
            _ => { return Err(AuthError::Malformed); },
        };
        match (sub, exp, role, iss, aud, iat) {
            (
                Field::Text(sub),
                Field::Unsigned(exp),
                Field::Text(role),
                Field::Text(iss),
                Field::Text(aud),
                Field::Unsigned(iat),
            ) => Ok(Claims { sub, exp, role, iss, aud, iat, nbf }),
            _ => Err(AuthError::Malformed),
        }
    }

    /// Whether these claims hold at second `now` for the gateway that
    /// `jwt_conf` describes.
    pub fn vet(&self, jwt_conf: &ConfJwt, now: u64) -> (r: Result<(), AuthError>)
        ensures
            r == spec_vet(self@, jwt_conf.issuer@, jwt_conf.audience@, now),
    {
        if self.exp < now {
            Err(AuthError::Expired)
        } else if self.iss != jwt_conf.issuer {
            Err(AuthError::InvalidIssuer)
        } else if self.aud != jwt_conf.audience {
            Err(AuthError::InvalidAudience)
        } else {
            Ok(())
        }
    }

    /// The claims in a payload's fields, if they are complete and hold at
    /// second `now`.
    pub fn accept(fields: ClaimFields, jwt_conf: &ConfJwt, now: u64) -> (r: Result<
        Claims,
        AuthError,
    >)
        ensures
            verdict_is(r, spec_accept(fields@, jwt_conf.issuer@, jwt_conf.audience@, now)),
    {
        match Claims::parse(fields) {
            Err(e) => Err(e),
            Ok(claims) => match claims.vet(jwt_conf, now) {
                Ok(_) => Ok(claims),
                Err(e) => Err(e),
            },
        }
    }

    /// What is decided once the token crate has judged a token: its fault
    /// stands as the error; a payload it accepted is vetted at the second
    /// the clock shows, and counts as expired where the clock shows none.
    pub fn settle(
        judged: Result<ClaimFields, Fault>,
        clock: Option<Moment>,
        jwt_conf: &ConfJwt,
    ) -> (r: Result<Claims, AuthError>)
        ensures
            verdict_is(r, spec_settle(judged, clock, jwt_conf.issuer@, jwt_conf.audience@)),
    {
        match judged {
            Err(f) => Err(AuthError::of_fault(f)),
            Ok(fields) => match clock {
                None => Err(AuthError::Expired),
                Some(now) => Claims::accept(fields, jwt_conf, now.secs),
            },
        }
    }

    /// The claims of a token that the token crate accepts under `jwt_conf`
    /// and that hold now; the error says why the token carries no trust.
    /// Claims that are accepted are those that the token carries, the token
    /// is signed with the secret, and the claims name the issuer and the
    /// audience expected. The clock is read first: where it shows a time
    /// before the epoch, no token holds, and the token crate is not asked.
    pub fn from_str(token: &str, jwt_conf: &ConfJwt) -> (r: Result<Claims, AuthError>)
        ensures
            r matches Ok(c) ==> {
                &&& jwt::signed_with(token@, jwt_conf.secret@)
                &&& carried_claims(token@) == Some(c@)
                &&& c.iss@ == jwt_conf.issuer@
                &&& c.aud@ == jwt_conf.audience@
            },
    {
        let now: Moment = match Moment::now() {
            Ok(now) => now,
            Err(_) => {
                return Err(AuthError::Expired);
            },
        };
        let judged: Result<ClaimFields, Fault> = match jwt::decode(token, jwt_conf) {
            Ok(payload) => Ok(ClaimFields::read(&payload)),
            Err(f) => Err(f),
        };
        Claims::settle(judged, Some(now), jwt_conf)
    }
}

/// The claims issued to `sub` at `now` for the time `ttl`.
pub open spec fn spec_issue(sub: Seq<char>, now: Moment, ttl: Span) -> ClaimsView {
    ClaimsView {
        sub,
        exp: now.spec_expiry(ttl) as u64,
        role: issued_role(),
        iss: Seq::empty(),
        aud: Seq::empty(),
        iat: 0,
        nbf: None,
    }
}

/// The verdict once the token crate has judged a token.
pub open spec fn spec_settle(
    judged: Result<ClaimFields, Fault>,
    clock: Option<Moment>,
    issuer: Seq<char>,
    audience: Seq<char>,
) -> Result<ClaimsView, AuthError> {
    match judged {
        Err(f) => Err(spec_error_of(f)),
        Ok(fields) => match clock {
            None => Err(AuthError::Expired),
            Some(now) => spec_accept(fields@, issuer, audience, now.secs),
        },
    }
}

/// Expiry is judged without leeway: of claims that name the issuer and the
/// audience expected, those whose last second is `now` or later hold, and
/// those whose last second lies before `now` are expired, be it by a
/// single second.
pub proof fn lemma_expiry_without_leeway(
    c: ClaimsView,
    issuer: Seq<char>,
    audience: Seq<char>,
    now: u64,
)
    requires
        c.iss == issuer,
        c.aud == audience,
    ensures
        c.exp >= now ==> spec_vet(c, issuer, audience, now) == Ok::<(), AuthError>(()),
        c.exp < now ==> spec_vet(c, issuer, audience, now) == Err::<(), AuthError>(
            AuthError::Expired,
        ),
{
}

/// Claims that name another issuer or another audience than the one
/// expected are turned down at every time, expired or not.
pub proof fn lemma_foreign_claims_never_hold(
    c: ClaimsView,
    issuer: Seq<char>,
    audience: Seq<char>,
    now: u64,
)
    requires
        c.iss != issuer || c.aud != audience,
    ensures
        spec_vet(c, issuer, audience, now) is Err,
{
}

/// What the view of a payload's fields holds.
pub struct ClaimFieldsView {
    pub sub: FieldView,
    pub exp: FieldView,
    pub role: FieldView,
    pub iss: FieldView,
    pub aud: FieldView,
    pub iat: FieldView,
    pub nbf: FieldView,
}

impl View for ClaimFields {
    type V = ClaimFieldsView;

    open spec fn view(&self) -> ClaimFieldsView {
        ClaimFieldsView {
            sub: self.sub@,
            exp: self.exp@,
            role: self.role@,
            iss: self.iss@,
            aud: self.aud@,
            iat: self.iat@,
            nbf: self.nbf@,
        }
    }
}

impl ClaimFieldsView {
    /// Every claim is there in its type: six are required, `nbf` may be
    /// absent or `null`.
    pub open spec fn complete(&self) -> bool {
        &&& self.sub is Text
        &&& self.exp is Unsigned
        &&& self.role is Text
        &&& self.iss is Text
        &&& self.aud is Text
        &&& self.iat is Unsigned
        &&& (self.nbf is Unsigned || self.nbf is Absent || self.nbf is Null)
    }

    /// The claims that complete fields hold.
    pub open spec fn claims(&self) -> ClaimsView
        recommends
            self.complete(),
    {
        ClaimsView {
            sub: self.sub->Text_0,
            exp: self.exp->Unsigned_0,
            role: self.role->Text_0,
            iss: self.iss->Text_0,
            aud: self.aud->Text_0,
            iat: self.iat->Unsigned_0,
            nbf: if self.nbf is Unsigned {
                Some(self.nbf->Unsigned_0)
            } else {
                None
            },
        }
    }
}

/// What a payload with these members holds under the seven names of the
/// claims.
pub open spec fn fields_held(members: Map<Seq<char>, FieldView>) -> ClaimFieldsView {
    ClaimFieldsView {
        sub: jwt::held(members, "sub"@),
        exp: jwt::held(members, "exp"@),
        role: jwt::held(members, "role"@),
        iss: jwt::held(members, "iss"@),
        aud: jwt::held(members, "aud"@),
        iat: jwt::held(members, "iat"@),
        nbf: jwt::held(members, "nbf"@),
    }
}

/// The claims that a token carries: those that the members of its middle
/// part hold, if they are complete.
pub open spec fn carried_claims(token: Seq<char>) -> Option<ClaimsView> {
    match jwt::carried_members(token) {
        Some(members) => if fields_held(members).complete() {
            Some(fields_held(members).claims())
        } else {
            None
        },
        None => None,
    }
}

/// The members under which claims are written hold each claim under its
/// own name: no name stands for two.
pub proof fn lemma_claim_members_held(c: ClaimsView)
    ensures
        fields_held(jwt::claim_members(c)) == (ClaimFieldsView {
            sub: FieldView::Text(c.sub),
            exp: FieldView::Unsigned(c.exp),
            role: FieldView::Text(c.role),
            iss: FieldView::Text(c.iss),
            aud: FieldView::Text(c.aud),
            iat: FieldView::Unsigned(c.iat),
            nbf: match c.nbf {
                Some(n) => FieldView::Unsigned(n),
                None => FieldView::Null,
            },
        }),
        fields_held(jwt::claim_members(c)).complete(),
        fields_held(jwt::claim_members(c)).claims() == c,
{
    reveal_strlit("sub");
    reveal_strlit("exp");
    reveal_strlit("role");
    reveal_strlit("iss");
    reveal_strlit("aud");
    reveal_strlit("iat");
    reveal_strlit("nbf");
    assert("sub"@[0] == 's' && "exp"@[0] == 'e' && "role"@[0] == 'r' && "iss"@[0] == 'i'
        && "aud"@[0] == 'a' && "iat"@[0] == 'i' && "nbf"@[0] == 'n');
    assert("iss"@[1] == 's' && "iat"@[1] == 'a');
}

/// Claims come back as they were written: the members under which claims
/// are written into a payload hold the same claims. So claims that have
/// not expired and that name the issuer and the audience expected are
/// accepted from their own payload, unchanged.
pub proof fn lemma_round_trip(c: ClaimsView, issuer: Seq<char>, audience: Seq<char>, now: u64)
    ensures
        fields_held(jwt::claim_members(c)).complete(),
        fields_held(jwt::claim_members(c)).claims() == c,
        c.exp >= now && c.iss == issuer && c.aud == audience ==> spec_accept(
            fields_held(jwt::claim_members(c)),
            issuer,
            audience,
            now,
        ) == Ok::<ClaimsView, AuthError>(c),
{
    lemma_claim_members_held(c);
}

/// A token yields the claims that were written into it: where the claims
/// that a token carries are those that `to_str` wrote, the claims that
/// `from_str` accepts from it are the same, whatever the settings and the
/// time.
pub proof fn lemma_token_yields_its_claims(
    token: Seq<char>,
    written: ClaimsView,
    accepted: ClaimsView,
)
    requires
        carried_claims(token) == Some(written),
        carried_claims(token) == Some(accepted),
    ensures
        accepted == written,
{
}

} // verus!
