//! The gates of the pipeline: the role gate, the rate gate and the budget
//! gate. Each is a decision on plain values.

use crate::data::HitOutcome;
use crate::text::same_text;
use crate::time::{lemma_nanos_order, Span};
use vstd::prelude::*;

verus! {

/// What a caller may do, as the token says.
#[derive(Clone, Copy, Debug, PartialEq, Eq, Structural)]
pub enum Role {
    Hacker,
    Admin,
    /// Any role that the gateway does not know: it opens no route.
    Other,
}

/// The routes of the gateway.
#[derive(Clone, Copy, Debug, PartialEq, Eq, Structural)]
pub enum Route {
    Health,
    Ping,
    Stats,
    TotalStats,
    /// A request that is forwarded.
    Api,
}

/// A set of roles.
#[derive(Clone, Copy, Debug, PartialEq, Eq, Structural)]
pub struct RoleSet {
    pub hacker: bool,
    pub admin: bool,
    pub other: bool,
}

/// Why a caller with a valid token is turned away.
#[derive(Clone, Copy, Debug, PartialEq, Eq, Structural)]
pub enum AdmissionError {
    TooSoon,
    OverBudget,
    ForbiddenRole,
}

/// The role that a text names.
pub open spec fn spec_role(s: Seq<char>) -> Role {
    if s == "HACKER"@ {
        Role::Hacker
    } else if s == "ADMIN"@ {
        Role::Admin
    } else {
        Role::Other
    }
}

/// The roles that a route is open to: the liveness route to all, the
/// report on every caller to administrators, the others to the two roles
/// that the gateway knows.
pub open spec fn spec_roles(route: Route) -> RoleSet {
    match route {
        Route::Health => RoleSet { hacker: true, admin: true, other: true },
        Route::TotalStats => RoleSet { hacker: false, admin: true, other: false },
        _ => RoleSet { hacker: true, admin: true, other: false },
    }
}

/// Whether a request that follows the one before after `elapsed` keeps the
/// interval `min`: a first request does, a later one if at least `min` has
/// passed.
pub open spec fn spec_keeps_interval(elapsed: Option<Span>, min: Span) -> bool {
    match elapsed {
        None => true,
        Some(e) => e.spec_at_least(min),
    }
}

impl Default for Role {
    /// The role of a caller to whom a token is issued.
    fn default() -> (r: Role)
        ensures
            r == Role::Hacker,
    {
        Role::Hacker
    }
}

impl Role {
    /// The role that a text names.
    pub fn parse(s: &str) -> (r: Role)
        ensures
            r == spec_role(s@),
    {
        if same_text(s, "HACKER") {
            Role::Hacker
        } else if same_text(s, "ADMIN") {
            Role::Admin
        } else {
            Role::Other
        }
    }

    /// The text that names this role; a role that the gateway does not know
    /// has no name of its own.
    pub fn as_str(&self) -> (s: &'static str)
        ensures
            *self != Role::Other ==> spec_role(s@) == *self,
            s@ == match *self {
                Role::Hacker => "HACKER"@,
                Role::Admin => "ADMIN"@,
                Role::Other => "OTHER"@,
            },
    {
        proof {
            reveal_strlit("HACKER");
            reveal_strlit("ADMIN");
            assert("HACKER"@.len() != "ADMIN"@.len());
        }
        match self {
            Role::Hacker => "HACKER",
            Role::Admin => "ADMIN",
            Role::Other => "OTHER",
        }
    }
}

impl RoleSet {
    /// Whether `role` is in the set.
    pub open spec fn spec_contains(&self, role: Role) -> bool {
        match role {
            Role::Hacker => self.hacker,
            Role::Admin => self.admin,
            Role::Other => self.other,
        }
    }

    /// Whether `role` is in the set.
    pub fn contains(&self, role: Role) -> (r: bool)
        ensures
            r == self.spec_contains(role),
    {
        match role {
            Role::Hacker => self.hacker,
            Role::Admin => self.admin,
            Role::Other => self.other,
        }
    }
}

impl Route {
    /// The roles that this route is open to.
    pub fn roles(&self) -> (set: RoleSet)
        ensures
            set == spec_roles(*self),
    {
        match self {
            Route::Health => RoleSet { hacker: true, admin: true, other: true },
            Route::TotalStats => RoleSet { hacker: false, admin: true, other: false },
            _ => RoleSet { hacker: true, admin: true, other: false },
        }
    }
}

/// The role gate: a caller passes if the route is open to the caller's
/// role.
pub fn role_gate(route: Route, role: Role) -> (r: Result<(), AdmissionError>)
    ensures
        r == if spec_roles(route).spec_contains(role) {
            Ok::<(), AdmissionError>(())
        } else {
            Err::<(), AdmissionError>(AdmissionError::ForbiddenRole)
        },
{
    if route.roles().contains(role) {
        Ok(())
    } else {
        Err(AdmissionError::ForbiddenRole)
    }
}

/// The rate gate: a request passes if it keeps the interval `min` to the
/// one before. The ledger counts every request first, also one that is
/// turned away here.
pub fn rate_gate(hit: &HitOutcome, min: &Span) -> (r: Result<(), AdmissionError>)
    ensures
        r == if spec_keeps_interval(hit.elapsed, *min) {
            Ok::<(), AdmissionError>(())
        } else {
            Err::<(), AdmissionError>(AdmissionError::TooSoon)
        },
{
    let keeps: bool = match &hit.elapsed {
        None => true,
        Some(e) => e.at_least(min),
    };
    if keeps {
        Ok(())
    } else {
        Err(AdmissionError::TooSoon)
    }
}

/// The budget gate: a request passes if the ledger has found that its
/// tokens fit into what is left of the day's allowance.
pub fn budget_gate(fits: bool) -> (r: Result<(), AdmissionError>)
    ensures
        r == if fits {
            Ok::<(), AdmissionError>(())
        } else {
            Err::<(), AdmissionError>(AdmissionError::OverBudget)
        },
{
    if fits {
        Ok(())
    } else {
        Err(AdmissionError::OverBudget)
    }
}

/// The rate gate goes by the time that has passed: between spans whose
/// fractions are below one second, a request keeps the interval exactly
/// when at least as many nanoseconds have passed as the interval has.
pub proof fn lemma_interval_in_nanos(elapsed: Span, min: Span)
    requires
        elapsed.wf(),
        min.wf(),
    ensures
        spec_keeps_interval(Some(elapsed), min) == (elapsed.as_nanos() >= min.as_nanos()),
{
    lemma_nanos_order(elapsed.secs, elapsed.nanos, min.secs, min.nanos);
}

} // verus!
