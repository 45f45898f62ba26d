//! The guard every request passes: it sorts the request by its path, takes
//! the bearer credential out of the authorization header, and, once the
//! credential has been verified, checks the claim's roles against the path.
//! Whatever fails, the answer is the same bare rejection.

use vstd::prelude::*;
use crate::text::opt_text;
use vstd::string::*;
use crate::models::UserJwtInfo;
use crate::models::UserJwtInfoView;
use crate::text::contains_text;
use crate::text::starts_with;
use crate::text::strip_prefix;

verus! {

/// How the guard answers a request.
#[derive(Debug, Clone, Copy, PartialEq, Eq, Structural)]
pub enum Verdict {
    /// Hand the request to the next handler and pass its response through.
    Admit,
    /// Answer with an empty Unauthorized response; the handler never runs.
    Reject,
}

/// The guard's move on a request that has just come in.
#[derive(Debug, Clone)]
pub enum GateStep {
    /// Verify this credential's signature and expiry, then come back with
    /// the claim it carries.
    Verify(String),
    Done(Verdict),
}

pub enum GateStepView {
    Verify(Seq<char>),
    Done(Verdict),
}

impl View for GateStep {
    type V = GateStepView;

    open spec fn view(&self) -> GateStepView {
        match self {
            GateStep::Verify(c) => GateStepView::Verify(c@),
            GateStep::Done(v) => GateStepView::Done(*v),
        }
    }
}

/// Whether the path lies under the authentication routes.
pub open spec fn auth_path(path: Seq<char>) -> bool {
    "/api/auth"@.is_prefix_of(path)
}

/// Whether the path is reserved for administrators.
pub open spec fn admin_path(path: Seq<char>) -> bool {
    "/api/admin"@.is_prefix_of(path) || "/admin"@.is_prefix_of(path)
}

/// The credential an authorization header carries: what follows the legacy
/// `Token ` prefix or the standard `Bearer ` prefix.
pub open spec fn credential_of(header: Seq<char>) -> Option<Seq<char>> {
    if "Token "@.is_prefix_of(header) {
        Some(header.skip("Token "@.len() as int))
    } else if "Bearer "@.is_prefix_of(header) {
        Some(header.skip("Bearer "@.len() as int))
    } else {
        None
    }
}

/// The guard's move on a request with this path and authorization header.
pub open spec fn gate_entry(path: Seq<char>, authorization: Option<Seq<char>>) -> GateStepView {
    if auth_path(path) {
        GateStepView::Done(Verdict::Reject)
    } else {
        match authorization {
            Some(header) => match credential_of(header) {
                Some(credential) => GateStepView::Verify(credential),
                None => GateStepView::Done(Verdict::Reject),
            },
            None => GateStepView::Done(Verdict::Reject),
        }
    }
}

/// The guard's answer once verification has said what the credential claims
/// (nothing, where it is invalid or expired).
pub open spec fn gate_verdict(path: Seq<char>, claim: Option<UserJwtInfoView>) -> Verdict {
    match claim {
        Some(c) => if admin_path(path) && !c.roles.contains("admin"@) {
            Verdict::Reject
        } else {
            Verdict::Admit
        },
        None => Verdict::Reject,
    }
}

/// Takes the bearer credential out of an authorization header.
pub fn extract_credential(header: &str) -> (r: Option<String>)
    ensures
        opt_text(r) == credential_of(header@),
{
    match strip_prefix(header, "Token ") {
        Some(rest) => Some(rest),
        None => strip_prefix(header, "Bearer "),
    }
}

/// Makes the guard for a service.
#[derive(Debug, Clone, Copy)]
pub struct ApiUserAuth;

/// The guard in front of `service`.
pub struct ApiUserAuthMiddleware<S> {
    pub service: S,
}

impl ApiUserAuth {
    /// The guard in front of `service`.
    pub fn new_transform<S>(&self, service: S) -> (r: ApiUserAuthMiddleware<S>)
        ensures
            r.service == service,
    {
        ApiUserAuthMiddleware { service }
    }
}

impl<S> ApiUserAuthMiddleware<S> {
    /// Sorts an incoming request: rejects it outright, or names the
    /// credential that has to be verified before `decide` can answer.
    pub fn call(&self, path: &str, authorization: Option<&str>) -> (r: GateStep)
        ensures
            r@ == gate_entry(
                path@,
                match authorization {
                    Some(h) => Some(h@),
                    None => None,
                },
            ),
    {
        if starts_with(path, "/api/auth") {
            return GateStep::Done(Verdict::Reject);
        }
        match authorization {
            Some(header) => match extract_credential(header) {
                Some(credential) => GateStep::Verify(credential),
                None => GateStep::Done(Verdict::Reject),
            },
            None => GateStep::Done(Verdict::Reject),
        }
    }

    /// Answers a request whose credential has been verified: `claim` is what
    /// the credential carries, or nothing where it is invalid or expired.
    pub fn decide(&self, path: &str, claim: Option<&UserJwtInfo>) -> (r: Verdict)
        ensures
            r == gate_verdict(
                path@,
                match claim {
                    Some(c) => Some(c@),
                    None => None,
                },
            ),
    {
        match claim {
            Some(c) => {
                let restricted = starts_with(path, "/api/admin") || starts_with(path, "/admin");
                if restricted && !contains_text(&c.roles, "admin") {
                    Verdict::Reject
                } else {
                    Verdict::Admit
                }
            },
            None => Verdict::Reject,
        }
    }
}

/// A request under the authentication routes is rejected whatever its
/// authorization header holds.
pub proof fn lemma_auth_routes_rejected(path: Seq<char>, authorization: Option<Seq<char>>)
    requires
        auth_path(path),
    ensures
        gate_entry(path, authorization) == GateStepView::Done(Verdict::Reject),
{
}

/// Under an administrators' path a verified claim is admitted exactly when
/// its roles include `admin`; elsewhere every verified claim is admitted.
pub proof fn lemma_admin_paths_need_admin(path: Seq<char>, claim: UserJwtInfoView)
    ensures
        admin_path(path) ==> (gate_verdict(path, Some(claim)) == Verdict::Admit
            <==> claim.roles.contains("admin"@)),
        !admin_path(path) ==> gate_verdict(path, Some(claim)) == Verdict::Admit,
{
}

/// Without a verified claim nothing is admitted.
pub proof fn lemma_no_claim_no_entry(path: Seq<char>)
    ensures
        gate_verdict(path, None) == Verdict::Reject,
{
}

} // verus!
