//! Authentication providers and the flow that turns a login or a
//! registration into an account id and its role names.

pub mod federation;
pub mod iaaa;
pub mod lcpu;
pub mod password;

use vstd::prelude::*;
use vstd::string::*;
use crate::auth::iaaa::IaaaAuthProvider;
use crate::auth::lcpu::LcpuAuthProvider;
use crate::auth::password::PasswordAuthProvider;
use crate::auth::iaaa::IAAAValidateResponse;
use crate::auth::iaaa::IAAAValidateResponseView;
use crate::auth::iaaa::IaaaError;
use crate::auth::iaaa::ValidateRequest;
use crate::auth::iaaa::ValidateRequestView;
use crate::auth::password::bcrypt_verify_result;
use crate::auth::password::hash_cost;
use crate::auth::password::hash_password;
use crate::auth::password::verify_hash;
use crate::auth::password::HASH_COST;
use crate::db::DBError;
use crate::db::DBErrorView;
use crate::db::StoreQuery;
use crate::db::StoreQueryView;
use crate::db::StoreReply;
use crate::db::StoreReplyView;
use crate::models::views;
use crate::models::LoginProvider;
use crate::models::NewUser;
use crate::models::NewUserView;
use crate::models::Role;
use crate::models::RoleView;
use crate::models::UserRole;
use crate::models::UserRoleView;
use crate::text::join;
use crate::text::opt_text;
use crate::text::texts;

verus! {

/// Why a login or a registration was turned down.
#[derive(Debug, Clone)]
pub enum AuthError {
    Token,
    BadRequest(String),
    Unauthorized(String),
    Forbidden(String),
    Conflict(String),
    InternalServerError(String),
    DatabaseError(DBError),
}

pub enum AuthErrorView {
    Token,
    BadRequest(Seq<char>),
    Unauthorized(Seq<char>),
    Forbidden(Seq<char>),
    Conflict(Seq<char>),
    InternalServerError(Seq<char>),
    DatabaseError(DBErrorView),
}

impl View for AuthError {
    type V = AuthErrorView;

    open spec fn view(&self) -> AuthErrorView {
        match self {
            AuthError::Token => AuthErrorView::Token,
            AuthError::BadRequest(m) => AuthErrorView::BadRequest(m@),
            AuthError::Unauthorized(m) => AuthErrorView::Unauthorized(m@),
            AuthError::Forbidden(m) => AuthErrorView::Forbidden(m@),
            AuthError::Conflict(m) => AuthErrorView::Conflict(m@),
            AuthError::InternalServerError(m) => AuthErrorView::InternalServerError(m@),
            AuthError::DatabaseError(e) => AuthErrorView::DatabaseError(e@),
        }
    }
}

impl AuthErrorView {
    /// The text shown for the error: its class, then the detail.
    pub open spec fn message(self) -> Seq<char> {
        match self {
            AuthErrorView::Token => "Token is required"@,
            AuthErrorView::BadRequest(m) => "Bad request: "@ + m,
            AuthErrorView::Unauthorized(m) => "Unauthorized: "@ + m,
            AuthErrorView::Forbidden(m) => "Forbidden: "@ + m,
            AuthErrorView::Conflict(m) => "Conflict: "@ + m,
            AuthErrorView::InternalServerError(m) => "Internal server error: "@ + m,
            AuthErrorView::DatabaseError(e) => "Database error: "@ + e.message(),
        }
    }
}

impl AuthError {
    /// The text shown for the error.
    pub fn message(&self) -> (r: String)
        ensures
            r@ == self@.message(),
    {
        match self {
            AuthError::Token => "Token is required".to_owned(),
            AuthError::BadRequest(m) => join("Bad request: ", m.as_str()),
            AuthError::Unauthorized(m) => join("Unauthorized: ", m.as_str()),
            AuthError::Forbidden(m) => join("Forbidden: ", m.as_str()),
            AuthError::Conflict(m) => join("Conflict: ", m.as_str()),
            AuthError::InternalServerError(m) => join("Internal server error: ", m.as_str()),
            AuthError::DatabaseError(e) => {
                let inner = e.message();
                join("Database error: ", inner.as_str())
            },
        }
    }
}

pub type AuthResult<T> = Result<T, AuthError>;

/// What a client sent to log in or to register, already taken apart.
#[derive(Debug, Clone)]
pub enum Payload {
    /// Nothing a provider understands.
    Invalid,
    /// A username and a password.
    Password { username: String, password: String },
    /// A token that an external validator issued.
    Token(String),
}

pub enum PayloadView {
    Invalid,
    Password { username: Seq<char>, password: Seq<char> },
    Token(Seq<char>),
}

impl View for Payload {
    type V = PayloadView;

    open spec fn view(&self) -> PayloadView {
        match self {
            Payload::Invalid => PayloadView::Invalid,
            Payload::Password { username, password } => PayloadView::Password {
                username: username@,
                password: password@,
            },
            Payload::Token(t) => PayloadView::Token(t@),
        }
    }
}

/// One way of signing in. A provider only decides: it names the first
/// request of a login or registration, and the flow it starts does the rest.
pub trait BaseAuthProvider {
    /// Whether a second factor is required.
    spec fn mfa(&self) -> bool;

    /// The name clients select the provider by.
    spec fn name_text(&self) -> Seq<char>;

    /// The first move of a login.
    spec fn login_spec(&self, payload: PayloadView, ip_address: Option<Seq<char>>) -> AuthStepView;

    /// The first move of a registration.
    spec fn register_spec(&self, payload: PayloadView) -> AuthStepView;

    fn enable_mfa(&self) -> (r: bool)
        ensures
            r == self.mfa(),
    ;

    fn name(&self) -> (r: &str)
        ensures
            r@ == self.name_text(),
    ;

    fn login(&self, payload: Payload, ip_address: Option<String>) -> (r: AuthStep)
        ensures
            r@ == self.login_spec(payload@, opt_text(ip_address)),
    ;

    fn register(&self, payload: Payload) -> (r: AuthStep)
        ensures
            r@ == self.register_spec(payload@),
    ;
}

/// Where a login or registration stands while it waits for the outside world.
#[derive(Debug, Clone)]
pub enum AuthFlow {
    /// The validator was asked about a token.
    Validating { provider: LoginProvider },
    /// The store was asked for the account of an external identity.
    FindingIdentity { identity: String, name: String, provider: LoginProvider },
    /// The store was asked to create the account of an external identity.
    CreatingIdentity { identity: String },
    /// Creation failed; the store was asked once more for the account.
    RetryingIdentity,
    /// The store was asked for the default role.
    FindingMemberRole { user_id: String },
    /// The store was asked to create the default role.
    CreatingMemberRole { user_id: String },
    /// The store was asked to give the new account the default role.
    AssigningMember { user_id: String },
    /// The store was asked for the role links of a known account.
    LoadingUserRoles { user_id: String },
    /// The store was asked for the roles behind those links.
    LoadingRoles { user_id: String },
    /// The store was asked for the account that tries to log in by password.
    FindingAccount { password: String },
    /// The store was asked whether the username to register is taken.
    CheckingUnused { username: String, password: String },
    /// The store was asked to create the registered account.
    CreatingAccount,
}

pub enum AuthFlowView {
    Validating { provider: LoginProvider },
    FindingIdentity { identity: Seq<char>, name: Seq<char>, provider: LoginProvider },
    CreatingIdentity { identity: Seq<char> },
    RetryingIdentity,
    FindingMemberRole { user_id: Seq<char> },
    CreatingMemberRole { user_id: Seq<char> },
    AssigningMember { user_id: Seq<char> },
    LoadingUserRoles { user_id: Seq<char> },
    LoadingRoles { user_id: Seq<char> },
    FindingAccount { password: Seq<char> },
    CheckingUnused { username: Seq<char>, password: Seq<char> },
    CreatingAccount,
}

impl View for AuthFlow {
    type V = AuthFlowView;

    open spec fn view(&self) -> AuthFlowView {
        match self {
            AuthFlow::Validating { provider } => AuthFlowView::Validating { provider: *provider },
            AuthFlow::FindingIdentity { identity, name, provider } => AuthFlowView::FindingIdentity {
                identity: identity@,
                name: name@,
                provider: *provider,
            },
            AuthFlow::CreatingIdentity { identity } => AuthFlowView::CreatingIdentity {
                identity: identity@,
            },
            AuthFlow::RetryingIdentity => AuthFlowView::RetryingIdentity,
            AuthFlow::FindingMemberRole { user_id } => AuthFlowView::FindingMemberRole {
                user_id: user_id@,
            },
            AuthFlow::CreatingMemberRole { user_id } => AuthFlowView::CreatingMemberRole {
                user_id: user_id@,
            },
            AuthFlow::AssigningMember { user_id } => AuthFlowView::AssigningMember {
                user_id: user_id@,
            },
            AuthFlow::LoadingUserRoles { user_id } => AuthFlowView::LoadingUserRoles {
                user_id: user_id@,
            },
            AuthFlow::LoadingRoles { user_id } => AuthFlowView::LoadingRoles { user_id: user_id@ },
            AuthFlow::FindingAccount { password } => AuthFlowView::FindingAccount {
                password: password@,
            },
            AuthFlow::CheckingUnused { username, password } => AuthFlowView::CheckingUnused {
                username: username@,
                password: password@,
            },
            AuthFlow::CreatingAccount => AuthFlowView::CreatingAccount,
        }
    }
}

/// What the outside world answered.
#[derive(Debug)]
pub enum AuthEvent {
    /// The store's reply to the last query.
    Store(StoreReply),
    /// The validator's answer, or why there is none.
    Validation(Result<IAAAValidateResponse, IaaaError>),
}

pub enum AuthEventView {
    Store(StoreReplyView),
    Validation(Option<IAAAValidateResponseView>),
}

impl View for AuthEvent {
    type V = AuthEventView;

    open spec fn view(&self) -> AuthEventView {
        match self {
            AuthEvent::Store(r) => AuthEventView::Store(r@),
            AuthEvent::Validation(Ok(resp)) => AuthEventView::Validation(Some(resp@)),
            AuthEvent::Validation(Err(_)) => AuthEventView::Validation(None),
        }
    }
}

/// What the flow wants done next.
#[derive(Debug, Clone)]
pub enum AuthAction {
    /// Run this query against the store.
    Store(StoreQuery),
    /// Send this request to the validator.
    Validate(ValidateRequest),
}

pub enum AuthActionView {
    Store(StoreQueryView),
    Validate(ValidateRequestView),
}

impl View for AuthAction {
    type V = AuthActionView;

    open spec fn view(&self) -> AuthActionView {
        match self {
            AuthAction::Store(q) => AuthActionView::Store(q@),
            AuthAction::Validate(r) => AuthActionView::Validate(r@),
        }
    }
}

/// One move of a flow: either something to ask, with the state to come back
/// to, or the end.
#[derive(Debug)]
pub enum AuthStep {
    Ask(AuthFlow, AuthAction),
    Done(Result<(String, Vec<String>), AuthError>),
}

pub enum AuthStepView {
    Ask(AuthFlowView, AuthActionView),
    Done(Result<(Seq<char>, Seq<Seq<char>>), AuthErrorView>),
}

impl View for AuthStep {
    type V = AuthStepView;

    open spec fn view(&self) -> AuthStepView {
        match self {
            AuthStep::Ask(s, a) => AuthStepView::Ask(s@, a@),
            AuthStep::Done(Ok((id, roles))) => AuthStepView::Done(Ok((id@, texts(roles@)))),
            AuthStep::Done(Err(e)) => AuthStepView::Done(Err(e@)),
        }
    }
}

/// What is to become of the transaction that holds a flow's store queries.
/// The transaction opens before the flow's first query and holds every
/// query of the flow.
#[derive(Debug, Clone, Copy, PartialEq, Eq, Structural)]
pub enum Settle {
    /// Make what the flow wrote lasting.
    Commit,
    /// Undo whatever the flow wrote.
    RollBack,
}

/// How a move settles the transaction: a flow that ends well commits, a
/// flow that fails rolls back, and a flow that goes on leaves it open.
pub open spec fn settle_spec(step: AuthStepView) -> Option<Settle> {
    match step {
        AuthStepView::Done(Ok(_)) => Some(Settle::Commit),
        AuthStepView::Done(Err(_)) => Some(Settle::RollBack),
        AuthStepView::Ask(_, _) => None,
    }
}

impl AuthStep {
    /// What the caller is to do with the transaction at this move.
    pub fn settle(&self) -> (r: Option<Settle>)
        ensures
            r == settle_spec(self@),
    {
        match self {
            AuthStep::Done(Ok(_)) => Some(Settle::Commit),
            AuthStep::Done(Err(_)) => Some(Settle::RollBack),
            AuthStep::Ask(_, _) => None,
        }
    }
}

/// The outcome of the password hashing a move called for, if it called for any.
#[derive(Debug, Clone)]
pub enum PasswordWork {
    NotNeeded,
    /// Whether the offered password matches the stored hash.
    Checked(bool),
    /// The fresh hash of a new password, or nothing where hashing failed.
    Hashed(Option<String>),
}

pub enum PasswordWorkView {
    NotNeeded,
    Checked(bool),
    Hashed(Option<Seq<char>>),
}

impl View for PasswordWork {
    type V = PasswordWorkView;

    open spec fn view(&self) -> PasswordWorkView {
        match self {
            PasswordWork::NotNeeded => PasswordWorkView::NotNeeded,
            PasswordWork::Checked(b) => PasswordWorkView::Checked(*b),
            PasswordWork::Hashed(h) => PasswordWorkView::Hashed(opt_text(*h)),
        }
    }
}

/// The name of the role every account holds.
pub open spec fn member() -> Seq<char> {
    "member"@
}

pub open spec fn ask_store(next: AuthFlowView, query: StoreQueryView) -> AuthStepView {
    AuthStepView::Ask(next, AuthActionView::Store(query))
}

pub open spec fn unauthorized(detail: Seq<char>) -> AuthStepView {
    AuthStepView::Done(Err(AuthErrorView::Unauthorized(detail)))
}

pub open spec fn internal(detail: Seq<char>) -> AuthStepView {
    AuthStepView::Done(Err(AuthErrorView::InternalServerError(detail)))
}

pub open spec fn bad_request(detail: Seq<char>) -> AuthStepView {
    AuthStepView::Done(Err(AuthErrorView::BadRequest(detail)))
}

/// The one answer to a failed password login, whatever went wrong.
pub open spec fn denied() -> AuthStepView {
    unauthorized("Invalid username or password"@)
}

/// Look up the account behind an external identity.
pub open spec fn find_identity(identity: Seq<char>, name: Seq<char>, provider: LoginProvider) -> AuthStepView {
    ask_store(
        AuthFlowView::FindingIdentity { identity, name, provider },
        StoreQueryView::FindUserByUsername(identity),
    )
}

/// Load the roles of a known account.
pub open spec fn load_user_roles(user_id: Seq<char>) -> AuthStepView {
    ask_store(
        AuthFlowView::LoadingUserRoles { user_id },
        StoreQueryView::FindUserRolesByUser(user_id),
    )
}

/// Start giving a new account the default role.
pub open spec fn find_member_role(user_id: Seq<char>) -> AuthStepView {
    ask_store(AuthFlowView::FindingMemberRole { user_id }, StoreQueryView::FindRoleByName(member()))
}

pub open spec fn assign_member(user_id: Seq<char>, role_id: Seq<char>) -> AuthStepView {
    ask_store(
        AuthFlowView::AssigningMember { user_id },
        StoreQueryView::CreateUserRole { user_id, role_id },
    )
}

/// The role ids that a list of links names, in order.
pub open spec fn link_role_ids(links: Seq<UserRoleView>) -> Seq<Seq<char>> {
    Seq::new(links.len(), |i: int| links[i].role_id)
}

/// The names of a list of roles, in order.
pub open spec fn role_names(roles: Seq<RoleView>) -> Seq<Seq<char>> {
    Seq::new(roles.len(), |i: int| roles[i].name)
}

/// The move a flow makes from `state` on `event`, where `work` is the
/// outcome of the password hashing the move called for.
pub open spec fn step_spec(state: AuthFlowView, event: AuthEventView, work: PasswordWorkView) -> AuthStepView {
    match state {
        AuthFlowView::Validating { provider } => match event {
            AuthEventView::Validation(Some(resp)) => if resp.success {
                find_identity(resp.identity_id, resp.name, provider)
            } else {
                unauthorized("Fail to authorize"@)
            },
            _ => unauthorized("Fail to validate"@),
        },
        AuthFlowView::FindingIdentity { identity, name, provider } => match event {
            AuthEventView::Store(StoreReplyView::User(u)) => load_user_roles(u.id),
            _ => ask_store(
                AuthFlowView::CreatingIdentity { identity },
                StoreQueryView::CreateUser(
                    NewUserView {
                        username: identity,
                        login_provider: provider,
                        name: Some(name),
                        password: None,
                    },
                ),
            ),
        },
        AuthFlowView::CreatingIdentity { identity } => match event {
            AuthEventView::Store(StoreReplyView::User(u)) => find_member_role(u.id),
            _ => ask_store(
                AuthFlowView::RetryingIdentity,
                StoreQueryView::FindUserByUsername(identity),
            ),
        },
        AuthFlowView::RetryingIdentity => match event {
            AuthEventView::Store(StoreReplyView::User(u)) => load_user_roles(u.id),
            _ => internal("Failed to create user"@),
        },
        AuthFlowView::FindingMemberRole { user_id } => match event {
            AuthEventView::Store(StoreReplyView::Role(r)) => assign_member(user_id, r.id),
            _ => ask_store(
                AuthFlowView::CreatingMemberRole { user_id },
                StoreQueryView::CreateRole(member()),
            ),
        },
        AuthFlowView::CreatingMemberRole { user_id } => match event {
            AuthEventView::Store(StoreReplyView::Role(r)) => assign_member(user_id, r.id),
            _ => internal("Failed to create role"@),
        },
        AuthFlowView::AssigningMember { user_id } => match event {
            AuthEventView::Store(StoreReplyView::UserRole(_)) => AuthStepView::Done(
                Ok((user_id, seq![member()])),
            ),
            _ => internal("Failed to create user role"@),
        },
        AuthFlowView::LoadingUserRoles { user_id } => match event {
            AuthEventView::Store(StoreReplyView::UserRoles(links)) => ask_store(
                AuthFlowView::LoadingRoles { user_id },
                StoreQueryView::FindRolesByIds(link_role_ids(links)),
            ),
            _ => denied(),
        },
        AuthFlowView::LoadingRoles { user_id } => match event {
            AuthEventView::Store(StoreReplyView::Roles(roles)) => AuthStepView::Done(
                Ok((user_id, role_names(roles))),
            ),
            _ => denied(),
        },
        AuthFlowView::FindingAccount { password } => match event {
            AuthEventView::Store(StoreReplyView::User(u)) => if u.password is Some
                && work == PasswordWorkView::Checked(true) {
                load_user_roles(u.id)
            } else {
                denied()
            },
            _ => denied(),
        },
        AuthFlowView::CheckingUnused { username, password } => match event {
            AuthEventView::Store(StoreReplyView::User(_)) => AuthStepView::Done(
                Err(AuthErrorView::Conflict("User already exists"@)),
            ),
            _ => match work {
                PasswordWorkView::Hashed(Some(h)) => ask_store(
                    AuthFlowView::CreatingAccount,
                    StoreQueryView::CreateUser(
                        NewUserView {
                            username,
                            login_provider: LoginProvider::PASSWORD,
                            name: None,
                            password: Some(h),
                        },
                    ),
                ),
                _ => unauthorized("bcrypt error"@),
            },
        },
        AuthFlowView::CreatingAccount => match event {
            AuthEventView::Store(StoreReplyView::User(u)) => find_member_role(u.id),
            _ => internal("Failed to create user"@),
        },
    }
}

/// What a move hands to the hash function to have a new password hashed:
/// the password that is being registered and the fixed cost factor, where a
/// registration learns that its username is free, and nothing otherwise.
pub open spec fn hash_request(state: AuthFlowView, event: AuthEventView) -> Option<(Seq<char>, u32)> {
    match state {
        AuthFlowView::CheckingUnused { username, password } => match event {
            AuthEventView::Store(StoreReplyView::User(_)) => None,
            _ => Some((password, 10u32)),
        },
        _ => None,
    }
}

/// Whether `work` is what the password hash says for the move from `state`
/// on `event`: the verdict on the stored hash where a password login found
/// its account, some outcome of hashing what `hash_request` names where a
/// registration found the username free (a hash that comes back verifies
/// for that password and carries that cost), and nothing otherwise.
pub open spec fn work_fits(state: AuthFlowView, event: AuthEventView, work: PasswordWorkView) -> bool {
    match state {
        AuthFlowView::FindingAccount { password } => match event {
            AuthEventView::Store(StoreReplyView::User(u)) => match u.password {
                Some(h) => work == PasswordWorkView::Checked(
                    bcrypt_verify_result(password, h) == Some(true),
                ),
                None => work == PasswordWorkView::NotNeeded,
            },
            _ => work == PasswordWorkView::NotNeeded,
        },
        AuthFlowView::CheckingUnused { .. } => match hash_request(state, event) {
            Some((password, cost)) => match work {
                PasswordWorkView::Hashed(Some(h)) => bcrypt_verify_result(password, h) == Some(true)
                    && hash_cost(h) == Some(cost as int),
                PasswordWorkView::Hashed(None) => true,
                _ => false,
            },
            None => work == PasswordWorkView::NotNeeded,
        },
        _ => work == PasswordWorkView::NotNeeded,
    }
}

fn ask(next: AuthFlow, query: StoreQuery) -> (r: AuthStep)
    ensures
        r@ == ask_store(next@, query@),
{
    AuthStep::Ask(next, AuthAction::Store(query))
}

fn refuse(detail: &str) -> (r: AuthStep)
    ensures
        r@ == unauthorized(detail@),
{
    AuthStep::Done(Err(AuthError::Unauthorized(detail.to_owned())))
}

fn broken(detail: &str) -> (r: AuthStep)
    ensures
        r@ == internal(detail@),
{
    AuthStep::Done(Err(AuthError::InternalServerError(detail.to_owned())))
}

fn deny() -> (r: AuthStep)
    ensures
        r@ == denied(),
{
    refuse("Invalid username or password")
}

fn load_roles_of(user_id: String) -> (r: AuthStep)
    ensures
        r@ == load_user_roles(user_id@),
{
    let query = StoreQuery::FindUserRolesByUser(user_id.clone());
    ask(AuthFlow::LoadingUserRoles { user_id }, query)
}

fn find_member_for(user_id: String) -> (r: AuthStep)
    ensures
        r@ == find_member_role(user_id@),
{
    ask(AuthFlow::FindingMemberRole { user_id }, StoreQuery::FindRoleByName("member".to_owned()))
}

fn assign_member_to(user_id: String, role_id: String) -> (r: AuthStep)
    ensures
        r@ == assign_member(user_id@, role_id@),
{
    let query = StoreQuery::CreateUserRole { user_id: user_id.clone(), role_id };
    ask(AuthFlow::AssigningMember { user_id }, query)
}

/// The role ids that the links name, in order.
pub fn role_ids_of(links: &Vec<UserRole>) -> (r: Vec<String>)
    ensures
        texts(r@) == link_role_ids(views(links@)),
{
    let mut out: Vec<String> = Vec::new();
    let mut i: usize = 0;
    while i < links.len()
        invariant
            i <= links@.len(),
            out@.len() == i,
            forall|j: int| 0 <= j < i ==> out@[j]@ == links@[j].role_id@,
        decreases links@.len() - i,
    {
        out.push(links[i].role_id.clone());
        i += 1;
    }
    assert(texts(out@) =~= link_role_ids(views(links@)));
    out
}

/// The names of the roles, in order.
pub fn role_names_of(roles: &Vec<Role>) -> (r: Vec<String>)
    ensures
        texts(r@) == role_names(views(roles@)),
{
    let mut out: Vec<String> = Vec::new();
    let mut i: usize = 0;
    while i < roles.len()
        invariant
            i <= roles@.len(),
            out@.len() == i,
            forall|j: int| 0 <= j < i ==> out@[j]@ == roles@[j].name@,
        decreases roles@.len() - i,
    {
        out.push(roles[i].name.clone());
        i += 1;
    }
    assert(texts(out@) =~= role_names(views(roles@)));
    out
}

/// Begins resolving the identity that a validator vouched for to a local
/// account: asks the store for the account that goes by the identity's id.
pub fn get_result_from_resp(resp: IAAAValidateResponse, provider: LoginProvider) -> (r: AuthStep)
    ensures
        r@ == find_identity(resp@.identity_id, resp@.name, provider),
{
    AuthFlow::federate(resp.user_info.identity_id, resp.user_info.name, provider)
}

impl AuthFlow {
    /// Begins federating an external identity: asks the store for its account.
    pub fn federate(identity: String, name: String, provider: LoginProvider) -> (r: AuthStep)
        ensures
            r@ == find_identity(identity@, name@, provider),
    {
        let query = StoreQuery::FindUserByUsername(identity.clone());
        ask(AuthFlow::FindingIdentity { identity, name, provider }, query)
    }

    /// The move from this state on `event`, given the outcome of the
    /// password hashing that the move called for.
    pub fn step_with(self, event: AuthEvent, work: PasswordWork) -> (r: AuthStep)
        ensures
            r@ == step_spec(self@, event@, work@),
    {
        match self {
            AuthFlow::Validating { provider } => match event {
                AuthEvent::Validation(Ok(resp)) => {
                    if resp.is_success() {
                        get_result_from_resp(resp, provider)
                    } else {
                        refuse("Fail to authorize")
                    }
                },
                _ => refuse("Fail to validate"),
            },
            AuthFlow::FindingIdentity { identity, name, provider } => match event {
                AuthEvent::Store(StoreReply::User(u)) => load_roles_of(u.id),
                _ => {
                    let user = NewUser {
                        username: identity.clone(),
                        login_provider: provider,
                        name: Some(name),
                        password: None,
                    };
                    ask(AuthFlow::CreatingIdentity { identity }, StoreQuery::CreateUser(user))
                },
            },
            AuthFlow::CreatingIdentity { identity } => match event {
                AuthEvent::Store(StoreReply::User(u)) => find_member_for(u.id),
                _ => ask(AuthFlow::RetryingIdentity, StoreQuery::FindUserByUsername(identity)),
            },
            AuthFlow::RetryingIdentity => match event {
                AuthEvent::Store(StoreReply::User(u)) => load_roles_of(u.id),
                _ => broken("Failed to create user"),
            },
            AuthFlow::FindingMemberRole { user_id } => match event {
                AuthEvent::Store(StoreReply::Role(role)) => assign_member_to(user_id, role.id),
                _ => {
                    let query = StoreQuery::CreateRole("member".to_owned());
                    ask(AuthFlow::CreatingMemberRole { user_id }, query)
                },
            },
            AuthFlow::CreatingMemberRole { user_id } => match event {
                AuthEvent::Store(StoreReply::Role(role)) => assign_member_to(user_id, role.id),
                _ => broken("Failed to create role"),
            },
            AuthFlow::AssigningMember { user_id } => match event {
                AuthEvent::Store(StoreReply::UserRole(_)) => {
                    let mut roles: Vec<String> = Vec::new();
                    roles.push("member".to_owned());
                    assert(texts(roles@) =~= seq![member()]);
                    AuthStep::Done(Ok((user_id, roles)))
                },
                _ => broken("Failed to create user role"),
            },
            AuthFlow::LoadingUserRoles { user_id } => match event {
                AuthEvent::Store(StoreReply::UserRoles(links)) => {
                    let ids = role_ids_of(&links);
                    ask(AuthFlow::LoadingRoles { user_id }, StoreQuery::FindRolesByIds(ids))
                },
                _ => deny(),
            },
            AuthFlow::LoadingRoles { user_id } => match event {
                AuthEvent::Store(StoreReply::Roles(roles)) => {
                    let names = role_names_of(&roles);
                    AuthStep::Done(Ok((user_id, names)))
                },
                _ => deny(),
            },
            AuthFlow::FindingAccount { password } => match event {
                AuthEvent::Store(StoreReply::User(u)) => {
                    let matched = match work {
                        PasswordWork::Checked(true) => true,
                        _ => false,
                    };
                    if u.password.is_some() && matched {
                        load_roles_of(u.id)
                    } else {
                        deny()
                    }
                },
                _ => deny(),
            },
            AuthFlow::CheckingUnused { username, password } => match event {
                AuthEvent::Store(StoreReply::User(_)) => AuthStep::Done(
                    Err(AuthError::Conflict("User already exists".to_owned())),
                ),
                _ => match work {
                    PasswordWork::Hashed(Some(h)) => {
                        let user = NewUser {
                            username,
                            login_provider: LoginProvider::PASSWORD,
                            name: None,
                            password: Some(h),
                        };
                        ask(AuthFlow::CreatingAccount, StoreQuery::CreateUser(user))
                    },
                    _ => refuse("bcrypt error"),
                },
            },
            AuthFlow::CreatingAccount => match event {
                AuthEvent::Store(StoreReply::User(u)) => find_member_for(u.id),
                _ => broken("Failed to create user"),
            },
        }
    }

    /// What the move from this state on `event` hands to the hash function
    /// to have a new password hashed, if it hashes one.
    pub fn hashing_asked<'a>(&'a self, event: &AuthEvent) -> (r: Option<(&'a str, u32)>)
        ensures
            (match r {
                Some((p, c)) => Some((p@, c)),
                None => None,
            }) == hash_request(self@, event@),
    {
        match self {
            AuthFlow::CheckingUnused { username, password } => match event {
                AuthEvent::Store(StoreReply::User(_)) => None,
                _ => Some((password.as_str(), HASH_COST)),
            },
            _ => None,
        }
    }

    /// The password hashing that the move from this state on `event` calls
    /// for, carried out.
    pub fn password_work(&self, event: &AuthEvent) -> (work: PasswordWork)
        ensures
            work_fits(self@, event@, work@),
    {
        match self {
            AuthFlow::FindingAccount { password } => match event {
                AuthEvent::Store(StoreReply::User(u)) => match &u.password {
                    Some(h) => {
                        let matched = match verify_hash(password.as_str(), h.as_str()) {
                            Ok(b) => b,
                            Err(_) => false,
                        };
                        PasswordWork::Checked(matched)
                    },
                    None => PasswordWork::NotNeeded,
                },
                _ => PasswordWork::NotNeeded,
            },
            AuthFlow::CheckingUnused { .. } => match self.hashing_asked(event) {
                Some((password, cost)) => match hash_password(password, cost) {
                    Ok(h) => PasswordWork::Hashed(Some(h)),
                    Err(_) => PasswordWork::Hashed(None),
                },
                None => PasswordWork::NotNeeded,
            },
            _ => PasswordWork::NotNeeded,
        }
    }

    /// The move from this state on `event`. Where the move hashes a
    /// password, the result is the one `step_with` gives for what the hash
    /// function said.
    pub fn step(self, event: AuthEvent) -> (r: AuthStep)
        ensures
            exists|work: PasswordWorkView|
                work_fits(self@, event@, work) && r@ == step_spec(self@, event@, work),
    {
        let work = self.password_work(&event);
        self.step_with(event, work)
    }
}

/// Any of the providers, so that a list can hold them side by side.
#[derive(Debug, Clone)]
pub enum AuthProvider {
    Password(PasswordAuthProvider),
    Iaaa(IaaaAuthProvider),
    Lcpu(LcpuAuthProvider),
}

impl BaseAuthProvider for AuthProvider {
    open spec fn mfa(&self) -> bool {
        match self {
            AuthProvider::Password(p) => p.mfa(),
            AuthProvider::Iaaa(p) => p.mfa(),
            AuthProvider::Lcpu(p) => p.mfa(),
        }
    }

    open spec fn name_text(&self) -> Seq<char> {
        match self {
            AuthProvider::Password(p) => p.name_text(),
            AuthProvider::Iaaa(p) => p.name_text(),
            AuthProvider::Lcpu(p) => p.name_text(),
        }
    }

    open spec fn login_spec(&self, payload: PayloadView, ip_address: Option<Seq<char>>) -> AuthStepView {
        match self {
            AuthProvider::Password(p) => p.login_spec(payload, ip_address),
            AuthProvider::Iaaa(p) => p.login_spec(payload, ip_address),
            AuthProvider::Lcpu(p) => p.login_spec(payload, ip_address),
        }
    }

    open spec fn register_spec(&self, payload: PayloadView) -> AuthStepView {
        match self {
            AuthProvider::Password(p) => p.register_spec(payload),
            AuthProvider::Iaaa(p) => p.register_spec(payload),
            AuthProvider::Lcpu(p) => p.register_spec(payload),
        }
    }

    fn enable_mfa(&self) -> (r: bool) {
        match self {
            AuthProvider::Password(p) => p.enable_mfa(),
            AuthProvider::Iaaa(p) => p.enable_mfa(),
            AuthProvider::Lcpu(p) => p.enable_mfa(),
        }
    }

    fn name(&self) -> (r: &str) {
        match self {
            AuthProvider::Password(p) => p.name(),
            AuthProvider::Iaaa(p) => p.name(),
            AuthProvider::Lcpu(p) => p.name(),
        }
    }

    fn login(&self, payload: Payload, ip_address: Option<String>) -> (r: AuthStep) {
        match self {
            AuthProvider::Password(p) => p.login(payload, ip_address),
            AuthProvider::Iaaa(p) => p.login(payload, ip_address),
            AuthProvider::Lcpu(p) => p.login(payload, ip_address),
        }
    }

    fn register(&self, payload: Payload) -> (r: AuthStep) {
        match self {
            AuthProvider::Password(p) => p.register(payload),
            AuthProvider::Iaaa(p) => p.register(payload),
            AuthProvider::Lcpu(p) => p.register(payload),
        }
    }
}

} // verus!
