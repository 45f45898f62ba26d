//! Cloud providers: the requests a provider makes of the cache and of the
//! cloud's identity service, and the replies it understands.

pub mod openstack;

use vstd::prelude::*;
use crate::cache::CacheError;
use crate::cache::CacheErrorView;
use crate::models::views;
use crate::models::CloudCreateInfo;
use crate::models::CloudCreateInfoView;
use crate::text::join;
use crate::text::opt_text;

verus! {

/// Why a cloud operation failed.
#[derive(Debug, Clone)]
pub enum CloudError {
    /// The request could not be sent, or its result could not be cached.
    SendRequest(String),
    /// The reply lacks what was asked for.
    NotFound(String),
    /// The cloud turned the request down.
    Provider(String),
}

pub enum CloudErrorView {
    SendRequest(Seq<char>),
    NotFound(Seq<char>),
    Provider(Seq<char>),
}

impl View for CloudError {
    type V = CloudErrorView;

    open spec fn view(&self) -> CloudErrorView {
        match self {
            CloudError::SendRequest(m) => CloudErrorView::SendRequest(m@),
            CloudError::NotFound(m) => CloudErrorView::NotFound(m@),
            CloudError::Provider(m) => CloudErrorView::Provider(m@),
        }
    }
}

impl CloudErrorView {
    /// The text shown for the error.
    pub open spec fn message(self) -> Seq<char> {
        match self {
            CloudErrorView::SendRequest(m) => "Sending request: "@ + m,
            CloudErrorView::NotFound(m) => "NotFound: "@ + m,
            CloudErrorView::Provider(m) => "Provider: "@ + m,
        }
    }
}

impl CloudError {
    /// The text shown for the error.
    pub fn message(&self) -> (r: String)
        ensures
            r@ == self@.message(),
    {
        match self {
            CloudError::SendRequest(m) => join("Sending request: ", m.as_str()),
            CloudError::NotFound(m) => join("NotFound: ", m.as_str()),
            CloudError::Provider(m) => join("Provider: ", m.as_str()),
        }
    }
}

#[derive(Debug, Clone, Copy, PartialEq, Eq, Structural)]
pub enum HttpMethod {
    Get,
    Post,
    Put,
    Delete,
}

/// What a request carries as its JSON body.
#[derive(Debug, Clone)]
pub enum HttpBody {
    Empty,
    /// Password authentication of `name` in the default domain.
    Login { name: String, password: String },
    /// A project named `name` in the default domain.
    Project { name: String },
    /// A user with a password and, where one was made, a default project.
    NewUser { name: String, password: String, default_project_id: Option<String> },
}

pub enum HttpBodyView {
    Empty,
    Login { name: Seq<char>, password: Seq<char> },
    Project { name: Seq<char> },
    NewUser { name: Seq<char>, password: Seq<char>, default_project_id: Option<Seq<char>> },
}

impl View for HttpBody {
    type V = HttpBodyView;

    open spec fn view(&self) -> HttpBodyView {
        match self {
            HttpBody::Empty => HttpBodyView::Empty,
            HttpBody::Login { name, password } => HttpBodyView::Login {
                name: name@,
                password: password@,
            },
            HttpBody::Project { name } => HttpBodyView::Project { name: name@ },
            HttpBody::NewUser { name, password, default_project_id } => HttpBodyView::NewUser {
                name: name@,
                password: password@,
                default_project_id: opt_text(*default_project_id),
            },
        }
    }
}

/// How the reply to a request is to be read.
#[derive(Debug, Clone, Copy, PartialEq, Eq, Structural)]
pub enum Expect {
    /// A token in a header and its expiry in the body.
    Token,
    /// A list of domains.
    Domains,
    /// A list of roles.
    Roles,
    /// The id of the object that was made.
    ObjectId,
    /// Only the status.
    Nothing,
}

/// One request to the cloud's identity service.
#[derive(Debug, Clone)]
pub struct HttpRequest {
    pub method: HttpMethod,
    pub url: String,
    /// The token to present, where the request needs one.
    pub auth_token: Option<String>,
    pub body: HttpBody,
    pub expect: Expect,
}

pub struct HttpRequestView {
    pub method: HttpMethod,
    pub url: Seq<char>,
    pub auth_token: Option<Seq<char>>,
    pub body: HttpBodyView,
    pub expect: Expect,
}

impl View for HttpRequest {
    type V = HttpRequestView;

    open spec fn view(&self) -> HttpRequestView {
        HttpRequestView {
            method: self.method,
            url: self.url@,
            auth_token: opt_text(self.auth_token),
            body: self.body@,
            expect: self.expect,
        }
    }
}

/// An entry of a listing: an id and the name it goes by.
#[derive(Debug, Clone)]
pub struct NamedId {
    pub id: String,
    pub name: String,
}

pub struct NamedIdView {
    pub id: Seq<char>,
    pub name: Seq<char>,
}

impl View for NamedId {
    type V = NamedIdView;

    open spec fn view(&self) -> NamedIdView {
        NamedIdView { id: self.id@, name: self.name@ }
    }
}

/// The body of a reply, read as the request asked.
#[derive(Debug, Clone)]
pub enum ReplyBody {
    /// Nothing was read, or reading failed.
    Unreadable,
    Token { expires_at: Option<String> },
    Listing(Vec<NamedId>),
    ObjectId(Option<String>),
}

pub enum ReplyBodyView {
    Unreadable,
    Token { expires_at: Option<Seq<char>> },
    Listing(Seq<NamedIdView>),
    ObjectId(Option<Seq<char>>),
}

impl View for ReplyBody {
    type V = ReplyBodyView;

    open spec fn view(&self) -> ReplyBodyView {
        match self {
            ReplyBody::Unreadable => ReplyBodyView::Unreadable,
            ReplyBody::Token { expires_at } => ReplyBodyView::Token {
                expires_at: opt_text(*expires_at),
            },
            ReplyBody::Listing(items) => ReplyBodyView::Listing(views(items@)),
            ReplyBody::ObjectId(id) => ReplyBodyView::ObjectId(opt_text(*id)),
        }
    }
}

/// A reply of the identity service.
#[derive(Debug, Clone)]
pub struct HttpReply {
    pub status: u16,
    /// The token the service issued, where it sent one in its header.
    pub subject_token: Option<String>,
    pub body: ReplyBody,
}

pub struct HttpReplyView {
    pub status: u16,
    pub subject_token: Option<Seq<char>>,
    pub body: ReplyBodyView,
}

impl View for HttpReply {
    type V = HttpReplyView;

    open spec fn view(&self) -> HttpReplyView {
        HttpReplyView {
            status: self.status,
            subject_token: opt_text(self.subject_token),
            body: self.body@,
        }
    }
}

/// What the outside world answered.
#[derive(Debug)]
pub enum CloudEvent {
    /// What the cache holds under the key, if anything.
    Cache(Option<String>),
    /// Whether the cache took the value.
    Stored(Result<(), CacheError>),
    /// The service's reply, or, where the request could not be sent or no
    /// reply came, what the transport said.
    Http(Result<HttpReply, String>),
}

pub enum CloudEventView {
    Cache(Option<Seq<char>>),
    Stored(Option<CacheErrorView>),
    Http(Result<HttpReplyView, Seq<char>>),
}

impl View for CloudEvent {
    type V = CloudEventView;

    open spec fn view(&self) -> CloudEventView {
        match self {
            CloudEvent::Cache(v) => CloudEventView::Cache(opt_text(*v)),
            CloudEvent::Stored(Ok(_)) => CloudEventView::Stored(None),
            CloudEvent::Stored(Err(e)) => CloudEventView::Stored(Some(e@)),
            CloudEvent::Http(Ok(r)) => CloudEventView::Http(Ok(r@)),
            CloudEvent::Http(Err(m)) => CloudEventView::Http(Err(m@)),
        }
    }
}

/// What a cloud flow wants done next.
#[derive(Debug, Clone)]
pub enum CloudAction {
    /// Read the key from the cache.
    CacheGet(String),
    /// Keep the value under the key for `ttl` seconds.
    CacheSet { key: String, value: String, ttl: u64 },
    /// Send the request to the identity service.
    Http(HttpRequest),
}

pub enum CloudActionView {
    CacheGet(Seq<char>),
    CacheSet { key: Seq<char>, value: Seq<char>, ttl: int },
    Http(HttpRequestView),
}

impl View for CloudAction {
    type V = CloudActionView;

    open spec fn view(&self) -> CloudActionView {
        match self {
            CloudAction::CacheGet(k) => CloudActionView::CacheGet(k@),
            CloudAction::CacheSet { key, value, ttl } => CloudActionView::CacheSet {
                key: key@,
                value: value@,
                ttl: *ttl as int,
            },
            CloudAction::Http(r) => CloudActionView::Http(r@),
        }
    }
}

/// What a cloud operation is for.
#[derive(Debug, Clone)]
pub enum CloudTask {
    AdminToken,
    UserToken { provider_id: String, provider_pass: String },
    CreateUser { username: String, provider_pass: String },
    DeleteUser { provider_id: String },
    UserExists { provider_id: String },
}

pub enum CloudTaskView {
    AdminToken,
    UserToken { provider_id: Seq<char>, provider_pass: Seq<char> },
    CreateUser { username: Seq<char>, provider_pass: Seq<char> },
    DeleteUser { provider_id: Seq<char> },
    UserExists { provider_id: Seq<char> },
}

impl View for CloudTask {
    type V = CloudTaskView;

    open spec fn view(&self) -> CloudTaskView {
        match self {
            CloudTask::AdminToken => CloudTaskView::AdminToken,
            CloudTask::UserToken { provider_id, provider_pass } => CloudTaskView::UserToken {
                provider_id: provider_id@,
                provider_pass: provider_pass@,
            },
            CloudTask::CreateUser { username, provider_pass } => CloudTaskView::CreateUser {
                username: username@,
                provider_pass: provider_pass@,
            },
            CloudTask::DeleteUser { provider_id } => CloudTaskView::DeleteUser {
                provider_id: provider_id@,
            },
            CloudTask::UserExists { provider_id } => CloudTaskView::UserExists {
                provider_id: provider_id@,
            },
        }
    }
}

/// What a cloud flow is waiting for.
#[derive(Debug, Clone, Copy, PartialEq, Eq, Structural)]
pub enum CloudStage {
    /// The cache was asked for the token.
    TokenLookup,
    /// The service was asked to issue a token.
    TokenFetch,
    /// The cache was asked to keep the token.
    TokenStore,
    /// The service was asked to delete the user.
    Deleting,
    /// The service was asked for the user.
    Probing,
    /// The service was asked to make the project.
    CreatingProject,
    /// The service was asked to make the user.
    CreatingUser,
    /// The cache was asked for the default domain's id.
    DomainLookup,
    /// The service was asked for its domains.
    DomainFetch,
    /// The cache was asked to keep the domain's id.
    DomainStore,
    /// The cache was asked for the member role's id.
    RoleLookup,
    /// The service was asked for its roles.
    RoleFetch,
    /// The cache was asked to keep the role's id.
    RoleStore,
    /// The service was asked to grant the role.
    Granting,
}

/// A cloud operation under way: its purpose, what it waits for, and what it
/// has learned so far (empty until learned).
#[derive(Debug, Clone)]
pub struct CloudFlow {
    pub task: CloudTask,
    pub stage: CloudStage,
    /// The token that authorizes the operation's requests.
    pub token: String,
    /// The id of the user that was made.
    pub user_id: String,
    /// The id of the default domain.
    pub domain_id: String,
    /// The id of the member role.
    pub role_id: String,
}

pub struct CloudFlowView {
    pub task: CloudTaskView,
    pub stage: CloudStage,
    pub token: Seq<char>,
    pub user_id: Seq<char>,
    pub domain_id: Seq<char>,
    pub role_id: Seq<char>,
}

impl View for CloudFlow {
    type V = CloudFlowView;

    open spec fn view(&self) -> CloudFlowView {
        CloudFlowView {
            task: self.task@,
            stage: self.stage,
            token: self.token@,
            user_id: self.user_id@,
            domain_id: self.domain_id@,
            role_id: self.role_id@,
        }
    }
}

/// What a finished cloud operation hands back.
#[derive(Debug, Clone)]
pub enum CloudOutcome {
    Token(String),
    Created(CloudCreateInfo),
    Deleted,
    Exists(bool),
}

pub enum CloudOutcomeView {
    Token(Seq<char>),
    Created(CloudCreateInfoView),
    Deleted,
    Exists(bool),
}

impl View for CloudOutcome {
    type V = CloudOutcomeView;

    open spec fn view(&self) -> CloudOutcomeView {
        match self {
            CloudOutcome::Token(t) => CloudOutcomeView::Token(t@),
            CloudOutcome::Created(c) => CloudOutcomeView::Created(c@),
            CloudOutcome::Deleted => CloudOutcomeView::Deleted,
            CloudOutcome::Exists(b) => CloudOutcomeView::Exists(*b),
        }
    }
}

/// One move of a cloud flow.
#[derive(Debug)]
pub enum CloudStep {
    Ask(CloudFlow, CloudAction),
    Done(Result<CloudOutcome, CloudError>),
}

pub enum CloudStepView {
    Ask(CloudFlowView, CloudActionView),
    Done(Result<CloudOutcomeView, CloudErrorView>),
}

impl View for CloudStep {
    type V = CloudStepView;

    open spec fn view(&self) -> CloudStepView {
        match self {
            CloudStep::Ask(f, a) => CloudStepView::Ask(f@, a@),
            CloudStep::Done(Ok(o)) => CloudStepView::Done(Ok(o@)),
            CloudStep::Done(Err(e)) => CloudStepView::Done(Err(e@)),
        }
    }
}

/// A cloud an account's resources can live in. Every operation begins by
/// asking the cache for the token it works with; the flow that starts there
/// is moved along by the provider that started it.
pub trait BaseCloudProvider {
    /// The name the settings select the provider by.
    spec fn name_text(&self) -> Seq<char>;

    fn name(&self) -> (r: &'static str)
        ensures
            r@ == self.name_text(),
    ;

    /// Begins fetching the administrator's token.
    fn get_admin_token(&self) -> (r: CloudStep)
        ensures
            r@ == crate::clouds::openstack::begin_spec(CloudTaskView::AdminToken),
    ;

    /// Begins creating a cloud user under a password drawn at random.
    fn create_user(&self, username: String) -> (r: CloudStep)
        ensures
            exists|pass: Seq<char>|
                pass.len() > 0 && r@ == crate::clouds::openstack::begin_spec(
                    CloudTaskView::CreateUser { username: username@, provider_pass: pass },
                ),
    ;

    /// Begins deleting a cloud user.
    fn delete_user(&self, provider_id: String) -> (r: CloudStep)
        ensures
            r@ == crate::clouds::openstack::begin_spec(
                CloudTaskView::DeleteUser { provider_id: provider_id@ },
            ),
    ;

    /// Begins asking whether a cloud user exists.
    fn is_user_exist(&self, provider_id: String) -> (r: CloudStep)
        ensures
            r@ == crate::clouds::openstack::begin_spec(
                CloudTaskView::UserExists { provider_id: provider_id@ },
            ),
    ;

    /// Begins fetching a user's own token.
    fn get_user_token(&self, provider_id: String, provider_pass: String) -> (r: CloudStep)
        ensures
            r@ == crate::clouds::openstack::begin_spec(
                CloudTaskView::UserToken {
                    provider_id: provider_id@,
                    provider_pass: provider_pass@,
                },
            ),
    ;
}

} // verus!
