//! The OpenStack provider: short-lived tokens and small reference values of
//! its identity service, fetched once and kept in the shared cache until
//! shortly before they expire.

use vstd::prelude::*;
use crate::text::opt_text;
use vstd::string::*;
use crate::cache::CacheModel;
use crate::clouds::BaseCloudProvider;
use crate::clouds::CloudAction;
use crate::clouds::CloudActionView;
use crate::clouds::CloudError;
use crate::clouds::CloudErrorView;
use crate::clouds::CloudEvent;
use crate::clouds::CloudEventView;
use crate::clouds::CloudFlow;
use crate::clouds::CloudFlowView;
use crate::clouds::CloudOutcome;
use crate::clouds::CloudOutcomeView;
use crate::clouds::CloudStage;
use crate::clouds::CloudStep;
use crate::clouds::CloudStepView;
use crate::clouds::CloudTask;
use crate::clouds::CloudTaskView;
use crate::clouds::Expect;
use crate::clouds::HttpBody;
use crate::clouds::HttpBodyView;
use crate::clouds::HttpMethod;
use crate::clouds::HttpReplyView;
use crate::clouds::HttpRequest;
use crate::clouds::HttpRequestView;
use crate::clouds::NamedId;
use crate::clouds::NamedIdView;
use crate::clouds::ReplyBody;
use crate::clouds::ReplyBodyView;
use crate::models::views;
use crate::models::CloudCreateInfo;
use crate::models::CloudCreateInfoView;
use crate::text::join;
use crate::text::same_text;

verus! {

/// The error type of `chrono`'s parsers, carried through unread.
#[verifier::external_type_specification]
#[verifier::external_body]
pub struct ExParseError(chrono::ParseError);

/// Seconds taken off a token's declared lifetime before it is cached.
pub const SAFETY_MARGIN: i64 = 300;

/// Seconds a reference value stays cached: one day.
pub const REFERENCE_TTL: u64 = 86400;

/// The instant an RFC 3339 date-and-time text names, in seconds since the
/// Unix epoch, or nothing where the text is no such date.
pub uninterp spec fn rfc3339_timestamp(text: Seq<char>) -> Option<int>;

/// Calls `chrono::DateTime::parse_from_rfc3339` and, on the date it gives,
/// `timestamp`. Both depend on the text alone.
#[verifier::external_body]
fn parse_expiry(text: &str) -> (r: Result<i64, chrono::ParseError>)
    ensures
        match r {
            Ok(t) => rfc3339_timestamp(text@) == Some(t as int),
            Err(_) => rfc3339_timestamp(text@) is None,
        },
{
    match chrono::DateTime::parse_from_rfc3339(text) {
        Ok(at) => Ok(at.timestamp()),
        Err(e) => Err(e),
    }
}

/// Calls `uuid::Uuid::new_v4` and prints the random identifier, which is
/// always the 36 characters of the hyphenated form. Nothing else is claimed
/// of the text that comes back.
#[verifier::external_body]
fn fresh_password() -> (r: String)
    ensures
        r@.len() == 36,
{
    uuid::Uuid::new_v4().to_string()
}

/// How long a token may stay cached when it is fetched at `now` and expires
/// at `expires_at`: its remaining life less the safety margin, and nothing
/// where that is not positive.
pub open spec fn ttl_spec(expires_at: int, now: int) -> Option<int> {
    if expires_at - now - 300 > 0 {
        Some(expires_at - now - 300)
    } else {
        None
    }
}

/// The time to live of a token fetched at `now`.
pub fn token_ttl(expires_at: i64, now: i64) -> (r: Option<u64>)
    ensures
        match r {
            Some(t) => ttl_spec(expires_at as int, now as int) == Some(t as int),
            None => ttl_spec(expires_at as int, now as int) is None,
        },
{
    let left: i128 = expires_at as i128 - now as i128 - SAFETY_MARGIN as i128;
    if left > 0 {
        Some(left as u64)
    } else {
        None
    }
}

/// Whether a status reports success.
pub open spec fn status_ok(status: u16) -> bool {
    200 <= status < 300
}

pub open spec fn fail(e: CloudErrorView) -> CloudStepView {
    CloudStepView::Done(Err(e))
}

/// The answer to a request that could not be sent, or to which no reply
/// came: whatever the transport said, it is a failure to send.
pub open spec fn unsent(said: Seq<char>) -> CloudStepView {
    fail(CloudErrorView::SendRequest(said))
}

/// The answer to a reply that the flow did not ask for.
pub open spec fn stray() -> CloudStepView {
    fail(CloudErrorView::SendRequest("unexpected reply"@))
}

pub open spec fn bad_status() -> CloudErrorView {
    CloudErrorView::Provider("unexpected status"@)
}

/// What to cache of a freshly issued token: the token and its time to live.
/// `expiry` is the declared expiry as an instant, or nothing where the reply
/// has none that can be read.
pub open spec fn token_to_cache(
    label: Seq<char>,
    status: u16,
    subject_token: Option<Seq<char>>,
    expiry: Option<int>,
    now: int,
) -> Result<(Seq<char>, int), CloudErrorView> {
    if !status_ok(status) {
        Err(CloudErrorView::SendRequest("unexpected status"@))
    } else {
        match subject_token {
            None => Err(CloudErrorView::NotFound(label)),
            Some(token) => match expiry {
                None => Err(CloudErrorView::NotFound(label)),
                Some(at) => match ttl_spec(at, now) {
                    Some(ttl) => Ok((token, ttl)),
                    None => Err(CloudErrorView::SendRequest("token expires too soon to cache"@)),
                },
            },
        }
    }
}

/// The declared expiry in a reply's body, as an instant.
pub open spec fn expiry_of(body: ReplyBodyView) -> Option<int> {
    match body {
        ReplyBodyView::Token { expires_at: Some(text) } => rfc3339_timestamp(text),
        _ => None,
    }
}

/// The id of the first entry that goes by `name`.
pub open spec fn first_named(items: Seq<NamedIdView>, name: Seq<char>) -> Option<Seq<char>>
    decreases items.len(),
{
    if items.len() == 0 {
        None
    } else if items[0].name == name {
        Some(items[0].id)
    } else {
        first_named(items.drop_first(), name)
    }
}

/// Looks an entry up by name.
pub fn find_named(items: &Vec<NamedId>, name: &str) -> (r: Option<String>)
    ensures
        opt_text(r) == first_named(views(items@), name@),
{
    let mut i: usize = 0;
    assert(views(items@).skip(0) =~= views(items@));
    while i < items.len()
        invariant
            i <= items@.len(),
            first_named(views(items@), name@) == first_named(views(items@).skip(i as int), name@),
        decreases items@.len() - i,
    {
        if same_text(items[i].name.as_str(), name) {
            assert(views(items@).skip(i as int)[0] == items@[i as int]@);
            return Some(items[i].id.clone());
        }
        assert(views(items@).skip(i as int)[0] == items@[i as int]@);
        assert(views(items@).skip(i as int).drop_first() =~= views(items@).skip(i + 1));
        i += 1;
    }
    assert(views(items@).skip(i as int).len() == 0);
    None
}

/// Decides what to cache of a freshly issued token.
pub fn accept_token(
    label: &str,
    status: u16,
    subject_token: Option<String>,
    expiry: Option<i64>,
    now: i64,
) -> (r: Result<(String, u64), CloudError>)
    ensures
        match r {
            Ok((token, ttl)) => Ok((token@, ttl as int)),
            Err(e) => Err(e@),
        } == token_to_cache(
            label@,
            status,
            opt_text(subject_token),
            match expiry {
                Some(at) => Some(at as int),
                None => None,
            },
            now as int,
        ),
{
    if !(200 <= status && status < 300) {
        return Err(CloudError::SendRequest("unexpected status".to_owned()));
    }
    match subject_token {
        None => Err(CloudError::NotFound(label.to_owned())),
        Some(token) => match expiry {
            None => Err(CloudError::NotFound(label.to_owned())),
            Some(at) => match token_ttl(at, now) {
                Some(ttl) => Ok((token, ttl)),
                None => Err(CloudError::SendRequest("token expires too soon to cache".to_owned())),
            },
        },
    }
}

/// The declared expiry in a reply's body, parsed.
pub fn read_expiry(body: &ReplyBody) -> (r: Option<i64>)
    ensures
        match r {
            Some(at) => Some(at as int),
            None => None,
        } == expiry_of(body@),
{
    match body {
        ReplyBody::Token { expires_at: Some(text) } => match parse_expiry(text.as_str()) {
            Ok(at) => Some(at),
            Err(_) => None,
        },
        _ => None,
    }
}

/// The OpenStack identity service at `keystone`, used with the
/// administrator's credentials.
#[derive(Debug, Clone)]
pub struct OpenStackCloudProvider {
    pub keystone: String,
    pub admin_username: String,
    pub admin_password: String,
}

pub struct OpenStackView {
    pub keystone: Seq<char>,
    pub admin_username: Seq<char>,
    pub admin_password: Seq<char>,
}

impl View for OpenStackCloudProvider {
    type V = OpenStackView;

    open spec fn view(&self) -> OpenStackView {
        OpenStackView {
            keystone: self.keystone@,
            admin_username: self.admin_username@,
            admin_password: self.admin_password@,
        }
    }
}

/// The cache key of the token a task works with.
pub open spec fn token_key(task: CloudTaskView) -> Seq<char> {
    match task {
        CloudTaskView::UserToken { provider_id, .. } => "openstack:user-token-"@ + provider_id,
        _ => "openstack:admin-token"@,
    }
}

/// What a missing token is reported as.
pub open spec fn token_label(task: CloudTaskView) -> Seq<char> {
    match task {
        CloudTaskView::UserToken { .. } => "OpenStack user token"@,
        _ => "OpenStack admin token"@,
    }
}

pub open spec fn domain_key() -> Seq<char> {
    "openstack_default_domain_id"@
}

pub open spec fn role_key() -> Seq<char> {
    "openstack_member_role_id"@
}

/// The request that has a token issued for the task.
pub open spec fn token_request(cfg: OpenStackView, task: CloudTaskView) -> HttpRequestView {
    HttpRequestView {
        method: HttpMethod::Post,
        url: cfg.keystone + "/auth/tokens"@,
        auth_token: None,
        body: match task {
            CloudTaskView::UserToken { provider_id, provider_pass } => HttpBodyView::Login {
                name: provider_id,
                password: provider_pass,
            },
            _ => HttpBodyView::Login { name: cfg.admin_username, password: cfg.admin_password },
        },
        expect: Expect::Token,
    }
}

/// A request without a body, authorized by `token`.
pub open spec fn bare_request(method: HttpMethod, url: Seq<char>, token: Seq<char>, expect: Expect) -> HttpRequestView {
    HttpRequestView { method, url, auth_token: Some(token), body: HttpBodyView::Empty, expect }
}

/// The first move of a task: ask the cache for its token.
pub open spec fn begin_spec(task: CloudTaskView) -> CloudStepView {
    CloudStepView::Ask(
        CloudFlowView {
            task,
            stage: CloudStage::TokenLookup,
            token: Seq::empty(),
            user_id: Seq::empty(),
            domain_id: Seq::empty(),
            role_id: Seq::empty(),
        },
        CloudActionView::CacheGet(token_key(task)),
    )
}

/// The move once the task's token is in hand.
pub open spec fn with_token(cfg: OpenStackView, f: CloudFlowView, token: Seq<char>) -> CloudStepView {
    match f.task {
        CloudTaskView::AdminToken => CloudStepView::Done(Ok(CloudOutcomeView::Token(token))),
        CloudTaskView::UserToken { .. } => CloudStepView::Done(Ok(CloudOutcomeView::Token(token))),
        CloudTaskView::DeleteUser { provider_id } => CloudStepView::Ask(
            CloudFlowView { stage: CloudStage::Deleting, token, ..f },
            CloudActionView::Http(
                bare_request(
                    HttpMethod::Delete,
                    cfg.keystone + "/users/"@ + provider_id,
                    token,
                    Expect::Nothing,
                ),
            ),
        ),
        CloudTaskView::UserExists { provider_id } => CloudStepView::Ask(
            CloudFlowView { stage: CloudStage::Probing, token, ..f },
            CloudActionView::Http(
                bare_request(
                    HttpMethod::Get,
                    cfg.keystone + "/users/"@ + provider_id,
                    token,
                    Expect::Nothing,
                ),
            ),
        ),
        CloudTaskView::CreateUser { username, .. } => CloudStepView::Ask(
            CloudFlowView { stage: CloudStage::CreatingProject, token, ..f },
            CloudActionView::Http(
                HttpRequestView {
                    method: HttpMethod::Post,
                    url: cfg.keystone + "/projects"@,
                    auth_token: Some(token),
                    body: HttpBodyView::Project { name: username },
                    expect: Expect::ObjectId,
                },
            ),
        ),
    }
}

/// Ask the cache for the member role's id.
pub open spec fn look_up_role(f: CloudFlowView) -> CloudStepView {
    CloudStepView::Ask(
        CloudFlowView { stage: CloudStage::RoleLookup, ..f },
        CloudActionView::CacheGet(role_key()),
    )
}

/// Grant the new user the member role in the default domain.
pub open spec fn grant(cfg: OpenStackView, f: CloudFlowView) -> CloudStepView {
    CloudStepView::Ask(
        CloudFlowView { stage: CloudStage::Granting, ..f },
        CloudActionView::Http(
            bare_request(
                HttpMethod::Put,
                cfg.keystone + "/domains/"@ + f.domain_id + "/users/"@ + f.user_id + "/roles/"@
                    + f.role_id,
                f.token,
                Expect::Nothing,
            ),
        ),
    )
}

/// Keep a reference value for a day.
pub open spec fn keep(f: CloudFlowView, key: Seq<char>, value: Seq<char>) -> CloudStepView {
    CloudStepView::Ask(f, CloudActionView::CacheSet { key, value, ttl: 86400 })
}

/// The move of a cloud flow from `f` on `event`, which arrived at `now`.
pub open spec fn cloud_step_spec(cfg: OpenStackView, f: CloudFlowView, event: CloudEventView, now: int) -> CloudStepView {
    match f.stage {
        CloudStage::TokenLookup => match event {
            CloudEventView::Cache(Some(token)) => with_token(cfg, f, token),
            _ => CloudStepView::Ask(
                CloudFlowView { stage: CloudStage::TokenFetch, ..f },
                CloudActionView::Http(token_request(cfg, f.task)),
            ),
        },
        CloudStage::TokenFetch => match event {
            CloudEventView::Http(Ok(reply)) => match token_to_cache(
                token_label(f.task),
                reply.status,
                reply.subject_token,
                expiry_of(reply.body),
                now,
            ) {
                Ok((token, ttl)) => CloudStepView::Ask(
                    CloudFlowView { stage: CloudStage::TokenStore, token, ..f },
                    CloudActionView::CacheSet { key: token_key(f.task), value: token, ttl },
                ),
                Err(e) => fail(e),
            },
            CloudEventView::Http(Err(m)) => unsent(m),
            _ => stray(),
        },
        CloudStage::TokenStore => match event {
            CloudEventView::Stored(None) => with_token(cfg, f, f.token),
            CloudEventView::Stored(Some(e)) => fail(CloudErrorView::SendRequest(e.message())),
            _ => stray(),
        },
        CloudStage::Deleting => match event {
            CloudEventView::Http(Ok(reply)) => if status_ok(reply.status) {
                CloudStepView::Done(Ok(CloudOutcomeView::Deleted))
            } else {
                fail(bad_status())
            },
            CloudEventView::Http(Err(m)) => unsent(m),
            _ => stray(),
        },
        CloudStage::Probing => match event {
            CloudEventView::Http(Ok(reply)) => CloudStepView::Done(
                Ok(CloudOutcomeView::Exists(status_ok(reply.status))),
            ),
            CloudEventView::Http(Err(m)) => unsent(m),
            _ => stray(),
        },
        CloudStage::CreatingProject => match (event, f.task) {
            (
                CloudEventView::Http(Ok(reply)),
                CloudTaskView::CreateUser { username, provider_pass },
            ) => if !status_ok(reply.status) {
                fail(bad_status())
            } else {
                match reply.body {
                    ReplyBodyView::ObjectId(project) => CloudStepView::Ask(
                        CloudFlowView { stage: CloudStage::CreatingUser, ..f },
                        CloudActionView::Http(
                            HttpRequestView {
                                method: HttpMethod::Post,
                                url: cfg.keystone + "/users"@,
                                auth_token: Some(f.token),
                                body: HttpBodyView::NewUser {
                                    name: username,
                                    password: provider_pass,
                                    default_project_id: project,
                                },
                                expect: Expect::ObjectId,
                            },
                        ),
                    ),
                    _ => fail(CloudErrorView::SendRequest("unreadable response"@)),
                }
            },
            (CloudEventView::Http(Err(m)), _) => unsent(m),
            _ => stray(),
        },
        CloudStage::CreatingUser => match (event, f.task) {
            (CloudEventView::Http(Ok(reply)), CloudTaskView::CreateUser { username, .. }) => if !status_ok(
                reply.status,
            ) {
                fail(bad_status())
            } else {
                match reply.body {
                    ReplyBodyView::ObjectId(Some(user_id)) => CloudStepView::Ask(
                        CloudFlowView { stage: CloudStage::DomainLookup, user_id, ..f },
                        CloudActionView::CacheGet(domain_key()),
                    ),
                    ReplyBodyView::ObjectId(None) => fail(
                        CloudErrorView::NotFound("Failed to create user "@ + username),
                    ),
                    _ => fail(CloudErrorView::SendRequest("unreadable response"@)),
                }
            },
            (CloudEventView::Http(Err(m)), _) => unsent(m),
            _ => stray(),
        },
        CloudStage::DomainLookup => match event {
            CloudEventView::Cache(Some(domain_id)) => look_up_role(CloudFlowView { domain_id, ..f }),
            _ => CloudStepView::Ask(
                CloudFlowView { stage: CloudStage::DomainFetch, ..f },
                CloudActionView::Http(
                    bare_request(
                        HttpMethod::Get,
                        cfg.keystone + "/domains"@,
                        f.token,
                        Expect::Domains,
                    ),
                ),
            ),
        },
        CloudStage::DomainFetch => match event {
            CloudEventView::Http(Ok(reply)) => match reply.body {
                ReplyBodyView::Listing(items) => match first_named(items, "Default"@) {
                    Some(domain_id) => keep(
                        CloudFlowView { stage: CloudStage::DomainStore, domain_id, ..f },
                        domain_key(),
                        domain_id,
                    ),
                    None => fail(CloudErrorView::NotFound("domain name"@)),
                },
                _ => fail(CloudErrorView::NotFound("domain name"@)),
            },
            CloudEventView::Http(Err(m)) => unsent(m),
            _ => stray(),
        },
        CloudStage::DomainStore => match event {
            CloudEventView::Stored(None) => look_up_role(f),
            CloudEventView::Stored(Some(e)) => fail(CloudErrorView::SendRequest(e.message())),
            _ => stray(),
        },
        CloudStage::RoleLookup => match event {
            CloudEventView::Cache(Some(role_id)) => grant(cfg, CloudFlowView { role_id, ..f }),
            _ => CloudStepView::Ask(
                CloudFlowView { stage: CloudStage::RoleFetch, ..f },
                CloudActionView::Http(
                    bare_request(HttpMethod::Get, cfg.keystone + "/roles"@, f.token, Expect::Roles),
                ),
            ),
        },
        CloudStage::RoleFetch => match event {
            CloudEventView::Http(Ok(reply)) => match reply.body {
                ReplyBodyView::Listing(items) => match first_named(items, "member"@) {
                    Some(role_id) => keep(
                        CloudFlowView { stage: CloudStage::RoleStore, role_id, ..f },
                        role_key(),
                        role_id,
                    ),
                    None => fail(CloudErrorView::NotFound("member role"@)),
                },
                _ => fail(CloudErrorView::NotFound("member role"@)),
            },
            CloudEventView::Http(Err(m)) => unsent(m),
            _ => stray(),
        },
        CloudStage::RoleStore => match event {
            CloudEventView::Stored(None) => grant(cfg, f),
            CloudEventView::Stored(Some(e)) => fail(CloudErrorView::SendRequest(e.message())),
            _ => stray(),
        },
        CloudStage::Granting => match (event, f.task) {
            (
                CloudEventView::Http(Ok(reply)),
                CloudTaskView::CreateUser { username, provider_pass },
            ) => if status_ok(reply.status) {
                CloudStepView::Done(
                    Ok(
                        CloudOutcomeView::Created(
                            CloudCreateInfoView { provider_id: username, provider_pass },
                        ),
                    ),
                )
            } else {
                fail(bad_status())
            },
            (CloudEventView::Http(Err(m)), _) => unsent(m),
            _ => stray(),
        },
    }
}

fn fail_with(e: CloudError) -> (r: CloudStep)
    ensures
        r@ == fail(e@),
{
    CloudStep::Done(Err(e))
}

fn stray_reply() -> (r: CloudStep)
    ensures
        r@ == stray(),
{
    fail_with(CloudError::SendRequest("unexpected reply".to_owned()))
}

fn refused() -> (r: CloudStep)
    ensures
        r@ == fail(bad_status()),
{
    fail_with(CloudError::Provider("unexpected status".to_owned()))
}

fn is_ok(status: u16) -> (r: bool)
    ensures
        r == status_ok(status),
{
    200 <= status && status < 300
}

fn bare(method: HttpMethod, url: String, token: &String, expect: Expect) -> (r: HttpRequest)
    ensures
        r@ == bare_request(method, url@, token@, expect),
{
    HttpRequest { method, url, auth_token: Some(token.clone()), body: HttpBody::Empty, expect }
}

fn key_of(task: &CloudTask) -> (r: String)
    ensures
        r@ == token_key(task@),
{
    match task {
        CloudTask::UserToken { provider_id, .. } => join(
            "openstack:user-token-",
            provider_id.as_str(),
        ),
        _ => "openstack:admin-token".to_owned(),
    }
}

fn label_of(task: &CloudTask) -> (r: &'static str)
    ensures
        r@ == token_label(task@),
{
    match task {
        CloudTask::UserToken { .. } => "OpenStack user token",
        _ => "OpenStack admin token",
    }
}

/// The first move of a task: ask the cache for its token.
pub fn begin(task: CloudTask) -> (r: CloudStep)
    ensures
        r@ == begin_spec(task@),
{
    let key = key_of(&task);
    CloudStep::Ask(
        CloudFlow {
            task,
            stage: CloudStage::TokenLookup,
            token: String::new(),
            user_id: String::new(),
            domain_id: String::new(),
            role_id: String::new(),
        },
        CloudAction::CacheGet(key),
    )
}

impl OpenStackCloudProvider {
    /// The provider for the identity service at `keystone`.
    pub fn new(keystone: String, admin_username: String, admin_password: String) -> (r: Self)
        ensures
            r.keystone == keystone,
            r.admin_username == admin_username,
            r.admin_password == admin_password,
    {
        OpenStackCloudProvider { keystone, admin_username, admin_password }
    }

    fn token_request(&self, task: &CloudTask) -> (r: HttpRequest)
        ensures
            r@ == token_request(self@, task@),
    {
        let body = match task {
            CloudTask::UserToken { provider_id, provider_pass } => HttpBody::Login {
                name: provider_id.clone(),
                password: provider_pass.clone(),
            },
            _ => HttpBody::Login {
                name: self.admin_username.clone(),
                password: self.admin_password.clone(),
            },
        };
        HttpRequest {
            method: HttpMethod::Post,
            url: join(self.keystone.as_str(), "/auth/tokens"),
            auth_token: None,
            body,
            expect: Expect::Token,
        }
    }

    fn with_token(&self, flow: CloudFlow, token: String) -> (r: CloudStep)
        ensures
            r@ == with_token(self@, flow@, token@),
    {
        let mut flow = flow;
        match &flow.task {
            CloudTask::AdminToken => CloudStep::Done(Ok(CloudOutcome::Token(token))),
            CloudTask::UserToken { .. } => CloudStep::Done(Ok(CloudOutcome::Token(token))),
            CloudTask::DeleteUser { provider_id } => {
                let mut url = join(self.keystone.as_str(), "/users/");
                url.append(provider_id.as_str());
                let request = bare(HttpMethod::Delete, url, &token, Expect::Nothing);
                flow.stage = CloudStage::Deleting;
                flow.token = token;
                CloudStep::Ask(flow, CloudAction::Http(request))
            },
            CloudTask::UserExists { provider_id } => {
                let mut url = join(self.keystone.as_str(), "/users/");
                url.append(provider_id.as_str());
                let request = bare(HttpMethod::Get, url, &token, Expect::Nothing);
                flow.stage = CloudStage::Probing;
                flow.token = token;
                CloudStep::Ask(flow, CloudAction::Http(request))
            },
            CloudTask::CreateUser { username, .. } => {
                let request = HttpRequest {
                    method: HttpMethod::Post,
                    url: join(self.keystone.as_str(), "/projects"),
                    auth_token: Some(token.clone()),
                    body: HttpBody::Project { name: username.clone() },
                    expect: Expect::ObjectId,
                };
                flow.stage = CloudStage::CreatingProject;
                flow.token = token;
                CloudStep::Ask(flow, CloudAction::Http(request))
            },
        }
    }

    fn look_up_role(&self, flow: CloudFlow) -> (r: CloudStep)
        ensures
            r@ == look_up_role(flow@),
    {
        let mut flow = flow;
        flow.stage = CloudStage::RoleLookup;
        CloudStep::Ask(flow, CloudAction::CacheGet("openstack_member_role_id".to_owned()))
    }

    fn grant(&self, flow: CloudFlow) -> (r: CloudStep)
        ensures
            r@ == grant(self@, flow@),
    {
        let mut flow = flow;
        let mut url = join(self.keystone.as_str(), "/domains/");
        url.append(flow.domain_id.as_str());
        url.append("/users/");
        url.append(flow.user_id.as_str());
        url.append("/roles/");
        url.append(flow.role_id.as_str());
        let request = bare(HttpMethod::Put, url, &flow.token, Expect::Nothing);
        flow.stage = CloudStage::Granting;
        CloudStep::Ask(flow, CloudAction::Http(request))
    }

    fn keep(&self, flow: CloudFlow, key: &str, value: String) -> (r: CloudStep)
        ensures
            r@ == keep(flow@, key@, value@),
    {
        CloudStep::Ask(
            flow,
            CloudAction::CacheSet { key: key.to_owned(), value, ttl: REFERENCE_TTL },
        )
    }

    /// The move of a flow on `event`, which arrived at the instant `now`
    /// (seconds since the Unix epoch).
    pub fn step(&self, flow: CloudFlow, event: CloudEvent, now: i64) -> (r: CloudStep)
        ensures
            r@ == cloud_step_spec(self@, flow@, event@, now as int),
    {
        let mut flow = flow;
        match flow.stage {
            CloudStage::TokenLookup => match event {
                CloudEvent::Cache(Some(token)) => self.with_token(flow, token),
                _ => {
                    let request = self.token_request(&flow.task);
                    flow.stage = CloudStage::TokenFetch;
                    CloudStep::Ask(flow, CloudAction::Http(request))
                },
            },
            CloudStage::TokenFetch => match event {
                CloudEvent::Http(Ok(reply)) => {
                    let expiry = read_expiry(&reply.body);
                    match accept_token(
                        label_of(&flow.task),
                        reply.status,
                        reply.subject_token,
                        expiry,
                        now,
                    ) {
                        Ok((token, ttl)) => {
                            let action = CloudAction::CacheSet {
                                key: key_of(&flow.task),
                                value: token.clone(),
                                ttl,
                            };
                            flow.stage = CloudStage::TokenStore;
                            flow.token = token;
                            CloudStep::Ask(flow, action)
                        },
                        Err(e) => fail_with(e),
                    }
                },
                CloudEvent::Http(Err(m)) => fail_with(CloudError::SendRequest(m)),
                _ => stray_reply(),
            },
            CloudStage::TokenStore => match event {
                CloudEvent::Stored(Ok(_)) => {
                    let token = flow.token.clone();
                    self.with_token(flow, token)
                },
                CloudEvent::Stored(Err(e)) => fail_with(CloudError::SendRequest(e.message())),
                _ => stray_reply(),
            },
            CloudStage::Deleting => match event {
                CloudEvent::Http(Ok(reply)) => {
                    if is_ok(reply.status) {
                        CloudStep::Done(Ok(CloudOutcome::Deleted))
                    } else {
                        refused()
                    }
                },
                CloudEvent::Http(Err(m)) => fail_with(CloudError::SendRequest(m)),
                _ => stray_reply(),
            },
            CloudStage::Probing => match event {
                CloudEvent::Http(Ok(reply)) => CloudStep::Done(
                    Ok(CloudOutcome::Exists(is_ok(reply.status))),
                ),
                CloudEvent::Http(Err(m)) => fail_with(CloudError::SendRequest(m)),
                _ => stray_reply(),
            },
            CloudStage::CreatingProject => match event {
                CloudEvent::Http(Ok(reply)) => match &flow.task {
                    CloudTask::CreateUser { username, provider_pass } => {
                        if !is_ok(reply.status) {
                            return refused();
                        }
                        match reply.body {
                            ReplyBody::ObjectId(project) => {
                                let request = HttpRequest {
                                    method: HttpMethod::Post,
                                    url: join(self.keystone.as_str(), "/users"),
                                    auth_token: Some(flow.token.clone()),
                                    body: HttpBody::NewUser {
                                        name: username.clone(),
                                        password: provider_pass.clone(),
                                        default_project_id: project,
                                    },
                                    expect: Expect::ObjectId,
                                };
                                flow.stage = CloudStage::CreatingUser;
                                CloudStep::Ask(flow, CloudAction::Http(request))
                            },
                            _ => fail_with(
                                CloudError::SendRequest("unreadable response".to_owned()),
                            ),
                        }
                    },
                    _ => stray_reply(),
                },
                CloudEvent::Http(Err(m)) => fail_with(CloudError::SendRequest(m)),
                _ => stray_reply(),
            },
            CloudStage::CreatingUser => match event {
                CloudEvent::Http(Ok(reply)) => match &flow.task {
                    CloudTask::CreateUser { username, .. } => {
                        if !is_ok(reply.status) {
                            return refused();
                        }
                        match reply.body {
                            ReplyBody::ObjectId(Some(user_id)) => {
                                flow.stage = CloudStage::DomainLookup;
                                flow.user_id = user_id;
                                CloudStep::Ask(
                                    flow,
                                    CloudAction::CacheGet("openstack_default_domain_id".to_owned()),
                                )
                            },
                            ReplyBody::ObjectId(None) => fail_with(
                                CloudError::NotFound(
                                    join("Failed to create user ", username.as_str()),
                                ),
                            ),
                            _ => fail_with(
                                CloudError::SendRequest("unreadable response".to_owned()),
                            ),
                        }
                    },
                    _ => stray_reply(),
                },
                CloudEvent::Http(Err(m)) => fail_with(CloudError::SendRequest(m)),
                _ => stray_reply(),
            },
            CloudStage::DomainLookup => match event {
                CloudEvent::Cache(Some(domain_id)) => {
                    flow.domain_id = domain_id;
                    self.look_up_role(flow)
                },
                _ => {
                    let request = bare(
                        HttpMethod::Get,
                        join(self.keystone.as_str(), "/domains"),
                        &flow.token,
                        Expect::Domains,
                    );
                    flow.stage = CloudStage::DomainFetch;
                    CloudStep::Ask(flow, CloudAction::Http(request))
                },
            },
            CloudStage::DomainFetch => match event {
                CloudEvent::Http(Ok(reply)) => match reply.body {
                    ReplyBody::Listing(items) => match find_named(&items, "Default") {
                        Some(domain_id) => {
                            flow.stage = CloudStage::DomainStore;
                            flow.domain_id = domain_id.clone();
                            self.keep(flow, "openstack_default_domain_id", domain_id)
                        },
                        None => fail_with(CloudError::NotFound("domain name".to_owned())),
                    },
                    _ => fail_with(CloudError::NotFound("domain name".to_owned())),
                },
                CloudEvent::Http(Err(m)) => fail_with(CloudError::SendRequest(m)),
                _ => stray_reply(),
            },
            CloudStage::DomainStore => match event {
                CloudEvent::Stored(Ok(_)) => self.look_up_role(flow),
                CloudEvent::Stored(Err(e)) => fail_with(CloudError::SendRequest(e.message())),
                _ => stray_reply(),
            },
            CloudStage::RoleLookup => match event {
                CloudEvent::Cache(Some(role_id)) => {
                    flow.role_id = role_id;
                    self.grant(flow)
                },
                _ => {
                    let request = bare(
                        HttpMethod::Get,
                        join(self.keystone.as_str(), "/roles"),
                        &flow.token,
                        Expect::Roles,
                    );
                    flow.stage = CloudStage::RoleFetch;
                    CloudStep::Ask(flow, CloudAction::Http(request))
                },
            },
            CloudStage::RoleFetch => match event {
                CloudEvent::Http(Ok(reply)) => match reply.body {
                    ReplyBody::Listing(items) => match find_named(&items, "member") {
                        Some(role_id) => {
                            flow.stage = CloudStage::RoleStore;
                            flow.role_id = role_id.clone();
                            self.keep(flow, "openstack_member_role_id", role_id)
                        },
                        None => fail_with(CloudError::NotFound("member role".to_owned())),
                    },
                    _ => fail_with(CloudError::NotFound("member role".to_owned())),
                },
                CloudEvent::Http(Err(m)) => fail_with(CloudError::SendRequest(m)),
                _ => stray_reply(),
            },
            CloudStage::RoleStore => match event {
                CloudEvent::Stored(Ok(_)) => self.grant(flow),
                CloudEvent::Stored(Err(e)) => fail_with(CloudError::SendRequest(e.message())),
                _ => stray_reply(),
            },
            CloudStage::Granting => match event {
                CloudEvent::Http(Ok(reply)) => match flow.task {
                    CloudTask::CreateUser { username, provider_pass } => {
                        if is_ok(reply.status) {
                            CloudStep::Done(
                                Ok(
                                    CloudOutcome::Created(
                                        CloudCreateInfo { provider_id: username, provider_pass },
                                    ),
                                ),
                            )
                        } else {
                            refused()
                        }
                    },
                    _ => stray_reply(),
                },
                CloudEvent::Http(Err(m)) => fail_with(CloudError::SendRequest(m)),
                _ => stray_reply(),
            },
        }
    }
}

impl BaseCloudProvider for OpenStackCloudProvider {
    open spec fn name_text(&self) -> Seq<char> {
        "openstack"@
    }

    fn name(&self) -> (r: &'static str) {
        "openstack"
    }

    fn get_admin_token(&self) -> (r: CloudStep) {
        begin(CloudTask::AdminToken)
    }

    fn create_user(&self, username: String) -> (r: CloudStep)
        ensures
            exists|pass: Seq<char>|
                pass.len() == 36 && r@ == begin_spec(
                    CloudTaskView::CreateUser { username: username@, provider_pass: pass },
                ),
    {
        let provider_pass = fresh_password();
        begin(CloudTask::CreateUser { username, provider_pass })
    }

    fn delete_user(&self, provider_id: String) -> (r: CloudStep) {
        begin(CloudTask::DeleteUser { provider_id })
    }

    fn is_user_exist(&self, provider_id: String) -> (r: CloudStep) {
        begin(CloudTask::UserExists { provider_id })
    }

    fn get_user_token(&self, provider_id: String, provider_pass: String) -> (r: CloudStep) {
        begin(CloudTask::UserToken { provider_id, provider_pass })
    }
}

/// A token found in the cache is returned at once: nothing is asked of the
/// identity service.
pub proof fn lemma_cache_hit_returns_token(cfg: OpenStackView, f: CloudFlowView, token: Seq<char>, now: int)
    requires
        f.stage == CloudStage::TokenLookup,
        f.task is AdminToken || f.task is UserToken,
    ensures
        cloud_step_spec(cfg, f, CloudEventView::Cache(Some(token)), now) == CloudStepView::Done(
            Ok(CloudOutcomeView::Token(token)),
        ),
{
}

/// A token that the service issues with a readable expiry is cached under
/// the task's key for its remaining life less the safety margin, and is not
/// cached at all, the fetch failing instead, where that is not positive.
pub proof fn lemma_issued_token_ttl(
    cfg: OpenStackView,
    f: CloudFlowView,
    reply: HttpReplyView,
    token: Seq<char>,
    expires_at: int,
    now: int,
)
    requires
        f.stage == CloudStage::TokenFetch,
        status_ok(reply.status),
        reply.subject_token == Some(token),
        expiry_of(reply.body) == Some(expires_at),
    ensures
        expires_at - now > 300 ==> cloud_step_spec(cfg, f, CloudEventView::Http(Ok(reply)), now)
            == CloudStepView::Ask(
            CloudFlowView { stage: CloudStage::TokenStore, token, ..f },
            CloudActionView::CacheSet {
                key: token_key(f.task),
                value: token,
                ttl: expires_at - now - 300,
            },
        ),
        expires_at - now <= 300 ==> cloud_step_spec(cfg, f, CloudEventView::Http(Ok(reply)), now)
            == fail(CloudErrorView::SendRequest("token expires too soon to cache"@)),
{
}

/// A reader never finds a token in the cache later than the safety margin
/// before the token expires: whatever was cached when the token was issued
/// is gone from the cache by then.
pub proof fn lemma_cached_token_is_never_stale(
    cfg: OpenStackView,
    f: CloudFlowView,
    reply: HttpReplyView,
    expires_at: int,
    now: int,
    cache: CacheModel,
    later: int,
)
    requires
        f.stage == CloudStage::TokenFetch,
        expiry_of(reply.body) == Some(expires_at),
        later >= expires_at - 300,
    ensures
        cloud_step_spec(cfg, f, CloudEventView::Http(Ok(reply)), now) matches CloudStepView::Ask(
            _,
            CloudActionView::CacheSet { key, value, ttl },
        ) ==> cache.set(key, value, ttl, now).get(key, later) is None,
{
}

/// A request that could not be sent ends the flow as a failure to send,
/// whichever request it was and whatever the transport said of it. The
/// flow asks for nothing more: nothing is cached and nothing is sent again.
pub proof fn lemma_transport_failure_is_send_request(
    cfg: OpenStackView,
    f: CloudFlowView,
    said: Seq<char>,
    now: int,
)
    requires
        f.stage != CloudStage::TokenLookup,
        f.stage != CloudStage::DomainLookup,
        f.stage != CloudStage::RoleLookup,
    ensures
        cloud_step_spec(cfg, f, CloudEventView::Http(Err(said)), now) matches CloudStepView::Done(
            Err(CloudErrorView::SendRequest(_)),
        ),
        f.stage != CloudStage::TokenStore && f.stage != CloudStage::DomainStore && f.stage
            != CloudStage::RoleStore ==> cloud_step_spec(cfg, f, CloudEventView::Http(Err(said)), now)
            == unsent(said),
{
}

/// While a token is being fetched, a reply with a status that does not
/// report success ends the flow as a failure to send, and nothing is
/// cached.
pub proof fn lemma_refused_token_fetch_caches_nothing(
    cfg: OpenStackView,
    f: CloudFlowView,
    reply: HttpReplyView,
    now: int,
)
    requires
        f.stage == CloudStage::TokenFetch,
        !status_ok(reply.status),
    ensures
        cloud_step_spec(cfg, f, CloudEventView::Http(Ok(reply)), now) == fail(
            CloudErrorView::SendRequest("unexpected status"@),
        ),
{
}

/// Whether the flow is at work for the cached credentials: looking up,
/// fetching or storing a token or a reference value.
pub open spec fn fetching_credentials(stage: CloudStage) -> bool {
    match stage {
        CloudStage::TokenLookup | CloudStage::TokenFetch | CloudStage::TokenStore => true,
        CloudStage::DomainLookup | CloudStage::DomainFetch | CloudStage::DomainStore => true,
        CloudStage::RoleLookup | CloudStage::RoleFetch | CloudStage::RoleStore => true,
        _ => false,
    }
}

/// Whatever goes wrong while a token or a reference value is looked up,
/// fetched or stored, the caller is told one of two things: that sending
/// failed, or that what was asked for was not found.
pub proof fn lemma_credential_failures_are_of_two_kinds(
    cfg: OpenStackView,
    f: CloudFlowView,
    event: CloudEventView,
    now: int,
)
    requires
        fetching_credentials(f.stage),
    ensures
        cloud_step_spec(cfg, f, event, now) matches CloudStepView::Done(Err(e)) ==> e
            is SendRequest || e is NotFound,
{
}

} // verus!
