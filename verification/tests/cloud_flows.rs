use pikacloud_backend::cache::CacheError;
use pikacloud_backend::clouds::openstack::{
    accept_token, begin, find_named, read_expiry, token_ttl, OpenStackCloudProvider,
};
use pikacloud_backend::clouds::{
    BaseCloudProvider, CloudAction, CloudError, CloudEvent, CloudFlow, CloudOutcome, CloudStage,
    CloudStep, CloudTask, Expect, HttpBody, HttpMethod, HttpReply, NamedId, ReplyBody,
};

const MIDNIGHT: i64 = 1704067200; // 2024-01-01T00:00:00Z

fn provider() -> OpenStackCloudProvider {
    OpenStackCloudProvider::new(
        "http://keystone:5000/v3".to_string(),
        "admin".to_string(),
        "adminpw".to_string(),
    )
}

fn token_reply(token: Option<&str>, expires_at: Option<&str>) -> CloudEvent {
    CloudEvent::Http(Ok(HttpReply {
        status: 201,
        subject_token: token.map(|t| t.to_string()),
        body: ReplyBody::Token { expires_at: expires_at.map(|t| t.to_string()) },
    }))
}

fn status_reply(status: u16) -> CloudEvent {
    CloudEvent::Http(Ok(HttpReply { status, subject_token: None, body: ReplyBody::Unreadable }))
}

fn object_reply(status: u16, id: Option<&str>) -> CloudEvent {
    CloudEvent::Http(Ok(HttpReply {
        status,
        subject_token: None,
        body: ReplyBody::ObjectId(id.map(|t| t.to_string())),
    }))
}

fn listing(entries: &[(&str, &str)]) -> Vec<NamedId> {
    entries.iter().map(|(id, name)| NamedId { id: id.to_string(), name: name.to_string() }).collect()
}

fn listing_reply(entries: &[(&str, &str)]) -> CloudEvent {
    CloudEvent::Http(Ok(HttpReply {
        status: 200,
        subject_token: None,
        body: ReplyBody::Listing(listing(entries)),
    }))
}

fn asked(step: CloudStep) -> (CloudFlow, CloudAction) {
    match step {
        CloudStep::Ask(flow, action) => (flow, action),
        other => panic!("the flow ended: {:?}", other),
    }
}

fn ended(step: CloudStep) -> Result<CloudOutcome, CloudError> {
    match step {
        CloudStep::Done(result) => result,
        other => panic!("the flow goes on: {:?}", other),
    }
}

#[test]
fn ttl_is_remaining_life_less_the_margin() {
    assert_eq!(token_ttl(600, 0), Some(300));
    assert_eq!(token_ttl(MIDNIGHT + 600, MIDNIGHT), Some(300));
    assert_eq!(token_ttl(MIDNIGHT + 301, MIDNIGHT), Some(1));
    assert_eq!(token_ttl(MIDNIGHT + 300, MIDNIGHT), None);
    assert_eq!(token_ttl(MIDNIGHT + 200, MIDNIGHT), None);
    assert_eq!(token_ttl(MIDNIGHT - 5, MIDNIGHT), None);
    assert_eq!(token_ttl(i64::MAX, i64::MIN), Some(u64::MAX - 300));
    assert_eq!(token_ttl(i64::MIN, i64::MAX), None);
    assert_eq!(token_ttl(i64::MAX, 0), Some(i64::MAX as u64 - 300));
}

#[test]
fn a_cached_admin_token_is_returned_without_a_fetch() {
    let os = provider();
    let (flow, action) = asked(os.get_admin_token());
    assert!(matches!(&action, CloudAction::CacheGet(k) if k == "openstack:admin-token"));
    assert_eq!(flow.stage, CloudStage::TokenLookup);
    let end = ended(os.step(flow, CloudEvent::Cache(Some("T0".to_string())), MIDNIGHT));
    assert!(matches!(end, Ok(CloudOutcome::Token(t)) if t == "T0"));
}

#[test]
fn a_fetched_token_is_cached_for_its_life_less_the_margin() {
    let os = provider();
    let (flow, _) = asked(os.get_admin_token());
    let (flow, action) = asked(os.step(flow, CloudEvent::Cache(None), MIDNIGHT));
    match action {
        CloudAction::Http(request) => {
            assert_eq!(request.method, HttpMethod::Post);
            assert_eq!(request.url, "http://keystone:5000/v3/auth/tokens");
            assert!(request.auth_token.is_none());
            assert_eq!(request.expect, Expect::Token);
            assert!(matches!(&request.body, HttpBody::Login { name, password } if name == "admin" && password == "adminpw"));
        }
        other => panic!("{:?}", other),
    }
    let (flow, action) =
        asked(os.step(flow, token_reply(Some("T1"), Some("2024-01-01T00:10:00Z")), MIDNIGHT));
    match action {
        CloudAction::CacheSet { key, value, ttl } => {
            assert_eq!(key, "openstack:admin-token");
            assert_eq!(value, "T1");
            assert_eq!(ttl, 300);
        }
        other => panic!("{:?}", other),
    }
    let end = ended(os.step(flow, CloudEvent::Stored(Ok(())), MIDNIGHT));
    assert!(matches!(end, Ok(CloudOutcome::Token(t)) if t == "T1"));
}

#[test]
fn a_token_with_an_offset_expiry_is_read_as_an_instant() {
    let os = provider();
    let (flow, _) = asked(os.get_admin_token());
    let (flow, _) = asked(os.step(flow, CloudEvent::Cache(None), MIDNIGHT));
    // 08:20 at +08:00 is 00:20 UTC: 1200 s of life, 900 s to cache.
    let (_, action) =
        asked(os.step(flow, token_reply(Some("T1"), Some("2024-01-01T08:20:00+08:00")), MIDNIGHT));
    assert!(matches!(action, CloudAction::CacheSet { ttl: 900, .. }));
    let body = ReplyBody::Token { expires_at: Some("2024-01-01T00:00:00.000000Z".to_string()) };
    assert_eq!(read_expiry(&body), Some(MIDNIGHT));
    let body = ReplyBody::Token { expires_at: Some("tomorrow".to_string()) };
    assert_eq!(read_expiry(&body), None);
    assert_eq!(read_expiry(&ReplyBody::Token { expires_at: None }), None);
    assert_eq!(read_expiry(&ReplyBody::Unreadable), None);
}

#[test]
fn a_nearly_expired_token_is_not_cached() {
    let os = provider();
    let (flow, _) = asked(os.get_admin_token());
    let (flow, _) = asked(os.step(flow, CloudEvent::Cache(None), MIDNIGHT));
    let end = ended(os.step(flow, token_reply(Some("T1"), Some("2024-01-01T00:03:20Z")), MIDNIGHT));
    assert!(matches!(&end, Err(CloudError::SendRequest(m)) if m == "token expires too soon to cache"));
    assert_eq!(end.unwrap_err().message(), "Sending request: token expires too soon to cache");
}

#[test]
fn a_token_reply_that_lacks_something_is_not_found() {
    let os = provider();
    for event in [
        token_reply(None, Some("2024-01-01T00:10:00Z")),
        token_reply(Some("T1"), None),
        token_reply(Some("T1"), Some("not a date")),
        CloudEvent::Http(Ok(HttpReply {
            status: 201,
            subject_token: Some("T1".to_string()),
            body: ReplyBody::Unreadable,
        })),
    ] {
        let (flow, _) = asked(os.get_admin_token());
        let (flow, _) = asked(os.step(flow, CloudEvent::Cache(None), MIDNIGHT));
        let end = ended(os.step(flow, event, MIDNIGHT));
        assert!(matches!(&end, Err(CloudError::NotFound(m)) if m == "OpenStack admin token"), "{:?}", end);
    }
    let (flow, _) = asked(os.get_user_token("u1".to_string(), "pw".to_string()));
    let (flow, _) = asked(os.step(flow, CloudEvent::Cache(None), MIDNIGHT));
    let end = ended(os.step(flow, token_reply(None, None), MIDNIGHT));
    assert!(matches!(&end, Err(CloudError::NotFound(m)) if m == "OpenStack user token"));
    assert_eq!(end.unwrap_err().message(), "NotFound: OpenStack user token");
}

#[test]
fn token_fetch_failures_are_surfaced() {
    let os = provider();
    let (flow, _) = asked(os.get_admin_token());
    let (flow, _) = asked(os.step(flow, CloudEvent::Cache(None), MIDNIGHT));
    let end = ended(os.step(
        flow,
        CloudEvent::Http(Err("connection refused".to_string())),
        MIDNIGHT,
    ));
    assert!(matches!(&end, Err(CloudError::SendRequest(m)) if m == "connection refused"));

    let (flow, _) = asked(os.get_admin_token());
    let (flow, _) = asked(os.step(flow, CloudEvent::Cache(None), MIDNIGHT));
    let end = ended(os.step(flow, status_reply(401), MIDNIGHT));
    assert!(matches!(&end, Err(CloudError::SendRequest(m)) if m == "unexpected status"));
    assert_eq!(end.unwrap_err().message(), "Sending request: unexpected status");

    let (flow, _) = asked(os.get_admin_token());
    let (flow, _) = asked(os.step(flow, CloudEvent::Cache(None), MIDNIGHT));
    let (flow, _) =
        asked(os.step(flow, token_reply(Some("T1"), Some("2024-01-01T00:10:00Z")), MIDNIGHT));
    let end = ended(os.step(
        flow,
        CloudEvent::Stored(Err(CacheError::SetKey("broken pipe".to_string()))),
        MIDNIGHT,
    ));
    assert!(matches!(&end, Err(CloudError::SendRequest(m)) if m == "Fail to set key: broken pipe"));

    let (flow, _) = asked(os.get_admin_token());
    let (flow, _) = asked(os.step(flow, CloudEvent::Cache(None), MIDNIGHT));
    let end = ended(os.step(flow, CloudEvent::Stored(Ok(())), MIDNIGHT));
    assert!(matches!(&end, Err(CloudError::SendRequest(m)) if m == "unexpected reply"));
}

#[test]
fn a_user_token_has_a_key_of_its_own() {
    let os = provider();
    let (flow, action) = asked(os.get_user_token("u1".to_string(), "pw1".to_string()));
    assert!(matches!(&action, CloudAction::CacheGet(k) if k == "openstack:user-token-u1"));
    let (flow, action) = asked(os.step(flow, CloudEvent::Cache(None), MIDNIGHT));
    match action {
        CloudAction::Http(request) => {
            assert!(matches!(&request.body, HttpBody::Login { name, password } if name == "u1" && password == "pw1"));
        }
        other => panic!("{:?}", other),
    }
    let (_, action) =
        asked(os.step(flow, token_reply(Some("UT"), Some("2024-01-01T01:00:00Z")), MIDNIGHT));
    match action {
        CloudAction::CacheSet { key, value, ttl } => {
            assert_eq!(key, "openstack:user-token-u1");
            assert_eq!(value, "UT");
            assert_eq!(ttl, 3300);
        }
        other => panic!("{:?}", other),
    }
}

#[test]
fn create_user_walks_through_project_user_and_grant() {
    let os = provider();
    let (flow, action) = asked(os.create_user("alice".to_string()));
    assert!(matches!(&action, CloudAction::CacheGet(k) if k == "openstack:admin-token"));
    let pass = match &flow.task {
        CloudTask::CreateUser { username, provider_pass } => {
            assert_eq!(username, "alice");
            provider_pass.clone()
        }
        other => panic!("{:?}", other),
    };
    assert_eq!(pass.len(), 36);
    assert_eq!(pass.matches('-').count(), 4);

    let (flow, action) = asked(os.step(flow, CloudEvent::Cache(Some("ADM".to_string())), MIDNIGHT));
    match action {
        CloudAction::Http(request) => {
            assert_eq!(request.method, HttpMethod::Post);
            assert_eq!(request.url, "http://keystone:5000/v3/projects");
            assert_eq!(request.auth_token.as_deref(), Some("ADM"));
            assert!(matches!(&request.body, HttpBody::Project { name } if name == "alice"));
            assert_eq!(request.expect, Expect::ObjectId);
        }
        other => panic!("{:?}", other),
    }
    let (flow, action) = asked(os.step(flow, object_reply(201, Some("p-1")), MIDNIGHT));
    match action {
        CloudAction::Http(request) => {
            assert_eq!(request.url, "http://keystone:5000/v3/users");
            match &request.body {
                HttpBody::NewUser { name, password, default_project_id } => {
                    assert_eq!(name, "alice");
                    assert_eq!(password, &pass);
                    assert_eq!(default_project_id.as_deref(), Some("p-1"));
                }
                other => panic!("{:?}", other),
            }
        }
        other => panic!("{:?}", other),
    }
    let (flow, action) = asked(os.step(flow, object_reply(201, Some("u-7")), MIDNIGHT));
    assert!(matches!(&action, CloudAction::CacheGet(k) if k == "openstack_default_domain_id"));
    let (flow, action) = asked(os.step(flow, CloudEvent::Cache(None), MIDNIGHT));
    match action {
        CloudAction::Http(request) => {
            assert_eq!(request.method, HttpMethod::Get);
            assert_eq!(request.url, "http://keystone:5000/v3/domains");
            assert_eq!(request.auth_token.as_deref(), Some("ADM"));
            assert_eq!(request.expect, Expect::Domains);
        }
        other => panic!("{:?}", other),
    }
    let (flow, action) = asked(os.step(
        flow,
        listing_reply(&[("d-0", "heat"), ("d-1", "Default"), ("d-2", "Default")]),
        MIDNIGHT,
    ));
    match action {
        CloudAction::CacheSet { key, value, ttl } => {
            assert_eq!(key, "openstack_default_domain_id");
            assert_eq!(value, "d-1");
            assert_eq!(ttl, 86400);
        }
        other => panic!("{:?}", other),
    }
    let (flow, action) = asked(os.step(flow, CloudEvent::Stored(Ok(())), MIDNIGHT));
    assert!(matches!(&action, CloudAction::CacheGet(k) if k == "openstack_member_role_id"));
    let (flow, action) = asked(os.step(flow, CloudEvent::Cache(Some("r-3".to_string())), MIDNIGHT));
    match action {
        CloudAction::Http(request) => {
            assert_eq!(request.method, HttpMethod::Put);
            assert_eq!(
                request.url,
                "http://keystone:5000/v3/domains/d-1/users/u-7/roles/r-3"
            );
            assert_eq!(request.auth_token.as_deref(), Some("ADM"));
        }
        other => panic!("{:?}", other),
    }
    let end = ended(os.step(flow, status_reply(204), MIDNIGHT));
    match end {
        Ok(CloudOutcome::Created(info)) => {
            assert_eq!(info.provider_id, "alice");
            assert_eq!(info.provider_pass, pass);
        }
        other => panic!("{:?}", other),
    }
}

#[test]
fn create_user_fetches_the_member_role_when_it_is_not_cached() {
    let os = provider();
    let (flow, _) = asked(begin(CloudTask::CreateUser {
        username: "bob".to_string(),
        provider_pass: "pw".to_string(),
    }));
    let (flow, _) = asked(os.step(flow, CloudEvent::Cache(Some("ADM".to_string())), MIDNIGHT));
    let (flow, _) = asked(os.step(flow, object_reply(201, None), MIDNIGHT));
    let (flow, _) = asked(os.step(flow, object_reply(201, Some("u-8")), MIDNIGHT));
    let (flow, _) = asked(os.step(flow, CloudEvent::Cache(Some("d-1".to_string())), MIDNIGHT));
    let (flow, action) = asked(os.step(flow, CloudEvent::Cache(None), MIDNIGHT));
    match action {
        CloudAction::Http(request) => {
            assert_eq!(request.url, "http://keystone:5000/v3/roles");
            assert_eq!(request.expect, Expect::Roles);
        }
        other => panic!("{:?}", other),
    }
    let (flow, action) =
        asked(os.step(flow, listing_reply(&[("r-1", "admin"), ("r-2", "member")]), MIDNIGHT));
    assert!(matches!(&action, CloudAction::CacheSet { key, value, ttl: 86400 } if key == "openstack_member_role_id" && value == "r-2"));
    let (flow, action) = asked(os.step(flow, CloudEvent::Stored(Ok(())), MIDNIGHT));
    match action {
        CloudAction::Http(request) => {
            assert_eq!(request.url, "http://keystone:5000/v3/domains/d-1/users/u-8/roles/r-2");
        }
        other => panic!("{:?}", other),
    }
    let end = ended(os.step(flow, status_reply(403), MIDNIGHT));
    assert!(matches!(&end, Err(CloudError::Provider(m)) if m == "unexpected status"));
}

#[test]
fn create_user_reports_what_is_missing() {
    let os = provider();
    let start = || {
        let (flow, _) = asked(begin(CloudTask::CreateUser {
            username: "bob".to_string(),
            provider_pass: "pw".to_string(),
        }));
        asked(os.step(flow, CloudEvent::Cache(Some("ADM".to_string())), MIDNIGHT)).0
    };
    let end = ended(os.step(start(), object_reply(409, Some("p")), MIDNIGHT));
    assert!(matches!(&end, Err(CloudError::Provider(_))));
    let end = ended(os.step(start(), status_reply(201), MIDNIGHT));
    assert!(matches!(&end, Err(CloudError::SendRequest(m)) if m == "unreadable response"));

    let (flow, _) = asked(os.step(start(), object_reply(201, Some("p")), MIDNIGHT));
    let end = ended(os.step(flow, object_reply(201, None), MIDNIGHT));
    assert!(matches!(&end, Err(CloudError::NotFound(m)) if m == "Failed to create user bob"));

    let (flow, _) = asked(os.step(start(), object_reply(201, Some("p")), MIDNIGHT));
    let (flow, _) = asked(os.step(flow, object_reply(201, Some("u")), MIDNIGHT));
    let (flow, _) = asked(os.step(flow, CloudEvent::Cache(None), MIDNIGHT));
    let end = ended(os.step(flow, listing_reply(&[("d-0", "heat")]), MIDNIGHT));
    assert!(matches!(&end, Err(CloudError::NotFound(m)) if m == "domain name"));

    let (flow, _) = asked(os.step(start(), object_reply(201, Some("p")), MIDNIGHT));
    let (flow, _) = asked(os.step(flow, object_reply(201, Some("u")), MIDNIGHT));
    let (flow, _) = asked(os.step(flow, CloudEvent::Cache(Some("d".to_string())), MIDNIGHT));
    let (flow, _) = asked(os.step(flow, CloudEvent::Cache(None), MIDNIGHT));
    let end = ended(os.step(flow, listing_reply(&[]), MIDNIGHT));
    assert!(matches!(&end, Err(CloudError::NotFound(m)) if m == "member role"));
}

#[test]
fn delete_and_probe_use_the_admin_token() {
    let os = provider();
    assert_eq!(os.name(), "openstack");
    let (flow, _) = asked(os.delete_user("u-7".to_string()));
    let (flow, action) = asked(os.step(flow, CloudEvent::Cache(Some("ADM".to_string())), MIDNIGHT));
    match action {
        CloudAction::Http(request) => {
            assert_eq!(request.method, HttpMethod::Delete);
            assert_eq!(request.url, "http://keystone:5000/v3/users/u-7");
            assert_eq!(request.auth_token.as_deref(), Some("ADM"));
        }
        other => panic!("{:?}", other),
    }
    assert!(matches!(ended(os.step(flow, status_reply(204), MIDNIGHT)), Ok(CloudOutcome::Deleted)));

    let (flow, _) = asked(os.delete_user("u-7".to_string()));
    let (flow, _) = asked(os.step(flow, CloudEvent::Cache(Some("ADM".to_string())), MIDNIGHT));
    assert!(matches!(ended(os.step(flow, status_reply(404), MIDNIGHT)), Err(CloudError::Provider(_))));

    for (status, exists) in [(200, true), (299, true), (404, false), (300, false), (199, false)] {
        let (flow, _) = asked(os.is_user_exist("u-7".to_string()));
        let (flow, action) =
            asked(os.step(flow, CloudEvent::Cache(Some("ADM".to_string())), MIDNIGHT));
        match action {
            CloudAction::Http(request) => {
                assert_eq!(request.method, HttpMethod::Get);
                assert_eq!(request.url, "http://keystone:5000/v3/users/u-7");
            }
            other => panic!("{:?}", other),
        }
        let end = ended(os.step(flow, status_reply(status), MIDNIGHT));
        assert!(matches!(end, Ok(CloudOutcome::Exists(b)) if b == exists));
    }
}

#[test]
fn accept_token_orders_its_checks() {
    let r = accept_token("L", 500, None, None, 0);
    assert!(matches!(&r, Err(CloudError::SendRequest(m)) if m == "unexpected status"));
    let r = accept_token("L", 200, None, Some(1000), 0);
    assert!(matches!(&r, Err(CloudError::NotFound(m)) if m == "L"));
    let r = accept_token("L", 200, Some("T".to_string()), None, 0);
    assert!(matches!(&r, Err(CloudError::NotFound(m)) if m == "L"));
    let r = accept_token("L", 200, Some("T".to_string()), Some(300), 0);
    assert!(matches!(&r, Err(CloudError::SendRequest(_))));
    let r = accept_token("L", 200, Some("T".to_string()), Some(1000), 0).unwrap();
    assert_eq!(r, ("T".to_string(), 700));
}

#[test]
fn find_named_takes_the_first_match() {
    let items = listing(&[("a", "x"), ("b", "y"), ("c", "y")]);
    assert_eq!(find_named(&items, "y"), Some("b".to_string()));
    assert_eq!(find_named(&items, "x"), Some("a".to_string()));
    assert_eq!(find_named(&items, "z"), None);
    assert_eq!(find_named(&Vec::new(), "x"), None);
}

#[test]
fn a_request_that_cannot_be_sent_is_a_send_failure() {
    let os = provider();
    let (flow, _) = asked(os.get_user_token("u1".to_string(), "pw".to_string()));
    let (flow, _) = asked(os.step(flow, CloudEvent::Cache(None), MIDNIGHT));
    let end = ended(os.step(flow, CloudEvent::Http(Err("dns failure".to_string())), MIDNIGHT));
    assert!(matches!(&end, Err(CloudError::SendRequest(m)) if m == "dns failure"));
    assert_eq!(end.unwrap_err().message(), "Sending request: dns failure");

    let (flow, _) = asked(os.delete_user("u-7".to_string()));
    let (flow, _) = asked(os.step(flow, CloudEvent::Cache(Some("ADM".to_string())), MIDNIGHT));
    let end = ended(os.step(flow, CloudEvent::Http(Err("reset".to_string())), MIDNIGHT));
    assert!(matches!(&end, Err(CloudError::SendRequest(m)) if m == "reset"));

    let (flow, _) = asked(begin(CloudTask::CreateUser {
        username: "bob".to_string(),
        provider_pass: "pw".to_string(),
    }));
    let (flow, _) = asked(os.step(flow, CloudEvent::Cache(Some("ADM".to_string())), MIDNIGHT));
    let end = ended(os.step(flow, CloudEvent::Http(Err("reset".to_string())), MIDNIGHT));
    assert!(matches!(&end, Err(CloudError::SendRequest(m)) if m == "reset"));
}

#[test]
fn an_unreadable_listing_is_not_found() {
    let os = provider();
    let start = || {
        let (flow, _) = asked(begin(CloudTask::CreateUser {
            username: "bob".to_string(),
            provider_pass: "pw".to_string(),
        }));
        let (flow, _) = asked(os.step(flow, CloudEvent::Cache(Some("ADM".to_string())), MIDNIGHT));
        let (flow, _) = asked(os.step(flow, object_reply(201, Some("p")), MIDNIGHT));
        asked(os.step(flow, object_reply(201, Some("u")), MIDNIGHT)).0
    };
    let (flow, _) = asked(os.step(start(), CloudEvent::Cache(None), MIDNIGHT));
    let end = ended(os.step(flow, status_reply(200), MIDNIGHT));
    assert!(matches!(&end, Err(CloudError::NotFound(m)) if m == "domain name"));
    let (flow, _) = asked(os.step(start(), CloudEvent::Cache(Some("d".to_string())), MIDNIGHT));
    let (flow, _) = asked(os.step(flow, CloudEvent::Cache(None), MIDNIGHT));
    let end = ended(os.step(flow, status_reply(200), MIDNIGHT));
    assert!(matches!(&end, Err(CloudError::NotFound(m)) if m == "member role"));
    let (flow, _) = asked(os.step(start(), CloudEvent::Cache(None), MIDNIGHT));
    let end = ended(os.step(flow, CloudEvent::Stored(Ok(())), MIDNIGHT));
    assert!(matches!(&end, Err(CloudError::SendRequest(m)) if m == "unexpected reply"));
}
