use pikacloud_backend::auth::iaaa::{
    validate, IAAAUserInfo, IAAAValidateResponse, IaaaAuthProvider, IaaaError,
};
use pikacloud_backend::auth::lcpu::LcpuAuthProvider;
use pikacloud_backend::auth::password::{is_all_numeric, PasswordAuthProvider};
use pikacloud_backend::auth::{
    get_result_from_resp, AuthAction, AuthError, AuthEvent, AuthFlow, AuthStep, BaseAuthProvider,
    PasswordWork, Payload, Settle,
};
use pikacloud_backend::db::{StoreQuery, StoreReply};
use pikacloud_backend::models::{LoginProvider, Role, User, UserRole};

/// A store in memory that keeps the uniqueness constraints.
#[derive(Default)]
struct MemStore {
    users: Vec<User>,
    roles: Vec<Role>,
    user_roles: Vec<UserRole>,
    minted: usize,
    queries: Vec<String>,
}

impl MemStore {
    fn mint(&mut self, prefix: &str) -> String {
        self.minted += 1;
        format!("{}-{}", prefix, self.minted)
    }

    fn apply(&mut self, query: StoreQuery) -> StoreReply {
        self.queries.push(format!("{:?}", query));
        match query {
            StoreQuery::FindUserByUsername(name) => {
                match self.users.iter().find(|u| u.username == name) {
                    Some(u) => StoreReply::User(u.clone()),
                    None => StoreReply::Failed,
                }
            }
            StoreQuery::FindRoleByName(name) => match self.roles.iter().find(|r| r.name == name) {
                Some(r) => StoreReply::Role(r.clone()),
                None => StoreReply::Failed,
            },
            StoreQuery::CreateUser(new_user) => {
                if self.users.iter().any(|u| u.username == new_user.username) {
                    return StoreReply::Failed;
                }
                let user = User {
                    id: self.mint("user"),
                    username: new_user.username,
                    login_provider: new_user.login_provider,
                    name: new_user.name,
                    email: None,
                    password: new_user.password,
                };
                self.users.push(user.clone());
                StoreReply::User(user)
            }
            StoreQuery::CreateRole(name) => {
                if self.roles.iter().any(|r| r.name == name) {
                    return StoreReply::Failed;
                }
                let role = Role { id: self.mint("role"), name };
                self.roles.push(role.clone());
                StoreReply::Role(role)
            }
            StoreQuery::CreateUserRole { user_id, role_id } => {
                let link = UserRole { id: self.mint("link"), user_id, role_id };
                self.user_roles.push(link.clone());
                StoreReply::UserRole(link)
            }
            StoreQuery::FindUserRolesByUser(user_id) => StoreReply::UserRoles(
                self.user_roles.iter().filter(|l| l.user_id == user_id).cloned().collect(),
            ),
            StoreQuery::FindRolesByIds(ids) => StoreReply::Roles(
                self.roles.iter().filter(|r| ids.contains(&r.id)).cloned().collect(),
            ),
        }
    }
}

/// Carries a flow on against the store until it ends. Panics if the flow
/// asks for the validator.
fn drive(store: &mut MemStore, first: AuthStep) -> Result<(String, Vec<String>), AuthError> {
    let mut step = first;
    let mut asked = 0;
    loop {
        match step {
            AuthStep::Done(result) => return result,
            AuthStep::Ask(state, AuthAction::Store(query)) => {
                asked += 1;
                assert!(asked <= 5, "a flow asks the store at most five times");
                let reply = store.apply(query);
                step = state.step(AuthEvent::Store(reply));
            }
            AuthStep::Ask(_, AuthAction::Validate(_)) => panic!("the validator is not part of this run"),
        }
    }
}

fn password_payload(username: &str, password: &str) -> Payload {
    Payload::Password { username: username.to_string(), password: password.to_string() }
}

fn registering_provider() -> PasswordAuthProvider {
    PasswordAuthProvider::new(None, Some("true"), Some("true"))
}

fn response(success: bool, identity_id: &str, name: &str) -> IAAAValidateResponse {
    IAAAValidateResponse {
        success,
        err_code: String::new(),
        err_msg: String::new(),
        user_info: IAAAUserInfo {
            name: name.to_string(),
            status: String::new(),
            identity_id: identity_id.to_string(),
            dept_id: String::new(),
            dept: String::new(),
            identity_type: String::new(),
            detail_type: String::new(),
            identity_status: String::new(),
            campus: String::new(),
        },
    }
}

#[test]
fn register_then_login_end_to_end() {
    let mut store = MemStore::default();
    let provider = registering_provider();

    let (id, roles) =
        drive(&mut store, provider.register(password_payload("alice", "secret123"))).unwrap();
    assert_eq!(roles, vec!["member".to_string()]);
    assert_eq!(store.users.len(), 1);
    assert_eq!(store.users[0].username, "alice");
    assert_eq!(store.users[0].login_provider, LoginProvider::PASSWORD);
    let hash = store.users[0].password.clone().unwrap();
    assert_ne!(hash, "secret123");
    assert!(hash.starts_with("$2b$10$"));
    assert_eq!(hash.len(), 60);

    let (login_id, login_roles) =
        drive(&mut store, provider.login(password_payload("alice", "secret123"), None)).unwrap();
    assert_eq!(login_id, id);
    assert_eq!(login_roles, vec!["member".to_string()]);

    let wrong = drive(&mut store, provider.login(password_payload("alice", "secret124"), None))
        .unwrap_err();
    let missing = drive(&mut store, provider.login(password_payload("bob", "secret123"), None))
        .unwrap_err();
    assert!(matches!(&wrong, AuthError::Unauthorized(m) if m == "Invalid username or password"));
    assert_eq!(wrong.message(), "Unauthorized: Invalid username or password");
    assert_eq!(wrong.message(), missing.message());
    assert_eq!(store.users.len(), 1);
}

#[test]
fn registration_creates_the_member_role_once() {
    let mut store = MemStore::default();
    let provider = registering_provider();
    drive(&mut store, provider.register(password_payload("alice", "pw-a"))).unwrap();
    drive(&mut store, provider.register(password_payload("bob", "pw-b"))).unwrap();
    assert_eq!(store.roles.len(), 1);
    assert_eq!(store.roles[0].name, "member");
    assert_eq!(store.user_roles.len(), 2);
}

#[test]
fn numeric_usernames_are_rejected() {
    let mut store = MemStore::default();
    let provider = registering_provider();
    for name in ["12345", "0", "٣٣", ""] {
        let err = drive(&mut store, provider.register(password_payload(name, "whatever"))).unwrap_err();
        assert!(
            matches!(&err, AuthError::BadRequest(m) if m == "Username cannot be all numbers"),
            "{:?}",
            err
        );
    }
    assert!(store.queries.is_empty());
    assert!(store.users.is_empty());
    assert!(is_all_numeric("2200088888"));
    assert!(!is_all_numeric("22000a8888"));
    assert!(!is_all_numeric("alice"));
}

#[test]
fn registration_can_be_disabled() {
    let mut store = MemStore::default();
    let provider = PasswordAuthProvider::new(None, Some("true"), Some("no"));
    let err = drive(&mut store, provider.register(password_payload("alice", "pw"))).unwrap_err();
    assert!(matches!(&err, AuthError::Forbidden(m) if m == "Register is disabled"));
    assert_eq!(err.message(), "Forbidden: Register is disabled");
    let numeric = drive(&mut store, provider.register(password_payload("123", "pw"))).unwrap_err();
    assert!(matches!(numeric, AuthError::Forbidden(_)));
    assert!(store.queries.is_empty());
}

#[test]
fn registering_a_taken_username_conflicts() {
    let mut store = MemStore::default();
    let provider = registering_provider();
    drive(&mut store, provider.register(password_payload("alice", "pw"))).unwrap();
    let err = drive(&mut store, provider.register(password_payload("alice", "other"))).unwrap_err();
    assert!(matches!(&err, AuthError::Conflict(m) if m == "User already exists"));
    assert_eq!(store.users.len(), 1);
}

#[test]
fn malformed_password_payloads_are_bad_requests() {
    let provider = registering_provider();
    let step = provider.login(Payload::Invalid, None);
    assert!(matches!(step, AuthStep::Done(Err(AuthError::BadRequest(m))) if m == "Invalid payload"));
    let step = provider.login(Payload::Token("t".to_string()), None);
    assert!(matches!(step, AuthStep::Done(Err(AuthError::BadRequest(m))) if m == "Invalid payload"));
    let step = provider.login(password_payload("", "pw"), None);
    assert!(matches!(step, AuthStep::Done(Err(AuthError::BadRequest(m))) if m == "Username and password are required"));
    let step = provider.login(password_payload("alice", ""), None);
    assert!(matches!(step, AuthStep::Done(Err(AuthError::BadRequest(m))) if m == "Username and password are required"));
    let step = provider.register(Payload::Invalid);
    assert!(matches!(step, AuthStep::Done(Err(AuthError::BadRequest(m))) if m == "Username and password are required"));
}

#[test]
fn login_checks_a_known_hash() {
    let mut store = MemStore::default();
    store.users.push(User {
        id: "u1".to_string(),
        username: "python".to_string(),
        login_provider: LoginProvider::PASSWORD,
        name: None,
        email: None,
        password: Some("$2b$04$EGdrhbKUv8Oc9vGiXX0HQOxSg445d458Muh7DAHskb6QbtCvdxcie".to_string()),
    });
    store.users.push(User {
        id: "u2".to_string(),
        username: "federated".to_string(),
        login_provider: LoginProvider::IAAA,
        name: None,
        email: None,
        password: None,
    });
    store.users.push(User {
        id: "u3".to_string(),
        username: "broken".to_string(),
        login_provider: LoginProvider::PASSWORD,
        name: None,
        email: None,
        password: Some("correctbatteryhorsestapler".to_string()),
    });
    let provider = registering_provider();
    let (id, roles) = drive(
        &mut store,
        provider.login(password_payload("python", "correctbatteryhorsestapler"), None),
    )
    .unwrap();
    assert_eq!(id, "u1");
    assert!(roles.is_empty());
    for (user, password) in
        [("python", "wrong"), ("federated", "anything"), ("broken", "correctbatteryhorsestapler")]
    {
        let err = drive(&mut store, provider.login(password_payload(user, password), None)).unwrap_err();
        assert!(matches!(&err, AuthError::Unauthorized(m) if m == "Invalid username or password"));
    }
}

#[test]
fn federation_is_idempotent() {
    let mut store = MemStore::default();
    let first = drive(
        &mut store,
        AuthFlow::federate("2200088888".to_string(), "Tom".to_string(), LoginProvider::IAAA),
    )
    .unwrap();
    assert_eq!(first.1, vec!["member".to_string()]);
    assert_eq!(store.users.len(), 1);
    assert_eq!(store.users[0].username, "2200088888");
    assert_eq!(store.users[0].name.as_deref(), Some("Tom"));
    assert_eq!(store.users[0].login_provider, LoginProvider::IAAA);
    assert!(store.users[0].password.is_none());

    let second = drive(
        &mut store,
        get_result_from_resp(response(true, "2200088888", "Tom"), LoginProvider::IAAA),
    )
    .unwrap();
    assert_eq!(second, first);
    assert_eq!(store.users.len(), 1);
    assert_eq!(store.user_roles.len(), 1);
}

#[test]
fn federation_uses_an_existing_member_role() {
    let mut store = MemStore::default();
    store.roles.push(Role { id: "r-admin".to_string(), name: "admin".to_string() });
    store.roles.push(Role { id: "r-member".to_string(), name: "member".to_string() });
    let (id, roles) = drive(
        &mut store,
        AuthFlow::federate("s1".to_string(), "Ann".to_string(), LoginProvider::LCPU),
    )
    .unwrap();
    assert_eq!(roles, vec!["member".to_string()]);
    assert_eq!(store.roles.len(), 2);
    assert_eq!(store.user_roles.len(), 1);
    assert_eq!(store.user_roles[0].user_id, id);
    assert_eq!(store.user_roles[0].role_id, "r-member");
    assert_eq!(store.users[0].login_provider, LoginProvider::LCPU);
}

#[test]
fn federation_returns_all_roles_of_a_known_account() {
    let mut store = MemStore::default();
    store.roles.push(Role { id: "r-admin".to_string(), name: "admin".to_string() });
    let (id, _) = drive(
        &mut store,
        AuthFlow::federate("s1".to_string(), "Ann".to_string(), LoginProvider::IAAA),
    )
    .unwrap();
    store.user_roles.push(UserRole {
        id: "l-9".to_string(),
        user_id: id.clone(),
        role_id: "r-admin".to_string(),
    });
    let (again, roles) = drive(
        &mut store,
        AuthFlow::federate("s1".to_string(), "Ann".to_string(), LoginProvider::IAAA),
    )
    .unwrap();
    assert_eq!(again, id);
    assert_eq!(roles, vec!["admin".to_string(), "member".to_string()]);
}

#[test]
fn losing_a_creation_race_retries_the_lookup_once() {
    // The account appears between this flow's lookup and its attempt to create it.
    let mut store = MemStore::default();
    let step = AuthFlow::federate("s1".to_string(), "Ann".to_string(), LoginProvider::IAAA);
    let state = match step {
        AuthStep::Ask(state, AuthAction::Store(StoreQuery::FindUserByUsername(name))) => {
            assert_eq!(name, "s1");
            state
        }
        other => panic!("{:?}", other),
    };
    let after_miss = state.step(AuthEvent::Store(StoreReply::Failed));
    let winner = drive(
        &mut store,
        AuthFlow::federate("s1".to_string(), "Ann".to_string(), LoginProvider::IAAA),
    )
    .unwrap();
    let loser = drive(&mut store, after_miss).unwrap();
    assert_eq!(loser, winner);
    assert_eq!(store.users.len(), 1);
    assert_eq!(store.user_roles.len(), 1);

    // Where the second lookup fails too, the flow gives up.
    let state = match AuthFlow::federate("s2".to_string(), "Bo".to_string(), LoginProvider::IAAA) {
        AuthStep::Ask(state, _) => state,
        other => panic!("{:?}", other),
    };
    let state = match state.step(AuthEvent::Store(StoreReply::Failed)) {
        AuthStep::Ask(state, AuthAction::Store(StoreQuery::CreateUser(_))) => state,
        other => panic!("{:?}", other),
    };
    let state = match state.step(AuthEvent::Store(StoreReply::Failed)) {
        AuthStep::Ask(state, AuthAction::Store(StoreQuery::FindUserByUsername(name))) => {
            assert_eq!(name, "s2");
            state
        }
        other => panic!("{:?}", other),
    };
    let end = state.step(AuthEvent::Store(StoreReply::Failed));
    assert!(matches!(end, AuthStep::Done(Err(AuthError::InternalServerError(m))) if m == "Failed to create user"));
}

#[test]
fn store_failures_while_provisioning_are_internal_errors() {
    let state = AuthFlow::CreatingMemberRole { user_id: "u".to_string() };
    let end = state.step(AuthEvent::Store(StoreReply::Failed));
    assert!(matches!(end, AuthStep::Done(Err(AuthError::InternalServerError(m))) if m == "Failed to create role"));
    let state = AuthFlow::AssigningMember { user_id: "u".to_string() };
    let end = state.step(AuthEvent::Store(StoreReply::Failed));
    assert!(matches!(end, AuthStep::Done(Err(AuthError::InternalServerError(m))) if m == "Failed to create user role"));
    let state = AuthFlow::CreatingAccount;
    let end = state.step(AuthEvent::Store(StoreReply::Failed));
    assert!(matches!(end, AuthStep::Done(Err(AuthError::InternalServerError(m))) if m == "Failed to create user"));
    let state = AuthFlow::LoadingUserRoles { user_id: "u".to_string() };
    let end = state.step(AuthEvent::Store(StoreReply::Failed));
    assert!(matches!(end, AuthStep::Done(Err(AuthError::Unauthorized(m))) if m == "Invalid username or password"));
    let state = AuthFlow::LoadingRoles { user_id: "u".to_string() };
    let end = state.step(AuthEvent::Store(StoreReply::Failed));
    assert!(matches!(end, AuthStep::Done(Err(AuthError::Unauthorized(m))) if m == "Invalid username or password"));
}

#[test]
fn validate_signs_the_canonical_query() {
    let request =
        validate("1.2.3.4".to_string(), "app".to_string(), "key".to_string(), "tok".to_string());
    assert_eq!(request.endpoint, "https://iaaa.pku.edu.cn/iaaa/svc/token/validate.do");
    assert_eq!(request.app_id, "app");
    assert_eq!(request.remote_addr, "1.2.3.4");
    assert_eq!(request.token, "tok");
    assert_eq!(request.msg_abs, "422530b9b1813d84ea4013eeb2baa8c0");
    assert_eq!(
        request.url(),
        "https://iaaa.pku.edu.cn/iaaa/svc/token/validate.do?appId=app&remoteAddr=1.2.3.4&token=tok&msgAbs=422530b9b1813d84ea4013eeb2baa8c0"
    );
}

#[test]
fn external_login_asks_the_validator() {
    let iaaa = IaaaAuthProvider::new("app".to_string(), "key".to_string(), Some("true"));
    assert!(iaaa.enable_mfa());
    assert_eq!(iaaa.name(), "iaaa");
    let step = iaaa.login(Payload::Token("tok".to_string()), Some("1.2.3.4".to_string()));
    match step {
        AuthStep::Ask(AuthFlow::Validating { provider }, AuthAction::Validate(request)) => {
            assert_eq!(provider, LoginProvider::IAAA);
            assert_eq!(request.msg_abs, "422530b9b1813d84ea4013eeb2baa8c0");
            assert_eq!(request.endpoint, "https://iaaa.pku.edu.cn/iaaa/svc/token/validate.do");
        }
        other => panic!("{:?}", other),
    }

    let lcpu = LcpuAuthProvider::new(
        "lc".to_string(),
        "s3".to_string(),
        "https://lcpu.example".to_string(),
        None,
    );
    assert!(!lcpu.enable_mfa());
    assert_eq!(lcpu.name(), "lcpu");
    let step = lcpu.login(Payload::Token("t0".to_string()), Some("10.0.0.1".to_string()));
    match step {
        AuthStep::Ask(AuthFlow::Validating { provider }, AuthAction::Validate(request)) => {
            assert_eq!(provider, LoginProvider::LCPU);
            assert_eq!(
                request.endpoint,
                "https://lcpu.example/api/oauth/iaaa_compat/svc/token/validate.do"
            );
            assert_eq!(request.app_id, "lc");
            assert_eq!(request.remote_addr, "10.0.0.1");
            assert_eq!(request.token, "t0");
            assert_eq!(request.msg_abs, "9871063348694b903d5bba00e1f58d39");
        }
        other => panic!("{:?}", other),
    }
}

#[test]
fn external_login_needs_a_token_and_an_address() {
    let iaaa = IaaaAuthProvider::new("app".to_string(), "key".to_string(), None);
    let step = iaaa.login(Payload::Invalid, Some("1.2.3.4".to_string()));
    assert!(matches!(step, AuthStep::Done(Err(AuthError::BadRequest(m))) if m == "Token is required"));
    let step = iaaa.login(password_payload("a", "b"), Some("1.2.3.4".to_string()));
    assert!(matches!(step, AuthStep::Done(Err(AuthError::BadRequest(m))) if m == "Token is required"));
    let step = iaaa.login(Payload::Token("tok".to_string()), None);
    assert!(matches!(step, AuthStep::Done(Err(AuthError::Unauthorized(m))) if m == "No ip address"));
}

#[test]
fn a_refused_token_creates_no_account() {
    let mut store = MemStore::default();
    for provider in [LoginProvider::IAAA, LoginProvider::LCPU] {
        let state = AuthFlow::Validating { provider };
        let step = state.step(AuthEvent::Validation(Ok(response(false, "2200088888", "Tom"))));
        let err = drive(&mut store, step).unwrap_err();
        assert!(matches!(&err, AuthError::Unauthorized(m) if m == "Fail to authorize"));
        let state = AuthFlow::Validating { provider };
        let step = state.step(AuthEvent::Validation(Err(IaaaError::Get("timed out".to_string()))));
        let err = drive(&mut store, step).unwrap_err();
        assert!(matches!(&err, AuthError::Unauthorized(m) if m == "Fail to validate"));
    }
    assert!(store.queries.is_empty());
    assert!(store.users.is_empty());
}

#[test]
fn an_accepted_token_is_federated() {
    let mut store = MemStore::default();
    let state = AuthFlow::Validating { provider: LoginProvider::IAAA };
    let step = state.step(AuthEvent::Validation(Ok(response(true, "2200088888", "Tom"))));
    let (id, roles) = drive(&mut store, step).unwrap();
    assert_eq!(roles, vec!["member".to_string()]);
    assert_eq!(store.users.len(), 1);
    assert_eq!(store.users[0].id, id);
    assert!(response(true, "x", "y").is_success());
    assert!(!response(false, "x", "y").is_success());
}

#[test]
fn external_providers_do_not_register() {
    let iaaa = IaaaAuthProvider::new("app".to_string(), "key".to_string(), None);
    let step = iaaa.register(Payload::Token("tok".to_string()));
    assert!(matches!(step, AuthStep::Done(Err(AuthError::InternalServerError(m))) if m == "IAAA should not call register!"));
    let lcpu = LcpuAuthProvider::new("a".to_string(), "b".to_string(), "c".to_string(), None);
    let step = lcpu.register(Payload::Token("tok".to_string()));
    assert!(matches!(step, AuthStep::Done(Err(AuthError::InternalServerError(m))) if m == "LCPU should not call register!"));
}

#[test]
fn a_new_password_is_hashed_with_cost_ten() {
    let state =
        AuthFlow::CheckingUnused { username: "alice".to_string(), password: "secret123".to_string() };
    let found_nothing = AuthEvent::Store(StoreReply::Failed);
    assert_eq!(state.hashing_asked(&found_nothing), Some(("secret123", 10)));
    let taken = AuthEvent::Store(StoreReply::User(User {
        id: "u".to_string(),
        username: "alice".to_string(),
        login_provider: LoginProvider::PASSWORD,
        name: None,
        email: None,
        password: None,
    }));
    assert_eq!(state.hashing_asked(&taken), None);
    let other = AuthFlow::FindingAccount { password: "secret123".to_string() };
    assert_eq!(other.hashing_asked(&found_nothing), None);
    match state.password_work(&found_nothing) {
        PasswordWork::Hashed(Some(hash)) => {
            assert_eq!(hash.len(), 60);
            assert_eq!(&hash[..7], "$2b$10$");
        }
        other => panic!("{:?}", other),
    }
    assert!(matches!(state.password_work(&taken), PasswordWork::NotNeeded));
}

#[test]
fn a_flow_says_how_its_transaction_ends() {
    let mut store = MemStore::default();
    let first = AuthFlow::federate("s1".to_string(), "Ann".to_string(), LoginProvider::IAAA);
    assert_eq!(first.settle(), None);
    let done = AuthStep::Done(drive(&mut store, first));
    assert_eq!(done.settle(), Some(Settle::Commit));
    let failed = AuthFlow::AssigningMember { user_id: "u".to_string() }
        .step(AuthEvent::Store(StoreReply::Failed));
    assert_eq!(failed.settle(), Some(Settle::RollBack));
}

#[test]
fn a_failed_link_ends_the_first_login_as_an_internal_error() {
    // The account is made, the role is found, the link fails: the flow says
    // to roll back, so that no account stays without its role.
    let mut store = MemStore::default();
    store.roles.push(Role { id: "r-member".to_string(), name: "member".to_string() });
    let mut step = AuthFlow::federate("s1".to_string(), "Ann".to_string(), LoginProvider::IAAA);
    let mut asked = 0;
    let end = loop {
        step = match step {
            AuthStep::Ask(state, AuthAction::Store(query)) => {
                asked += 1;
                let reply = match query {
                    StoreQuery::CreateUserRole { .. } => StoreReply::Failed,
                    other => store.apply(other),
                };
                state.step(AuthEvent::Store(reply))
            }
            other => break other,
        };
    };
    assert_eq!(asked, 4);
    assert_eq!(end.settle(), Some(Settle::RollBack));
    assert!(matches!(end, AuthStep::Done(Err(AuthError::InternalServerError(m))) if m == "Failed to create user role"));
}
