//! What the flows do to a store that keeps its promises: every flow comes to
//! an end, an external identity gets exactly one account, and a registered
//! account holds the default role.

use vstd::prelude::*;
use crate::auth::iaaa::IAAAValidateResponseView;
use crate::auth::ask_store;
use crate::auth::find_identity;
use crate::auth::denied;
use crate::auth::find_member_role;
use crate::auth::link_role_ids;
use crate::auth::load_user_roles;
use crate::auth::member;
use crate::auth::role_names;
use crate::auth::settle_spec;
use crate::auth::Settle;
use crate::auth::password::all_numeric;
use crate::auth::password::bcrypt_verify_result;
use crate::auth::password::hash_cost;
use crate::auth::password::password_login;
use crate::auth::password::password_register;
use crate::auth::step_spec;
use crate::auth::work_fits;
use crate::auth::AuthActionView;
use crate::auth::AuthErrorView;
use crate::auth::AuthEventView;
use crate::auth::AuthFlowView;
use crate::auth::AuthStepView;
use crate::auth::PasswordWorkView;
use crate::auth::PayloadView;
use crate::db::has_role_named;
use crate::db::has_user;
use crate::db::lemma_apply_keeps_wf;
use crate::db::lemma_created_user_is_found;
use crate::db::lemma_filter_nothing;
use crate::db::lemma_filter_one;
use crate::db::the_role;
use crate::db::the_user;
use crate::db::StoreModel;
use crate::db::StoreQueryView;
use crate::db::StoreReplyView;
use crate::models::LoginProvider;
use crate::models::NewUserView;
use crate::models::RoleView;
use crate::models::UserRoleView;

verus! {

/// The outcome of the password hashing that a move calls for, where `hash`
/// is what hashing a new password gives (nothing where it fails).
pub open spec fn work_of(state: AuthFlowView, event: AuthEventView, hash: Option<Seq<char>>) -> PasswordWorkView {
    match state {
        AuthFlowView::FindingAccount { password } => match event {
            AuthEventView::Store(StoreReplyView::User(u)) => match u.password {
                Some(h) => PasswordWorkView::Checked(bcrypt_verify_result(password, h) == Some(true)),
                None => PasswordWorkView::NotNeeded,
            },
            _ => PasswordWorkView::NotNeeded,
        },
        AuthFlowView::CheckingUnused { .. } => match event {
            AuthEventView::Store(StoreReplyView::User(_)) => PasswordWorkView::NotNeeded,
            _ => PasswordWorkView::Hashed(hash),
        },
        _ => PasswordWorkView::NotNeeded,
    }
}

/// What a run takes the password hashing to say is something the hash
/// function may say: every move of a run is a move that `step` can make.
pub proof fn lemma_work_of_fits(state: AuthFlowView, event: AuthEventView, hash: Option<Seq<char>>)
    requires
        match (state, hash) {
            (AuthFlowView::CheckingUnused { password, .. }, Some(h)) => bcrypt_verify_result(password, h)
                == Some(true) && hash_cost(h) == Some(10int),
            _ => true,
        },
    ensures
        work_fits(state, event, work_of(state, event, hash)),
{
}

/// The most store queries a flow makes.
pub open spec fn max_queries() -> nat {
    5
}

/// Carries a flow on against the store for at most `fuel` queries: each
/// query is put to the store and the flow moves on the reply. The id of a
/// row made by the query with `n` queries still allowed is `fresh(n)`.
/// Returns the store as the flow left it and the move the flow stopped at.
pub open spec fn run(
    store: StoreModel,
    step: AuthStepView,
    hash: Option<Seq<char>>,
    fresh: spec_fn(nat) -> Seq<char>,
    fuel: nat,
) -> (StoreModel, AuthStepView)
    decreases fuel,
{
    if fuel == 0 {
        (store, step)
    } else {
        match step {
            AuthStepView::Ask(state, AuthActionView::Store(query)) => {
                let (after, reply) = store.apply(query, fresh(fuel));
                let event = AuthEventView::Store(reply);
                run(
                    after,
                    step_spec(state, event, work_of(state, event, hash)),
                    hash,
                    fresh,
                    (fuel - 1) as nat,
                )
            },
            _ => (store, step),
        }
    }
}

/// Whether a move is the first move of some flow or follows from one: the
/// number of queries that can still follow it.
pub open spec fn queries_left(step: AuthStepView) -> nat {
    match step {
        AuthStepView::Ask(state, AuthActionView::Store(_)) => match state {
            AuthFlowView::Validating { .. } => 0,
            AuthFlowView::FindingIdentity { .. } => 5,
            AuthFlowView::CreatingIdentity { .. } => 4,
            AuthFlowView::RetryingIdentity => 3,
            AuthFlowView::FindingMemberRole { .. } => 3,
            AuthFlowView::CreatingMemberRole { .. } => 2,
            AuthFlowView::AssigningMember { .. } => 1,
            AuthFlowView::LoadingUserRoles { .. } => 2,
            AuthFlowView::LoadingRoles { .. } => 1,
            AuthFlowView::FindingAccount { .. } => 3,
            AuthFlowView::CheckingUnused { .. } => 5,
            AuthFlowView::CreatingAccount => 4,
        },
        _ => 0,
    }
}

/// Every move leads to one with fewer queries left, whatever the reply and
/// whatever the password hashing said: no flow asks the store more than
/// five times, and a failed creation is retried as a lookup only once.
pub proof fn lemma_flows_are_bounded(
    state: AuthFlowView,
    query: StoreQueryView,
    event: AuthEventView,
    work: PasswordWorkView,
)
    requires
        !(state is Validating),
    ensures
        queries_left(step_spec(state, event, work)) < queries_left(
            AuthStepView::Ask(state, AuthActionView::Store(query)),
        ),
        queries_left(AuthStepView::Ask(state, AuthActionView::Store(query))) <= max_queries(),
{
}

/// The names of the roles that the store holds for an account, as a flow
/// reads them: the roles behind the account's links.
pub open spec fn roles_of(store: StoreModel, user_id: Seq<char>) -> Seq<Seq<char>> {
    role_names(store.roles_with_ids(link_role_ids(store.links_of(user_id))))
}

/// One query of a run: the store answers, the flow moves, the run goes on.
pub proof fn lemma_run_ask(
    store: StoreModel,
    state: AuthFlowView,
    query: StoreQueryView,
    hash: Option<Seq<char>>,
    fresh: spec_fn(nat) -> Seq<char>,
    fuel: nat,
)
    requires
        fuel > 0,
    ensures
        run(store, ask_store(state, query), hash, fresh, fuel) == ({
            let (after, reply) = store.apply(query, fresh(fuel));
            let event = AuthEventView::Store(reply);
            run(
                after,
                step_spec(state, event, work_of(state, event, hash)),
                hash,
                fresh,
                (fuel - 1) as nat,
            )
        }),
{
}

/// A run stops where the flow has ended.
pub proof fn lemma_run_done(
    store: StoreModel,
    result: Result<(Seq<char>, Seq<Seq<char>>), AuthErrorView>,
    hash: Option<Seq<char>>,
    fresh: spec_fn(nat) -> Seq<char>,
    fuel: nat,
)
    ensures
        run(store, AuthStepView::Done(result), hash, fresh, fuel) == (store, AuthStepView::Done(result)),
{
}

/// Loading the roles of a known account takes two queries, changes nothing
/// and ends with the account's id and the roles the store holds for it.
pub proof fn lemma_loading_roles_ends(
    store: StoreModel,
    user_id: Seq<char>,
    hash: Option<Seq<char>>,
    fresh: spec_fn(nat) -> Seq<char>,
    fuel: nat,
)
    requires
        fuel >= 2,
    ensures
        run(store, load_user_roles(user_id), hash, fresh, fuel) == (
            store,
            AuthStepView::Done(Ok((user_id, roles_of(store, user_id)))),
        ),
{
    lemma_run_ask(
        store,
        AuthFlowView::LoadingUserRoles { user_id },
        StoreQueryView::FindUserRolesByUser(user_id),
        hash,
        fresh,
        fuel,
    );
    let ids = link_role_ids(store.links_of(user_id));
    lemma_run_ask(
        store,
        AuthFlowView::LoadingRoles { user_id },
        StoreQueryView::FindRolesByIds(ids),
        hash,
        fresh,
        (fuel - 1) as nat,
    );
    lemma_run_done(store, Ok((user_id, roles_of(store, user_id))), hash, fresh, (fuel - 2) as nat);
}

/// Giving a new account the default role takes at most three queries and
/// ends with the account's id and exactly that role; it makes the role
/// where the store has none of that name, makes one link, and touches no
/// account.
pub proof fn lemma_provisioning_ends(
    store: StoreModel,
    user_id: Seq<char>,
    hash: Option<Seq<char>>,
    fresh: spec_fn(nat) -> Seq<char>,
    fuel: nat,
)
    requires
        store.wf(),
        fuel >= 3,
    ensures
        ({
            let (after, end) = run(store, find_member_role(user_id), hash, fresh, fuel);
            &&& end == AuthStepView::Done(Ok((user_id, seq![member()])))
            &&& after.wf()
            &&& after.users == store.users
            &&& has_role_named(after.roles, member())
            &&& after.user_roles.len() == store.user_roles.len() + 1
            &&& after.user_roles.last().user_id == user_id
            &&& after.user_roles.last().role_id == the_role(after.roles, member()).id
            &&& after.user_roles.drop_last() == store.user_roles
            &&& has_role_named(store.roles, member()) ==> after.roles == store.roles
            &&& !has_role_named(store.roles, member()) ==> after.roles == store.roles.push(
                RoleView { id: fresh((fuel - 1) as nat), name: member() },
            )
        }),
{
    lemma_run_ask(
        store,
        AuthFlowView::FindingMemberRole { user_id },
        StoreQueryView::FindRoleByName(member()),
        hash,
        fresh,
        fuel,
    );
    if has_role_named(store.roles, member()) {
        let role = the_role(store.roles, member());
        lemma_run_ask(
            store,
            AuthFlowView::AssigningMember { user_id },
            StoreQueryView::CreateUserRole { user_id, role_id: role.id },
            hash,
            fresh,
            (fuel - 1) as nat,
        );
        let (after, _) = store.apply(
            StoreQueryView::CreateUserRole { user_id, role_id: role.id },
            fresh((fuel - 1) as nat),
        );
        lemma_run_done(after, Ok((user_id, seq![member()])), hash, fresh, (fuel - 2) as nat);
        assert(after.user_roles.drop_last() =~= store.user_roles);
    } else {
        lemma_run_ask(
            store,
            AuthFlowView::CreatingMemberRole { user_id },
            StoreQueryView::CreateRole(member()),
            hash,
            fresh,
            (fuel - 1) as nat,
        );
        let role = RoleView { id: fresh((fuel - 1) as nat), name: member() };
        let (made, _) = store.apply(StoreQueryView::CreateRole(member()), fresh((fuel - 1) as nat));
        lemma_apply_keeps_wf(store, StoreQueryView::CreateRole(member()), fresh((fuel - 1) as nat));
        assert(made.roles[store.roles.len() as int] == role);
        assert(has_role_named(made.roles, member()));
        assert(the_role(made.roles, member()) == role) by {
            let found = choose|i: int|
                0 <= i < made.roles.len() && (#[trigger] made.roles[i]).name == member();
            if found < store.roles.len() {
                assert(store.roles[found].name == member());
            }
        }
        lemma_run_ask(
            made,
            AuthFlowView::AssigningMember { user_id },
            StoreQueryView::CreateUserRole { user_id, role_id: role.id },
            hash,
            fresh,
            (fuel - 2) as nat,
        );
        let (after, _) = made.apply(
            StoreQueryView::CreateUserRole { user_id, role_id: role.id },
            fresh((fuel - 2) as nat),
        );
        lemma_run_done(after, Ok((user_id, seq![member()])), hash, fresh, (fuel - 3) as nat);
        assert(after.user_roles.drop_last() =~= store.user_roles);
    }
}

/// Federating an external identity against a store that keeps its promises
/// succeeds. Where the store has an account for the identity key, nothing
/// changes and the account's id and roles are returned. Where it has none,
/// one account is made and the default role is returned. Either way the
/// store then holds the account whose id is returned.
pub proof fn lemma_federation_succeeds(
    store: StoreModel,
    identity: Seq<char>,
    name: Seq<char>,
    provider: LoginProvider,
    fresh: spec_fn(nat) -> Seq<char>,
)
    requires
        store.wf(),
    ensures
        ({
            let (after, end) = run(store, find_identity(identity, name, provider), None, fresh, max_queries());
            &&& after.wf()
            &&& end matches AuthStepView::Done(Ok((id, roles)))
            &&& has_user(after.users, identity)
            &&& the_user(after.users, identity).id == id
            &&& (has_user(store.users, identity) ==> after == store && roles == roles_of(store, id))
            &&& (!has_user(store.users, identity) ==> after.users.len() == store.users.len() + 1
                && roles == seq![member()])
        }),
{
    lemma_run_ask(
        store,
        AuthFlowView::FindingIdentity { identity, name, provider },
        StoreQueryView::FindUserByUsername(identity),
        None,
        fresh,
        5,
    );
    if has_user(store.users, identity) {
        lemma_loading_roles_ends(store, the_user(store.users, identity).id, None, fresh, 4);
    } else {
        let new_user = NewUserView {
            username: identity,
            login_provider: provider,
            name: Some(name),
            password: None,
        };
        lemma_run_ask(
            store,
            AuthFlowView::CreatingIdentity { identity },
            StoreQueryView::CreateUser(new_user),
            None,
            fresh,
            4,
        );
        lemma_created_user_is_found(store, new_user, fresh(4));
        lemma_apply_keeps_wf(store, StoreQueryView::CreateUser(new_user), fresh(4));
        let (made, _) = store.apply(StoreQueryView::CreateUser(new_user), fresh(4));
        lemma_provisioning_ends(made, fresh(4), None, fresh, 3);
    }
}

/// Whether the ids that the store gives to the account and to the role
/// that a first login may make are in use nowhere: no link speaks of the
/// account's id, no role has the role's id.
pub open spec fn ids_unused(store: StoreModel, fresh: spec_fn(nat) -> Seq<char>) -> bool {
    &&& forall|i: int|
        0 <= i < store.user_roles.len() ==> (#[trigger] store.user_roles[i]).user_id != fresh(4)
    &&& forall|i: int| 0 <= i < store.roles.len() ==> (#[trigger] store.roles[i]).id != fresh(2)
}

/// Idempotence: federating the same identity key a second time returns the
/// id that the first time returned, and leaves the store as the first time
/// left it, so that it holds no second account for the key. The roles
/// returned are the same too, where the account was there before, or where
/// the store gives the new rows ids that are not in use.
pub proof fn lemma_federation_idempotent(
    store: StoreModel,
    identity: Seq<char>,
    name: Seq<char>,
    provider: LoginProvider,
    first_ids: spec_fn(nat) -> Seq<char>,
    second_ids: spec_fn(nat) -> Seq<char>,
)
    requires
        store.wf(),
    ensures
        ({
            let (once, first) = run(
                store,
                find_identity(identity, name, provider),
                None,
                first_ids,
                max_queries(),
            );
            let (twice, second) = run(
                once,
                find_identity(identity, name, provider),
                None,
                second_ids,
                max_queries(),
            );
            &&& first matches AuthStepView::Done(Ok((first_id, _)))
            &&& second matches AuthStepView::Done(Ok((second_id, _)))
            &&& first_id == second_id
            &&& twice == once
            &&& (has_user(store.users, identity) || (role_ids_differ(store.roles) && ids_unused(
                store,
                first_ids,
            ))) ==> second == first
        }),
{
    lemma_federation_succeeds(store, identity, name, provider, first_ids);
    let (once, first) = run(store, find_identity(identity, name, provider), None, first_ids, max_queries());
    lemma_federation_succeeds(once, identity, name, provider, second_ids);
    if !has_user(store.users, identity) && role_ids_differ(store.roles) && ids_unused(store, first_ids) {
        lemma_first_and_later_logins_agree(store, identity, name, provider, first_ids, second_ids);
    }
}

/// The first move of a registration that is allowed, with a username and a
/// password.
pub open spec fn registration(username: Seq<char>, password: Seq<char>) -> AuthStepView {
    password_register(true, PayloadView::Password { username, password })
}

/// Registration under a free username that is not all numeric, where
/// hashing the password succeeds, succeeds against a store that keeps its
/// promises: the account is made for local passwords with the hash as its
/// password, and the roles returned are exactly the default role.
pub proof fn lemma_registration_gives_member(
    store: StoreModel,
    username: Seq<char>,
    password: Seq<char>,
    hash: Seq<char>,
    fresh: spec_fn(nat) -> Seq<char>,
)
    requires
        store.wf(),
        !all_numeric(username),
        !has_user(store.users, username),
    ensures
        ({
            let (after, end) = run(store, registration(username, password), Some(hash), fresh, max_queries());
            &&& after.wf()
            &&& end matches AuthStepView::Done(Ok((id, roles)))
            &&& roles == seq![member()]
            &&& has_user(after.users, username)
            &&& the_user(after.users, username).id == id
            &&& the_user(after.users, username).password == Some(hash)
            &&& the_user(after.users, username).login_provider == LoginProvider::PASSWORD
            &&& after.users.len() == store.users.len() + 1
        }),
{
    lemma_run_ask(
        store,
        AuthFlowView::CheckingUnused { username, password },
        StoreQueryView::FindUserByUsername(username),
        Some(hash),
        fresh,
        5,
    );
    let new_user = NewUserView {
        username,
        login_provider: LoginProvider::PASSWORD,
        name: None,
        password: Some(hash),
    };
    lemma_run_ask(
        store,
        AuthFlowView::CreatingAccount,
        StoreQueryView::CreateUser(new_user),
        Some(hash),
        fresh,
        4,
    );
    lemma_created_user_is_found(store, new_user, fresh(4));
    lemma_apply_keeps_wf(store, StoreQueryView::CreateUser(new_user), fresh(4));
    let (made, _) = store.apply(StoreQueryView::CreateUser(new_user), fresh(4));
    lemma_provisioning_ends(made, fresh(4), Some(hash), fresh, 3);
}

/// A username that is all numeric is turned down as a bad request before
/// the store is asked anything, whatever the password, wherever
/// registration is allowed at all.
pub proof fn lemma_numeric_usernames_rejected(
    store: StoreModel,
    username: Seq<char>,
    password: Seq<char>,
    hash: Option<Seq<char>>,
    fresh: spec_fn(nat) -> Seq<char>,
    fuel: nat,
)
    requires
        all_numeric(username),
    ensures
        registration(username, password) == AuthStepView::Done(
            Err(AuthErrorView::BadRequest("Username cannot be all numbers"@)),
        ),
        run(store, registration(username, password), hash, fresh, fuel).0 == store,
{
}

/// A token that the validator does not accept ends the login as
/// unauthorized, and the store is never asked to make an account.
pub proof fn lemma_refused_token_creates_nothing(
    store: StoreModel,
    provider: LoginProvider,
    identity_id: Seq<char>,
    name: Seq<char>,
    work: PasswordWorkView,
    hash: Option<Seq<char>>,
    fresh: spec_fn(nat) -> Seq<char>,
    fuel: nat,
)
    ensures
        ({
            let refused = IAAAValidateResponseView {
                success: false,
                identity_id,
                name,
            };
            let step = step_spec(
                AuthFlowView::Validating { provider },
                AuthEventView::Validation(Some(refused)),
                work,
            );
            &&& step == AuthStepView::Done(Err(AuthErrorView::Unauthorized("Fail to authorize"@)))
            &&& run(store, step, hash, fresh, fuel).0 == store
        }),
{
}

/// The first move of a password login with a username and a password.
pub open spec fn login(username: Seq<char>, password: Seq<char>) -> AuthStepView {
    password_login(PayloadView::Password { username, password })
}

/// Logging in with the username of an account and a password that its
/// stored hash accepts succeeds with the account's id and the roles the
/// store holds for it, and changes nothing in the store.
pub proof fn lemma_login_succeeds(
    store: StoreModel,
    username: Seq<char>,
    password: Seq<char>,
    fresh: spec_fn(nat) -> Seq<char>,
)
    requires
        username.len() > 0,
        password.len() > 0,
        has_user(store.users, username),
        the_user(store.users, username).password matches Some(h) && bcrypt_verify_result(password, h)
            == Some(true),
    ensures
        ({
            let id = the_user(store.users, username).id;
            run(store, login(username, password), None, fresh, max_queries()) == (
                store,
                AuthStepView::Done(Ok((id, roles_of(store, id)))),
            )
        }),
{
    lemma_run_ask(
        store,
        AuthFlowView::FindingAccount { password },
        StoreQueryView::FindUserByUsername(username),
        None,
        fresh,
        5,
    );
    lemma_loading_roles_ends(store, the_user(store.users, username).id, None, fresh, 4);
}

/// After a registration, logging in with the same username and password
/// returns the id that the registration returned and changes nothing in the
/// store. The hash is any that the hash function accepts for the password.
pub proof fn lemma_login_after_registration(
    store: StoreModel,
    username: Seq<char>,
    password: Seq<char>,
    hash: Seq<char>,
    first_ids: spec_fn(nat) -> Seq<char>,
    second_ids: spec_fn(nat) -> Seq<char>,
)
    requires
        store.wf(),
        !all_numeric(username),
        !has_user(store.users, username),
        username.len() > 0,
        password.len() > 0,
        bcrypt_verify_result(password, hash) == Some(true),
    ensures
        ({
            let (after, registered) = run(
                store,
                registration(username, password),
                Some(hash),
                first_ids,
                max_queries(),
            );
            let (last, logged_in) = run(after, login(username, password), None, second_ids, max_queries());
            &&& registered matches AuthStepView::Done(Ok((registered_id, _)))
            &&& logged_in matches AuthStepView::Done(Ok((login_id, _)))
            &&& registered_id == login_id
            &&& last == after
        }),
{
    lemma_registration_gives_member(store, username, password, hash, first_ids);
    let (after, registered) = run(
        store,
        registration(username, password),
        Some(hash),
        first_ids,
        max_queries(),
    );
    lemma_login_succeeds(after, username, password, second_ids);
}

/// A password login fails in one and the same way, whether no account goes
/// by the username, the account has no password, or the password does not
/// match: nothing in the answer tells which, and the store is left as it was.
pub proof fn lemma_failed_logins_look_alike(
    store: StoreModel,
    username: Seq<char>,
    password: Seq<char>,
    fresh: spec_fn(nat) -> Seq<char>,
)
    requires
        username.len() > 0,
        password.len() > 0,
        !has_user(store.users, username) || (match the_user(store.users, username).password {
            Some(h) => bcrypt_verify_result(password, h) != Some(true),
            None => true,
        }),
    ensures
        run(store, login(username, password), None, fresh, max_queries()) == (store, denied()),
{
    lemma_run_ask(
        store,
        AuthFlowView::FindingAccount { password },
        StoreQueryView::FindUserByUsername(username),
        None,
        fresh,
        5,
    );
    lemma_run_done(
        store,
        Err(AuthErrorView::Unauthorized("Invalid username or password"@)),
        None,
        fresh,
        4,
    );
}

/// The move of a flow that found no account for an identity and now asks
/// the store to make one.
pub open spec fn creating_identity(identity: Seq<char>, name: Seq<char>, provider: LoginProvider) -> AuthStepView {
    ask_store(
        AuthFlowView::CreatingIdentity { identity },
        StoreQueryView::CreateUser(
            NewUserView {
                username: identity,
                login_provider: provider,
                name: Some(name),
                password: None,
            },
        ),
    )
}

/// Where several first logins for one identity race, the store lets one of
/// them make the account. A flow that lost, because the account was made
/// between its lookup and its own attempt, ends exactly as a flow that
/// starts afterwards: with the id of that one account and the roles the
/// store holds for it, and without a second account.
pub proof fn lemma_race_loser_finds_the_account(
    store: StoreModel,
    identity: Seq<char>,
    name: Seq<char>,
    provider: LoginProvider,
    fresh: spec_fn(nat) -> Seq<char>,
    later: spec_fn(nat) -> Seq<char>,
)
    requires
        store.wf(),
        has_user(store.users, identity),
    ensures
        ({
            let id = the_user(store.users, identity).id;
            let end = AuthStepView::Done(Ok((id, roles_of(store, id))));
            &&& run(store, creating_identity(identity, name, provider), None, fresh, 4) == (store, end)
            &&& run(store, find_identity(identity, name, provider), None, later, max_queries()) == (
                store,
                end,
            )
        }),
{
    let new_user = NewUserView {
        username: identity,
        login_provider: provider,
        name: Some(name),
        password: None,
    };
    let id = the_user(store.users, identity).id;
    lemma_run_ask(
        store,
        AuthFlowView::CreatingIdentity { identity },
        StoreQueryView::CreateUser(new_user),
        None,
        fresh,
        4,
    );
    lemma_run_ask(
        store,
        AuthFlowView::RetryingIdentity,
        StoreQueryView::FindUserByUsername(identity),
        None,
        fresh,
        3,
    );
    lemma_loading_roles_ends(store, id, None, fresh, 2);
    lemma_run_ask(
        store,
        AuthFlowView::FindingIdentity { identity, name, provider },
        StoreQueryView::FindUserByUsername(identity),
        None,
        later,
        5,
    );
    lemma_loading_roles_ends(store, id, None, later, 4);
}

/// Whether no two roles of the store share an id.
pub open spec fn role_ids_differ(roles: Seq<RoleView>) -> bool {
    forall|i: int, j: int|
        0 <= i < roles.len() && 0 <= j < roles.len() && (#[trigger] roles[i]).id == (
        #[trigger] roles[j]).id ==> i == j
}

/// An account with a single link, to the default role, reads back exactly
/// that role.
pub proof fn lemma_single_member_link_reads_member(store: StoreModel, user_id: Seq<char>)
    requires
        role_ids_differ(store.roles),
        has_role_named(store.roles, member()),
        store.user_roles.len() > 0,
        store.user_roles.last().user_id == user_id,
        store.user_roles.last().role_id == the_role(store.roles, member()).id,
        forall|i: int|
            0 <= i < store.user_roles.len() - 1 ==> (#[trigger] store.user_roles[i]).user_id != user_id,
    ensures
        roles_of(store, user_id) == seq![member()],
        store.links_of(user_id) == seq![store.user_roles.last()],
{
    let links = store.user_roles;
    let mine = |l: UserRoleView| l.user_id == user_id;
    lemma_filter_one(links, mine, links.len() - 1);
    assert(store.links_of(user_id) == seq![links.last()]);
    let ids = link_role_ids(store.links_of(user_id));
    let role = the_role(store.roles, member());
    assert(ids =~= seq![role.id]);
    let k = choose|i: int| 0 <= i < store.roles.len() && (#[trigger] store.roles[i]).name == member();
    let wanted = |r: RoleView| ids.contains(r.id);
    assert(ids[0] == role.id);
    assert(wanted(store.roles[k]));
    assert forall|i: int| 0 <= i < store.roles.len() && i != k implies !wanted(
        #[trigger] store.roles[i],
    ) by {
        if ids.contains(store.roles[i].id) {
            let j = choose|j: int| 0 <= j < ids.len() && ids[j] == store.roles[i].id;
            assert(store.roles[i].id == store.roles[k].id);
        }
    }
    lemma_filter_one(store.roles, wanted, k);
    assert(store.roles_with_ids(ids) == seq![role]);
    assert(role_names(seq![role]) =~= seq![member()]);
}

/// The first login for an identity and every login after it return one and
/// the same pair of account id and roles, the default role alone, whether
/// the later flow starts afresh or had looked the identity up before the
/// account was made and now fails to make it again. This holds as long as
/// the store gives new rows ids that are not in use, and of flows whose
/// queries the store takes one flow after the other, as it does where each
/// flow's queries run in one transaction.
pub proof fn lemma_first_and_later_logins_agree(
    store: StoreModel,
    identity: Seq<char>,
    name: Seq<char>,
    provider: LoginProvider,
    first_ids: spec_fn(nat) -> Seq<char>,
    later_ids: spec_fn(nat) -> Seq<char>,
)
    requires
        store.wf(),
        role_ids_differ(store.roles),
        !has_user(store.users, identity),
        ids_unused(store, first_ids),
    ensures
        ({
            let (once, first) = run(
                store,
                find_identity(identity, name, provider),
                None,
                first_ids,
                max_queries(),
            );
            let end = AuthStepView::Done(Ok((first_ids(4), seq![member()])));
            &&& first == end
            &&& run(once, find_identity(identity, name, provider), None, later_ids, max_queries()) == (
                once,
                end,
            )
            &&& run(once, creating_identity(identity, name, provider), None, later_ids, 4) == (once, end)
            &&& once.wf()
            &&& has_user(once.users, identity)
            &&& the_user(once.users, identity).id == first_ids(4)
            &&& once.links_of(first_ids(4)).len() == 1
            &&& once.links_of(first_ids(4))[0].role_id == the_role(once.roles, member()).id
        }),
{
    let new_user = NewUserView {
        username: identity,
        login_provider: provider,
        name: Some(name),
        password: None,
    };
    lemma_run_ask(
        store,
        AuthFlowView::FindingIdentity { identity, name, provider },
        StoreQueryView::FindUserByUsername(identity),
        None,
        first_ids,
        5,
    );
    lemma_run_ask(
        store,
        AuthFlowView::CreatingIdentity { identity },
        StoreQueryView::CreateUser(new_user),
        None,
        first_ids,
        4,
    );
    lemma_created_user_is_found(store, new_user, first_ids(4));
    lemma_apply_keeps_wf(store, StoreQueryView::CreateUser(new_user), first_ids(4));
    let (made, _) = store.apply(StoreQueryView::CreateUser(new_user), first_ids(4));
    lemma_provisioning_ends(made, first_ids(4), None, first_ids, 3);
    let (once, first) = run(made, find_member_role(first_ids(4)), None, first_ids, 3);
    assert(has_user(once.users, identity));
    assert(the_user(once.users, identity).id == first_ids(4));
    assert(role_ids_differ(once.roles));
    assert forall|i: int| 0 <= i < once.user_roles.len() - 1 implies (#[trigger] once.user_roles[i]).user_id
        != first_ids(4) by {
        assert(once.user_roles.drop_last()[i] == once.user_roles[i]);
    }
    lemma_single_member_link_reads_member(once, first_ids(4));
    lemma_race_loser_finds_the_account(once, identity, name, provider, later_ids, later_ids);
}

/// Carries a flow on like `run`, against a store that may fail: the query
/// put to it with `n` queries still allowed fails, and changes nothing,
/// where `n` is among `faults`.
pub open spec fn run_faulty(
    store: StoreModel,
    step: AuthStepView,
    hash: Option<Seq<char>>,
    fresh: spec_fn(nat) -> Seq<char>,
    faults: Set<nat>,
    fuel: nat,
) -> (StoreModel, AuthStepView)
    decreases fuel,
{
    if fuel == 0 {
        (store, step)
    } else {
        match step {
            AuthStepView::Ask(state, AuthActionView::Store(query)) => {
                let (after, reply) = if faults.contains(fuel) {
                    (store, StoreReplyView::Failed)
                } else {
                    store.apply(query, fresh(fuel))
                };
                let event = AuthEventView::Store(reply);
                run_faulty(
                    after,
                    step_spec(state, event, work_of(state, event, hash)),
                    hash,
                    fresh,
                    faults,
                    (fuel - 1) as nat,
                )
            },
            _ => (store, step),
        }
    }
}

/// A flow carried out in its transaction: what the flow wrote stays where
/// the last move commits, and the store is as it was before the flow where
/// the last move rolls back.
pub open spec fn transact(
    store: StoreModel,
    step: AuthStepView,
    hash: Option<Seq<char>>,
    fresh: spec_fn(nat) -> Seq<char>,
    faults: Set<nat>,
    fuel: nat,
) -> (StoreModel, AuthStepView) {
    let (after, end) = run_faulty(store, step, hash, fresh, faults, fuel);
    match settle_spec(end) {
        Some(Settle::RollBack) => (store, end),
        _ => (after, end),
    }
}

/// One query of a run against a store that may fail.
pub proof fn lemma_faulty_ask(
    store: StoreModel,
    state: AuthFlowView,
    query: StoreQueryView,
    hash: Option<Seq<char>>,
    fresh: spec_fn(nat) -> Seq<char>,
    faults: Set<nat>,
    fuel: nat,
)
    requires
        fuel > 0,
    ensures
        run_faulty(store, ask_store(state, query), hash, fresh, faults, fuel) == ({
            let (after, reply) = if faults.contains(fuel) {
                (store, StoreReplyView::Failed)
            } else {
                store.apply(query, fresh(fuel))
            };
            let event = AuthEventView::Store(reply);
            run_faulty(
                after,
                step_spec(state, event, work_of(state, event, hash)),
                hash,
                fresh,
                faults,
                (fuel - 1) as nat,
            )
        }),
{
}

/// A run against a store that may fail stops where the flow has ended.
pub proof fn lemma_faulty_done(
    store: StoreModel,
    result: Result<(Seq<char>, Seq<Seq<char>>), AuthErrorView>,
    hash: Option<Seq<char>>,
    fresh: spec_fn(nat) -> Seq<char>,
    faults: Set<nat>,
    fuel: nat,
)
    ensures
        run_faulty(store, AuthStepView::Done(result), hash, fresh, faults, fuel) == (
            store,
            AuthStepView::Done(result),
        ),
{
}

/// Where no query fails, a run against a store that may fail is a run.
pub proof fn lemma_no_faults_is_run(
    store: StoreModel,
    step: AuthStepView,
    hash: Option<Seq<char>>,
    fresh: spec_fn(nat) -> Seq<char>,
    fuel: nat,
)
    ensures
        run_faulty(store, step, hash, fresh, Set::empty(), fuel) == run(store, step, hash, fresh, fuel),
    decreases fuel,
{
    if fuel > 0 {
        match step {
            AuthStepView::Ask(state, AuthActionView::Store(query)) => {
                let (after, reply) = store.apply(query, fresh(fuel));
                let event = AuthEventView::Store(reply);
                lemma_no_faults_is_run(
                    after,
                    step_spec(state, event, work_of(state, event, hash)),
                    hash,
                    fresh,
                    (fuel - 1) as nat,
                );
            },
            _ => {},
        }
    }
}

/// Giving a new account the default role against a store that may fail
/// either ends well, with the account's id and exactly that role and no
/// account touched, or ends as an internal error.
pub proof fn lemma_faulty_provisioning(
    store: StoreModel,
    user_id: Seq<char>,
    hash: Option<Seq<char>>,
    fresh: spec_fn(nat) -> Seq<char>,
    faults: Set<nat>,
)
    requires
        store.wf(),
    ensures
        ({
            let (after, end) = run_faulty(store, find_member_role(user_id), hash, fresh, faults, 3);
            ||| (end == AuthStepView::Done(Ok((user_id, seq![member()]))) && after.users == store.users
                && after.wf() && after.user_roles.len() == store.user_roles.len() + 1)
            ||| end matches AuthStepView::Done(Err(AuthErrorView::InternalServerError(_)))
        }),
{
    lemma_faulty_ask(
        store,
        AuthFlowView::FindingMemberRole { user_id },
        StoreQueryView::FindRoleByName(member()),
        hash,
        fresh,
        faults,
        3,
    );
    if !faults.contains(3) && has_role_named(store.roles, member()) {
        let role = the_role(store.roles, member());
        let link = StoreQueryView::CreateUserRole { user_id, role_id: role.id };
        lemma_faulty_ask(store, AuthFlowView::AssigningMember { user_id }, link, hash, fresh, faults, 2);
        if faults.contains(2) {
            lemma_faulty_done(
                store,
                Err(AuthErrorView::InternalServerError("Failed to create user role"@)),
                hash,
                fresh,
                faults,
                1,
            );
        } else {
            lemma_faulty_done(
                store.apply(link, fresh(2)).0,
                Ok((user_id, seq![member()])),
                hash,
                fresh,
                faults,
                1,
            );
        }
    } else {
        let make = StoreQueryView::CreateRole(member());
        lemma_faulty_ask(store, AuthFlowView::CreatingMemberRole { user_id }, make, hash, fresh, faults, 2);
        if faults.contains(2) || has_role_named(store.roles, member()) {
            lemma_faulty_done(
                store,
                Err(AuthErrorView::InternalServerError("Failed to create role"@)),
                hash,
                fresh,
                faults,
                1,
            );
        } else {
            let made = store.apply(make, fresh(2)).0;
            lemma_apply_keeps_wf(store, make, fresh(2));
            let link = StoreQueryView::CreateUserRole { user_id, role_id: fresh(2) };
            lemma_faulty_ask(made, AuthFlowView::AssigningMember { user_id }, link, hash, fresh, faults, 1);
        }
    }
}

/// A first login is all or nothing. Whichever of its queries fail, the
/// flow for an identity without an account either ends well, and the store
/// then holds the account with exactly one more role link, or ends as an
/// internal error, and the store is as it was before the flow: no account
/// is left behind without its role.
pub proof fn lemma_first_login_is_all_or_nothing(
    store: StoreModel,
    identity: Seq<char>,
    name: Seq<char>,
    provider: LoginProvider,
    fresh: spec_fn(nat) -> Seq<char>,
    faults: Set<nat>,
)
    requires
        store.wf(),
        !has_user(store.users, identity),
    ensures
        ({
            let (after, end) = transact(
                store,
                find_identity(identity, name, provider),
                None,
                fresh,
                faults,
                max_queries(),
            );
            ||| (end == AuthStepView::Done(Ok((fresh(4), seq![member()]))) && has_user(
                after.users,
                identity,
            ) && the_user(after.users, identity).id == fresh(4) && after.users.len()
                == store.users.len() + 1 && after.user_roles.len() == store.user_roles.len() + 1)
            ||| (end matches AuthStepView::Done(Err(AuthErrorView::InternalServerError(_))) && after
                == store)
        }),
{
    let new_user = NewUserView {
        username: identity,
        login_provider: provider,
        name: Some(name),
        password: None,
    };
    lemma_faulty_ask(
        store,
        AuthFlowView::FindingIdentity { identity, name, provider },
        StoreQueryView::FindUserByUsername(identity),
        None,
        fresh,
        faults,
        5,
    );
    lemma_faulty_ask(
        store,
        AuthFlowView::CreatingIdentity { identity },
        StoreQueryView::CreateUser(new_user),
        None,
        fresh,
        faults,
        4,
    );
    if faults.contains(4) {
        lemma_faulty_ask(
            store,
            AuthFlowView::RetryingIdentity,
            StoreQueryView::FindUserByUsername(identity),
            None,
            fresh,
            faults,
            3,
        );
        lemma_faulty_done(
            store,
            Err(AuthErrorView::InternalServerError("Failed to create user"@)),
            None,
            fresh,
            faults,
            2,
        );
    } else {
        lemma_created_user_is_found(store, new_user, fresh(4));
        lemma_apply_keeps_wf(store, StoreQueryView::CreateUser(new_user), fresh(4));
        let made = store.apply(StoreQueryView::CreateUser(new_user), fresh(4)).0;
        lemma_faulty_provisioning(made, fresh(4), None, fresh, faults);
    }
}

/// A registration is all or nothing. Whichever of its queries fail after
/// the username was found free and the password hashed, the flow either
/// ends well with exactly the default role, and the store then holds the
/// account, or ends as an internal error, and the store is as it was
/// before the flow.
pub proof fn lemma_registration_is_all_or_nothing(
    store: StoreModel,
    username: Seq<char>,
    password: Seq<char>,
    hash: Seq<char>,
    fresh: spec_fn(nat) -> Seq<char>,
    faults: Set<nat>,
)
    requires
        store.wf(),
        !all_numeric(username),
        !has_user(store.users, username),
    ensures
        ({
            let (after, end) = transact(
                store,
                registration(username, password),
                Some(hash),
                fresh,
                faults,
                max_queries(),
            );
            ||| (end == AuthStepView::Done(Ok((fresh(4), seq![member()]))) && has_user(
                after.users,
                username,
            ) && the_user(after.users, username).id == fresh(4) && the_user(
                after.users,
                username,
            ).password == Some(hash) && after.users.len() == store.users.len() + 1)
            ||| (end matches AuthStepView::Done(Err(AuthErrorView::InternalServerError(_))) && after
                == store)
        }),
{
    let new_user = NewUserView {
        username,
        login_provider: LoginProvider::PASSWORD,
        name: None,
        password: Some(hash),
    };
    lemma_faulty_ask(
        store,
        AuthFlowView::CheckingUnused { username, password },
        StoreQueryView::FindUserByUsername(username),
        Some(hash),
        fresh,
        faults,
        5,
    );
    lemma_faulty_ask(
        store,
        AuthFlowView::CreatingAccount,
        StoreQueryView::CreateUser(new_user),
        Some(hash),
        fresh,
        faults,
        4,
    );
    if faults.contains(4) {
        lemma_faulty_done(
            store,
            Err(AuthErrorView::InternalServerError("Failed to create user"@)),
            Some(hash),
            fresh,
            faults,
            3,
        );
    } else {
        lemma_created_user_is_found(store, new_user, fresh(4));
        lemma_apply_keeps_wf(store, StoreQueryView::CreateUser(new_user), fresh(4));
        let made = store.apply(StoreQueryView::CreateUser(new_user), fresh(4)).0;
        lemma_faulty_provisioning(made, fresh(4), Some(hash), fresh, faults);
    }
}

/// The first move of a login that runs beside the first one. One that was
/// early looked the identity up before the account was there, and comes to
/// the store with its own attempt to make the account; one that was not
/// starts with the lookup.
pub open spec fn other_login(early: bool, identity: Seq<char>, name: Seq<char>, provider: LoginProvider) -> AuthStepView {
    if early {
        creating_identity(identity, name, provider)
    } else {
        find_identity(identity, name, provider)
    }
}

/// The queries that a login beside the first one may still make.
pub open spec fn other_fuel(early: bool) -> nat {
    if early {
        4
    } else {
        5
    }
}

/// Carries out, one after the other, the logins that run beside the first
/// one: `early[k]` says whether the `k`-th had looked the identity up
/// before the account was there. Returns the store as they leave it and
/// what each of them returned.
pub open spec fn run_others(
    store: StoreModel,
    identity: Seq<char>,
    name: Seq<char>,
    provider: LoginProvider,
    early: Seq<bool>,
    ids: spec_fn(int) -> spec_fn(nat) -> Seq<char>,
) -> (StoreModel, Seq<AuthStepView>)
    decreases early.len(),
{
    if early.len() == 0 {
        (store, Seq::empty())
    } else {
        let (before, ends) = run_others(store, identity, name, provider, early.drop_last(), ids);
        let (after, end) = run(
            before,
            other_login(early.last(), identity, name, provider),
            None,
            ids(early.len() - 1),
            other_fuel(early.last()),
        );
        (after, ends.push(end))
    }
}

/// Any number of first logins for one new identity, of which the store
/// lets one make the account: that one and every other return the same
/// account id with the default role alone, and in the end the store holds
/// one account for the identity and one role link for it, to the default
/// role. The store takes the flows one after the other, as it does where
/// each flow's queries run in one transaction that a racing creation waits
/// for; which of the others had found no account before the first was done
/// makes no difference. The ids the store gives to new rows are not in use.
pub proof fn lemma_concurrent_first_logins(
    store: StoreModel,
    identity: Seq<char>,
    name: Seq<char>,
    provider: LoginProvider,
    first_ids: spec_fn(nat) -> Seq<char>,
    early: Seq<bool>,
    ids: spec_fn(int) -> spec_fn(nat) -> Seq<char>,
)
    requires
        store.wf(),
        role_ids_differ(store.roles),
        !has_user(store.users, identity),
        ids_unused(store, first_ids),
    ensures
        ({
            let (once, first) = run(
                store,
                find_identity(identity, name, provider),
                None,
                first_ids,
                max_queries(),
            );
            let end = AuthStepView::Done(Ok((first_ids(4), seq![member()])));
            let (last, ends) = run_others(once, identity, name, provider, early, ids);
            &&& first == end
            &&& ends.len() == early.len()
            &&& forall|k: int| 0 <= k < ends.len() ==> ends[k] == end
            &&& last == once
            &&& last.users.len() == store.users.len() + 1
            &&& has_user(last.users, identity)
            &&& forall|i: int|
                0 <= i < last.users.len() && (#[trigger] last.users[i]).username == identity
                    ==> last.users[i] == the_user(last.users, identity)
            &&& the_user(last.users, identity).id == first_ids(4)
            &&& last.links_of(first_ids(4)).len() == 1
            &&& last.links_of(first_ids(4))[0].role_id == the_role(last.roles, member()).id
        }),
    decreases early.len(),
{
    let start = find_identity(identity, name, provider);
    let (once, first) = run(store, start, None, first_ids, max_queries());
    lemma_federation_succeeds(store, identity, name, provider, first_ids);
    if early.len() == 0 {
        lemma_first_and_later_logins_agree(store, identity, name, provider, first_ids, first_ids);
    } else {
        lemma_concurrent_first_logins(store, identity, name, provider, first_ids, early.drop_last(), ids);
        lemma_first_and_later_logins_agree(
            store,
            identity,
            name,
            provider,
            first_ids,
            ids(early.len() - 1),
        );
        lemma_race_loser_finds_the_account(
            once,
            identity,
            name,
            provider,
            ids(early.len() - 1),
            ids(early.len() - 1),
        );
    }
}

/// The hash that a registration asks the store to keep is one that the
/// hash function accepts for the password being registered, and it
/// carries the fixed cost factor of ten.
pub proof fn lemma_registered_hash_has_cost_ten(
    username: Seq<char>,
    password: Seq<char>,
    event: AuthEventView,
    work: PasswordWorkView,
)
    requires
        work_fits(AuthFlowView::CheckingUnused { username, password }, event, work),
    ensures
        step_spec(AuthFlowView::CheckingUnused { username, password }, event, work) matches AuthStepView::Ask(
            _,
            AuthActionView::Store(StoreQueryView::CreateUser(account)),
        ) ==> (account.password matches Some(h) && bcrypt_verify_result(password, h) == Some(true)
            && hash_cost(h) == Some(10int) && account.username == username
            && account.login_provider == LoginProvider::PASSWORD),
{
}

/// An account that has no role link yet reads back without roles. This is
/// what a login would return if the store let it read between the queries
/// of the flow that is making the account, and why every flow's queries
/// are held in one transaction.
pub proof fn lemma_unfinished_account_reads_no_roles(
    store: StoreModel,
    identity: Seq<char>,
    name: Seq<char>,
    provider: LoginProvider,
    fresh: spec_fn(nat) -> Seq<char>,
)
    requires
        store.wf(),
        has_user(store.users, identity),
        forall|i: int|
            0 <= i < store.user_roles.len() ==> (#[trigger] store.user_roles[i]).user_id != the_user(
                store.users,
                identity,
            ).id,
    ensures
        run(store, find_identity(identity, name, provider), None, fresh, max_queries()) == (
            store,
            AuthStepView::Done(Ok((the_user(store.users, identity).id, Seq::<Seq<char>>::empty()))),
        ),
{
    let id = the_user(store.users, identity).id;
    lemma_race_loser_finds_the_account(store, identity, name, provider, fresh, fresh);
    lemma_filter_nothing(store.user_roles, |l: UserRoleView| l.user_id == id);
    let ids = link_role_ids(store.links_of(id));
    assert(ids =~= Seq::<Seq<char>>::empty());
    lemma_filter_nothing(store.roles, |r: RoleView| ids.contains(r.id));
    assert(roles_of(store, id) =~= Seq::<Seq<char>>::empty());
}

} // verus!
