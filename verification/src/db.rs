//! The relational store as this library sees it: the narrow set of typed
//! requests it makes and the replies it understands.

use vstd::prelude::*;
use crate::models::views;
use crate::models::NewUser;
use crate::models::NewUserView;
use crate::models::Role;
use crate::models::RoleView;
use crate::models::User;
use crate::models::UserRole;
use crate::models::UserRoleView;
use crate::models::UserView;
use crate::text::join;
use crate::text::texts;

verus! {

/// Why the store could not be used.
#[derive(Debug, Clone)]
pub enum DBError {
    Connection(String),
    FetchConn(String),
}

pub enum DBErrorView {
    Connection(Seq<char>),
    FetchConn(Seq<char>),
}

impl View for DBError {
    type V = DBErrorView;

    open spec fn view(&self) -> DBErrorView {
        match self {
            DBError::Connection(m) => DBErrorView::Connection(m@),
            DBError::FetchConn(m) => DBErrorView::FetchConn(m@),
        }
    }
}

impl DBErrorView {
    /// The text shown for the error.
    pub open spec fn message(self) -> Seq<char> {
        match self {
            DBErrorView::Connection(m) => "Fail to connect database: "@ + m,
            DBErrorView::FetchConn(m) => "Fail to fetch connection: "@ + m,
        }
    }
}

impl DBError {
    /// The text shown for the error.
    pub fn message(&self) -> (r: String)
        ensures
            r@ == self@.message(),
    {
        match self {
            DBError::Connection(m) => join("Fail to connect database: ", m.as_str()),
            DBError::FetchConn(m) => join("Fail to fetch connection: ", m.as_str()),
        }
    }
}

pub type DBResult<T> = Result<T, DBError>;

/// One request to the store.
#[derive(Debug, Clone)]
pub enum StoreQuery {
    /// The account with this username.
    FindUserByUsername(String),
    /// The role with this name.
    FindRoleByName(String),
    /// Create this account; fails if the username is taken.
    CreateUser(NewUser),
    /// Create a role with this name.
    CreateRole(String),
    /// Give the account the role.
    CreateUserRole { user_id: String, role_id: String },
    /// The role links of the account with this id.
    FindUserRolesByUser(String),
    /// The roles whose id is one of these.
    FindRolesByIds(Vec<String>),
}

pub enum StoreQueryView {
    FindUserByUsername(Seq<char>),
    FindRoleByName(Seq<char>),
    CreateUser(NewUserView),
    CreateRole(Seq<char>),
    CreateUserRole { user_id: Seq<char>, role_id: Seq<char> },
    FindUserRolesByUser(Seq<char>),
    FindRolesByIds(Seq<Seq<char>>),
}

impl View for StoreQuery {
    type V = StoreQueryView;

    open spec fn view(&self) -> StoreQueryView {
        match self {
            StoreQuery::FindUserByUsername(u) => StoreQueryView::FindUserByUsername(u@),
            StoreQuery::FindRoleByName(n) => StoreQueryView::FindRoleByName(n@),
            StoreQuery::CreateUser(u) => StoreQueryView::CreateUser(u@),
            StoreQuery::CreateRole(n) => StoreQueryView::CreateRole(n@),
            StoreQuery::CreateUserRole { user_id, role_id } => StoreQueryView::CreateUserRole {
                user_id: user_id@,
                role_id: role_id@,
            },
            StoreQuery::FindUserRolesByUser(u) => StoreQueryView::FindUserRolesByUser(u@),
            StoreQuery::FindRolesByIds(ids) => StoreQueryView::FindRolesByIds(texts(ids@)),
        }
    }
}

/// What the store answered. `Failed` stands for every error and for a row
/// that is not there: the flows never tell the two apart.
#[derive(Debug, Clone)]
pub enum StoreReply {
    Failed,
    User(User),
    Role(Role),
    UserRole(UserRole),
    UserRoles(Vec<UserRole>),
    Roles(Vec<Role>),
}

pub enum StoreReplyView {
    Failed,
    User(UserView),
    Role(RoleView),
    UserRole(UserRoleView),
    UserRoles(Seq<UserRoleView>),
    Roles(Seq<RoleView>),
}

impl View for StoreReply {
    type V = StoreReplyView;

    open spec fn view(&self) -> StoreReplyView {
        match self {
            StoreReply::Failed => StoreReplyView::Failed,
            StoreReply::User(u) => StoreReplyView::User(u@),
            StoreReply::Role(r) => StoreReplyView::Role(r@),
            StoreReply::UserRole(l) => StoreReplyView::UserRole(l@),
            StoreReply::UserRoles(ls) => StoreReplyView::UserRoles(views(ls@)),
            StoreReply::Roles(rs) => StoreReplyView::Roles(views(rs@)),
        }
    }
}

/// What a store that keeps its promises holds: its rows, in the order they
/// were made.
pub struct StoreModel {
    pub users: Seq<UserView>,
    pub roles: Seq<RoleView>,
    pub user_roles: Seq<UserRoleView>,
}

/// Whether some account goes by the username.
pub open spec fn has_user(users: Seq<UserView>, username: Seq<char>) -> bool {
    exists|i: int| 0 <= i < users.len() && (#[trigger] users[i]).username == username
}

/// An account that goes by the username, where there is one.
pub open spec fn the_user(users: Seq<UserView>, username: Seq<char>) -> UserView {
    users[choose|i: int| 0 <= i < users.len() && (#[trigger] users[i]).username == username]
}

/// Whether some role goes by the name.
pub open spec fn has_role_named(roles: Seq<RoleView>, name: Seq<char>) -> bool {
    exists|i: int| 0 <= i < roles.len() && (#[trigger] roles[i]).name == name
}

/// A role that goes by the name, where there is one.
pub open spec fn the_role(roles: Seq<RoleView>, name: Seq<char>) -> RoleView {
    roles[choose|i: int| 0 <= i < roles.len() && (#[trigger] roles[i]).name == name]
}

impl StoreModel {
    /// The role links of the account with this id, in the order they were made.
    pub open spec fn links_of(self, user_id: Seq<char>) -> Seq<UserRoleView> {
        self.user_roles.filter(|l: UserRoleView| l.user_id == user_id)
    }

    /// The roles whose id is among `ids`, in the order they were made.
    pub open spec fn roles_with_ids(self, ids: Seq<Seq<char>>) -> Seq<RoleView> {
        self.roles.filter(|r: RoleView| ids.contains(r.id))
    }

    /// The uniqueness constraints: no two accounts share a username, no two
    /// roles a name.
    pub open spec fn wf(self) -> bool {
        &&& forall|i: int, j: int|
            0 <= i < self.users.len() && 0 <= j < self.users.len() && (#[trigger] self.users[i]).username
                == (#[trigger] self.users[j]).username ==> i == j
        &&& forall|i: int, j: int|
            0 <= i < self.roles.len() && 0 <= j < self.roles.len() && (#[trigger] self.roles[i]).name
                == (#[trigger] self.roles[j]).name ==> i == j
    }

    /// What the store holds after a query and what it replies, where `fresh`
    /// is the id it gives to a row that the query makes. Creating an account
    /// under a taken username, or a role under a taken name, fails and
    /// changes nothing.
    pub open spec fn apply(self, query: StoreQueryView, fresh: Seq<char>) -> (StoreModel, StoreReplyView) {
        match query {
            StoreQueryView::FindUserByUsername(username) => if has_user(self.users, username) {
                (self, StoreReplyView::User(the_user(self.users, username)))
            } else {
                (self, StoreReplyView::Failed)
            },
            StoreQueryView::FindRoleByName(name) => if has_role_named(self.roles, name) {
                (self, StoreReplyView::Role(the_role(self.roles, name)))
            } else {
                (self, StoreReplyView::Failed)
            },
            StoreQueryView::CreateUser(new_user) => if has_user(self.users, new_user.username) {
                (self, StoreReplyView::Failed)
            } else {
                let user = UserView {
                    id: fresh,
                    username: new_user.username,
                    login_provider: new_user.login_provider,
                    name: new_user.name,
                    email: None,
                    password: new_user.password,
                };
                (StoreModel { users: self.users.push(user), ..self }, StoreReplyView::User(user))
            },
            StoreQueryView::CreateRole(name) => if has_role_named(self.roles, name) {
                (self, StoreReplyView::Failed)
            } else {
                let role = RoleView { id: fresh, name };
                (StoreModel { roles: self.roles.push(role), ..self }, StoreReplyView::Role(role))
            },
            StoreQueryView::CreateUserRole { user_id, role_id } => {
                let link = UserRoleView { id: fresh, user_id, role_id };
                (
                    StoreModel { user_roles: self.user_roles.push(link), ..self },
                    StoreReplyView::UserRole(link),
                )
            },
            StoreQueryView::FindUserRolesByUser(user_id) => (
                self,
                StoreReplyView::UserRoles(self.links_of(user_id)),
            ),
            StoreQueryView::FindRolesByIds(ids) => (
                self,
                StoreReplyView::Roles(self.roles_with_ids(ids)),
            ),
        }
    }
}

/// A query leaves the uniqueness constraints in force.
pub proof fn lemma_apply_keeps_wf(store: StoreModel, query: StoreQueryView, fresh: Seq<char>)
    requires
        store.wf(),
    ensures
        store.apply(query, fresh).0.wf(),
{
}

/// After an account was made under a free username, that account is the one
/// the username finds.
pub proof fn lemma_created_user_is_found(store: StoreModel, new_user: NewUserView, fresh: Seq<char>)
    requires
        !has_user(store.users, new_user.username),
    ensures
        ({
            let (after, reply) = store.apply(StoreQueryView::CreateUser(new_user), fresh);
            &&& reply matches StoreReplyView::User(u)
            &&& u.id == fresh
            &&& has_user(after.users, new_user.username)
            &&& the_user(after.users, new_user.username) == u
        }),
{
    let (after, reply) = store.apply(StoreQueryView::CreateUser(new_user), fresh);
    let last = store.users.len() as int;
    assert(after.users[last].username == new_user.username);
    let found = choose|i: int|
        0 <= i < after.users.len() && (#[trigger] after.users[i]).username == new_user.username;
    if found < last {
        assert(store.users[found].username == new_user.username);
    }
}

/// Nothing is left where no item passes the test.
pub proof fn lemma_filter_nothing<A>(s: Seq<A>, pred: spec_fn(A) -> bool)
    requires
        forall|i: int| 0 <= i < s.len() ==> !pred(#[trigger] s[i]),
    ensures
        s.filter(pred) == Seq::<A>::empty(),
    decreases s.len(),
{
    reveal(Seq::filter);
    if s.len() > 0 {
        assert(!pred(s[s.len() - 1]));
        assert forall|i: int| 0 <= i < s.drop_last().len() implies !pred(#[trigger] s.drop_last()[i]) by {
            assert(s.drop_last()[i] == s[i]);
        }
        lemma_filter_nothing(s.drop_last(), pred);
    }
}

/// Where exactly one item passes the test, that item is what is left.
pub proof fn lemma_filter_one<A>(s: Seq<A>, pred: spec_fn(A) -> bool, k: int)
    requires
        0 <= k < s.len(),
        pred(s[k]),
        forall|i: int| 0 <= i < s.len() && i != k ==> !pred(#[trigger] s[i]),
    ensures
        s.filter(pred) == seq![s[k]],
    decreases s.len(),
{
    reveal(Seq::filter);
    let init = s.drop_last();
    if k == s.len() - 1 {
        assert forall|i: int| 0 <= i < init.len() implies !pred(#[trigger] init[i]) by {
            assert(init[i] == s[i]);
        }
        lemma_filter_nothing(init, pred);
        assert(Seq::<A>::empty().push(s[k]) =~= seq![s[k]]);
    } else {
        assert(!pred(s[s.len() - 1]));
        assert(init[k] == s[k]);
        assert forall|i: int| 0 <= i < init.len() && i != k implies !pred(#[trigger] init[i]) by {
            assert(init[i] == s[i]);
        }
        lemma_filter_one(init, pred, k);
    }
}

} // verus!
