//! Rows of the relational store and the values handed to clients, as plain data.

use vstd::prelude::*;
use vstd::string::*;
use crate::text::opt_text;
use crate::text::texts;

verus! {

/// How an account signs in.
#[derive(Debug, Clone, Copy, PartialEq, Eq, Structural)]
pub enum LoginProvider {
    IAAA,
    PASSWORD,
    LCPU,
}

/// The cloud an account's resources live in.
#[derive(Debug, Clone, Copy, PartialEq, Eq, Structural)]
pub enum CloudProvider {
    OPENSTACK,
    PIKACLOUD,
}

/// The views of a list of values, in order.
pub open spec fn views<T: View>(items: Seq<T>) -> Seq<T::V> {
    Seq::new(items.len(), |i: int| items[i]@)
}

/// An account.
#[derive(Debug, Clone)]
pub struct User {
    pub id: String,
    pub username: String,
    pub login_provider: LoginProvider,
    pub name: Option<String>,
    pub email: Option<String>,
    pub password: Option<String>,
}

pub struct UserView {
    pub id: Seq<char>,
    pub username: Seq<char>,
    pub login_provider: LoginProvider,
    pub name: Option<Seq<char>>,
    pub email: Option<Seq<char>>,
    pub password: Option<Seq<char>>,
}

impl View for User {
    type V = UserView;

    open spec fn view(&self) -> UserView {
        UserView {
            id: self.id@,
            username: self.username@,
            login_provider: self.login_provider,
            name: opt_text(self.name),
            email: opt_text(self.email),
            password: opt_text(self.password),
        }
    }
}

/// An account that is about to be created; the store assigns its id.
#[derive(Debug, Clone)]
pub struct NewUser {
    pub username: String,
    pub login_provider: LoginProvider,
    pub name: Option<String>,
    pub password: Option<String>,
}

pub struct NewUserView {
    pub username: Seq<char>,
    pub login_provider: LoginProvider,
    pub name: Option<Seq<char>>,
    pub password: Option<Seq<char>>,
}

impl View for NewUser {
    type V = NewUserView;

    open spec fn view(&self) -> NewUserView {
        NewUserView {
            username: self.username@,
            login_provider: self.login_provider,
            name: opt_text(self.name),
            password: opt_text(self.password),
        }
    }
}

/// A named permission group.
#[derive(Debug, Clone)]
pub struct Role {
    pub id: String,
    pub name: String,
}

pub struct RoleView {
    pub id: Seq<char>,
    pub name: Seq<char>,
}

impl View for Role {
    type V = RoleView;

    open spec fn view(&self) -> RoleView {
        RoleView { id: self.id@, name: self.name@ }
    }
}

/// The link between an account and one of its roles.
#[derive(Debug, Clone)]
pub struct UserRole {
    pub id: String,
    pub user_id: String,
    pub role_id: String,
}

pub struct UserRoleView {
    pub id: Seq<char>,
    pub user_id: Seq<char>,
    pub role_id: Seq<char>,
}

impl View for UserRole {
    type V = UserRoleView;

    open spec fn view(&self) -> UserRoleView {
        UserRoleView { id: self.id@, user_id: self.user_id@, role_id: self.role_id@ }
    }
}

/// An account's identity at a cloud.
#[derive(Debug, Clone)]
pub struct CloudUser {
    pub id: String,
    pub user_id: String,
    pub cloud_provider: CloudProvider,
    pub cloud_username: String,
    pub cloud_password: String,
}

/// The credentials of a cloud identity that was just created.
#[derive(Debug, Clone)]
pub struct CloudCreateInfo {
    pub provider_id: String,
    pub provider_pass: String,
}

pub struct CloudCreateInfoView {
    pub provider_id: Seq<char>,
    pub provider_pass: Seq<char>,
}

impl View for CloudCreateInfo {
    type V = CloudCreateInfoView;

    open spec fn view(&self) -> CloudCreateInfoView {
        CloudCreateInfoView { provider_id: self.provider_id@, provider_pass: self.provider_pass@ }
    }
}

/// The claim a client presents: who it is and which roles it holds.
#[derive(Debug, Clone)]
pub struct UserJwtInfo {
    pub id: String,
    pub roles: Vec<String>,
}

pub struct UserJwtInfoView {
    pub id: Seq<char>,
    pub roles: Seq<Seq<char>>,
}

impl View for UserJwtInfo {
    type V = UserJwtInfoView;

    open spec fn view(&self) -> UserJwtInfoView {
        UserJwtInfoView { id: self.id@, roles: texts(self.roles@) }
    }
}

/// Whether two byte strings are the same.
pub fn same_bytes(a: &[u8], b: &[u8]) -> (r: bool)
    ensures
        r == (a@ == b@),
{
    if a.len() != b.len() {
        return false;
    }
    let mut i: usize = 0;
    while i < a.len()
        invariant
            i <= a@.len(),
            a@.len() == b@.len(),
            forall|j: int| 0 <= j < i ==> a@[j] == b@[j],
        decreases a@.len() - i,
    {
        if a[i] != b[i] {
            return false;
        }
        i += 1;
    }
    assert(a@ =~= b@);
    true
}

impl LoginProvider {
    /// The bytes the store keeps for the provider: its name in ASCII.
    pub open spec fn sql_tag(self) -> Seq<u8> {
        match self {
            LoginProvider::IAAA => seq![73u8, 65u8, 65u8, 65u8],
            LoginProvider::PASSWORD => seq![80u8, 65u8, 83u8, 83u8, 87u8, 79u8, 82u8, 68u8],
            LoginProvider::LCPU => seq![76u8, 67u8, 80u8, 85u8],
        }
    }

    /// The bytes to write to the store.
    pub fn to_sql(&self) -> (r: Vec<u8>)
        ensures
            r@ == self.sql_tag(),
    {
        let out = match self {
            LoginProvider::IAAA => vec![73u8, 65u8, 65u8, 65u8],
            LoginProvider::PASSWORD => vec![80u8, 65u8, 83u8, 83u8, 87u8, 79u8, 82u8, 68u8],
            LoginProvider::LCPU => vec![76u8, 67u8, 80u8, 85u8],
        };
        assert(out@ =~= self.sql_tag());
        out
    }

    /// The provider that bytes read from the store stand for; an error
    /// where they stand for none.
    pub fn from_sql(bytes: &[u8]) -> (r: Result<LoginProvider, String>)
        ensures
            match r {
                Ok(p) => bytes@ == p.sql_tag(),
                Err(e) => e@ == "Unrecognized enum variant"@ && forall|p: LoginProvider|
                    bytes@ != #[trigger] p.sql_tag(),
            },
    {
        if same_bytes(bytes, LoginProvider::IAAA.to_sql().as_slice()) {
            Ok(LoginProvider::IAAA)
        } else if same_bytes(bytes, LoginProvider::PASSWORD.to_sql().as_slice()) {
            Ok(LoginProvider::PASSWORD)
        } else if same_bytes(bytes, LoginProvider::LCPU.to_sql().as_slice()) {
            Ok(LoginProvider::LCPU)
        } else {
            Err("Unrecognized enum variant".to_owned())
        }
    }
}

/// No two login providers are kept as the same bytes, so what was written
/// is what is read back.
pub proof fn lemma_login_provider_tags_differ(p: LoginProvider, q: LoginProvider)
    requires
        p.sql_tag() == q.sql_tag(),
    ensures
        p == q,
{
    assert(p.sql_tag()[0] == q.sql_tag()[0]);
    assert(p.sql_tag().len() == q.sql_tag().len());
}

impl CloudProvider {
    /// The bytes the store keeps for the cloud: its name in ASCII.
    pub open spec fn sql_tag(self) -> Seq<u8> {
        match self {
            CloudProvider::OPENSTACK => seq![79u8, 80u8, 69u8, 78u8, 83u8, 84u8, 65u8, 67u8, 75u8],
            CloudProvider::PIKACLOUD => seq![80u8, 73u8, 75u8, 65u8, 67u8, 76u8, 79u8, 85u8, 68u8],
        }
    }

    /// The bytes to write to the store.
    pub fn to_sql(&self) -> (r: Vec<u8>)
        ensures
            r@ == self.sql_tag(),
    {
        let out = match self {
            CloudProvider::OPENSTACK => vec![79u8, 80u8, 69u8, 78u8, 83u8, 84u8, 65u8, 67u8, 75u8],
            CloudProvider::PIKACLOUD => vec![80u8, 73u8, 75u8, 65u8, 67u8, 76u8, 79u8, 85u8, 68u8],
        };
        assert(out@ =~= self.sql_tag());
        out
    }

    /// The cloud that bytes read from the store stand for; an error where
    /// they stand for none.
    pub fn from_sql(bytes: &[u8]) -> (r: Result<CloudProvider, String>)
        ensures
            match r {
                Ok(p) => bytes@ == p.sql_tag(),
                Err(e) => e@ == "Unrecognized enum variant"@ && forall|p: CloudProvider|
                    bytes@ != #[trigger] p.sql_tag(),
            },
    {
        if same_bytes(bytes, CloudProvider::OPENSTACK.to_sql().as_slice()) {
            Ok(CloudProvider::OPENSTACK)
        } else if same_bytes(bytes, CloudProvider::PIKACLOUD.to_sql().as_slice()) {
            Ok(CloudProvider::PIKACLOUD)
        } else {
            Err("Unrecognized enum variant".to_owned())
        }
    }
}

/// No two clouds are kept as the same bytes.
pub proof fn lemma_cloud_provider_tags_differ(p: CloudProvider, q: CloudProvider)
    requires
        p.sql_tag() == q.sql_tag(),
    ensures
        p == q,
{
    assert(p.sql_tag()[0] == q.sql_tag()[0]);
}

} // verus!
