//! What the server is configured with and which providers it runs.

use vstd::prelude::*;
use crate::auth::iaaa::IaaaAuthProvider;
use crate::auth::password::PasswordAuthProvider;
use crate::auth::AuthProvider;
use crate::clouds::openstack::OpenStackCloudProvider;
use crate::text::contains_text;
use crate::text::split;
use crate::text::split_on;
use crate::text::texts;

verus! {

/// The server's settings.
#[derive(Debug, Default)]
pub struct Config {
    pub trust_proxy: Option<String>,
    pub redis_url: String,
    pub database_url: String,
    pub cloud_providers: Vec<String>,
    pub auth_providers: Vec<String>,
}

/// The settings as the environment gives them: the two provider lists are
/// comma-separated names.
pub fn load_config(
    auth_providers: &str,
    cloud_provider: &str,
    database_url: String,
    redis_url: String,
    trust_proxy: Option<String>,
) -> (r: Config)
    ensures
        texts(r.auth_providers@) == split_on(auth_providers@, ','),
        texts(r.cloud_providers@) == split_on(cloud_provider@, ','),
        r.database_url == database_url,
        r.redis_url == redis_url,
        r.trust_proxy == trust_proxy,
{
    Config {
        trust_proxy,
        redis_url,
        database_url,
        cloud_providers: split(cloud_provider, ','),
        auth_providers: split(auth_providers, ','),
    }
}

/// The authentication providers to run: of the local-password provider and
/// the institutional one, in this order, those that the settings name.
pub fn load_auth_providers(
    auth_providers: &Vec<String>,
    password: PasswordAuthProvider,
    iaaa: IaaaAuthProvider,
) -> (r: Vec<AuthProvider>)
    ensures
        r@ == (if texts(auth_providers@).contains("password"@) {
            seq![AuthProvider::Password(password)]
        } else {
            Seq::empty()
        }) + (if texts(auth_providers@).contains("iaaa"@) {
            seq![AuthProvider::Iaaa(iaaa)]
        } else {
            Seq::empty()
        }),
{
    let mut providers: Vec<AuthProvider> = Vec::new();
    if contains_text(auth_providers, "password") {
        providers.push(AuthProvider::Password(password));
    }
    if contains_text(auth_providers, "iaaa") {
        providers.push(AuthProvider::Iaaa(iaaa));
    }
    assert(providers@ =~= (if texts(auth_providers@).contains("password"@) {
        seq![AuthProvider::Password(password)]
    } else {
        Seq::empty()
    }) + (if texts(auth_providers@).contains("iaaa"@) {
        seq![AuthProvider::Iaaa(iaaa)]
    } else {
        Seq::empty()
    }));
    providers
}

/// The cloud providers to run: OpenStack, if the settings name it.
pub fn load_cloud_providers(cloud_providers: &Vec<String>, openstack: OpenStackCloudProvider) -> (r:
    Vec<OpenStackCloudProvider>)
    ensures
        r@ == if texts(cloud_providers@).contains("openstack"@) {
            seq![openstack]
        } else {
            Seq::empty()
        },
{
    let mut providers: Vec<OpenStackCloudProvider> = Vec::new();
    if contains_text(cloud_providers, "openstack") {
        providers.push(openstack);
    }
    assert(providers@ =~= if texts(cloud_providers@).contains("openstack"@) {
        seq![openstack]
    } else {
        Seq::empty()
    });
    providers
}

} // verus!
