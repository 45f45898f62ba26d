//! Sign-in through the student-run validator, which speaks the same protocol
//! as the institutional one from an address of its own.

use vstd::prelude::*;
use vstd::string::*;
use crate::auth::iaaa::begin_external_login;
use crate::auth::iaaa::external_login;
use crate::auth::internal;
use crate::auth::AuthError;
use crate::auth::AuthStep;
use crate::auth::AuthStepView;
use crate::auth::BaseAuthProvider;
use crate::auth::Payload;
use crate::auth::PayloadView;
use crate::models::LoginProvider;
use crate::text::join;
use crate::utils::env_flag;

verus! {

/// Sign-in through the validator mounted under `app_root`.
#[derive(Debug, Clone)]
pub struct LcpuAuthProvider {
    pub app_id: String,
    pub app_key: String,
    pub app_root: String,
    pub enable_mfa: bool,
}

/// Where the validator under `app_root` listens.
pub open spec fn lcpu_endpoint(app_root: Seq<char>) -> Seq<char> {
    app_root + "/api/oauth/iaaa_compat/svc/token/validate.do"@
}

impl LcpuAuthProvider {
    /// The provider for an application id, its shared key and the
    /// validator's root address.
    pub fn new(app_id: String, app_key: String, app_root: String, enable_mfa: Option<&str>) -> (r:
        Self)
        ensures
            r.app_id == app_id,
            r.app_key == app_key,
            r.app_root == app_root,
            r.enable_mfa == (enable_mfa is Some && enable_mfa->0@ == "true"@),
    {
        LcpuAuthProvider { app_id, app_key, app_root, enable_mfa: env_flag(enable_mfa) }
    }
}

impl BaseAuthProvider for LcpuAuthProvider {
    open spec fn mfa(&self) -> bool {
        self.enable_mfa
    }

    open spec fn name_text(&self) -> Seq<char> {
        "lcpu"@
    }

    open spec fn login_spec(&self, payload: PayloadView, ip_address: Option<Seq<char>>) -> AuthStepView {
        external_login(
            LoginProvider::LCPU,
            lcpu_endpoint(self.app_root@),
            self.app_id@,
            self.app_key@,
            payload,
            ip_address,
        )
    }

    open spec fn register_spec(&self, payload: PayloadView) -> AuthStepView {
        internal("LCPU should not call register!"@)
    }

    fn enable_mfa(&self) -> (r: bool) {
        self.enable_mfa
    }

    fn name(&self) -> (r: &str) {
        "lcpu"
    }

    fn login(&self, payload: Payload, ip_address: Option<String>) -> (r: AuthStep) {
        let endpoint = join(self.app_root.as_str(), "/api/oauth/iaaa_compat/svc/token/validate.do");
        begin_external_login(
            LoginProvider::LCPU,
            endpoint,
            self.app_id.as_str(),
            self.app_key.as_str(),
            payload,
            ip_address,
        )
    }

    fn register(&self, payload: Payload) -> (r: AuthStep) {
        AuthStep::Done(
            Err(AuthError::InternalServerError("LCPU should not call register!".to_owned())),
        )
    }
}

} // verus!
