//! The institutional identity validator: what it answers, how a request to it
//! is signed, and the provider built on it.

use vstd::prelude::*;
use crate::text::opt_text;
use vstd::string::*;
use crate::auth::bad_request;
use crate::auth::internal;
use crate::auth::unauthorized;
use crate::auth::AuthAction;
use crate::auth::AuthActionView;
use crate::auth::AuthError;
use crate::auth::AuthFlow;
use crate::auth::AuthFlowView;
use crate::auth::AuthStep;
use crate::auth::AuthStepView;
use crate::auth::BaseAuthProvider;
use crate::auth::Payload;
use crate::auth::PayloadView;
use crate::models::LoginProvider;
use crate::text::join;
use crate::utils::env_flag;

verus! {

/// The person the validator vouches for. Only `identity_id` and `name` are
/// read by this library; the rest is carried along.
#[derive(Debug, Clone)]
pub struct IAAAUserInfo {
    pub name: String,
    pub status: String,
    pub identity_id: String,
    pub dept_id: String,
    pub dept: String,
    pub identity_type: String,
    pub detail_type: String,
    pub identity_status: String,
    pub campus: String,
}

/// The validator's answer to one token.
#[derive(Debug, Clone)]
pub struct IAAAValidateResponse {
    pub success: bool,
    pub err_code: String,
    pub err_msg: String,
    pub user_info: IAAAUserInfo,
}

pub struct IAAAValidateResponseView {
    pub success: bool,
    pub identity_id: Seq<char>,
    pub name: Seq<char>,
}

impl View for IAAAValidateResponse {
    type V = IAAAValidateResponseView;

    open spec fn view(&self) -> IAAAValidateResponseView {
        IAAAValidateResponseView {
            success: self.success,
            identity_id: self.user_info.identity_id@,
            name: self.user_info.name@,
        }
    }
}

impl IAAAValidateResponse {
    /// Whether the validator accepted the token.
    pub fn is_success(&self) -> (r: bool)
        ensures
            r == self.success,
    {
        self.success
    }
}

/// Why the validator could not be asked or understood.
#[derive(Debug, Clone)]
pub enum IaaaError {
    Get(String),
    Serialize(String),
    Deserialize(String),
}

pub type IaaaResult<T> = Result<T, IaaaError>;

/// The MD5 digest of a text's bytes, as 32 lower-case hexadecimal digits.
pub uninterp spec fn md5_hex(message: Seq<char>) -> Seq<char>;

/// Calls `md5::compute` on the bytes of `msg` and prints the digest with
/// `{:x}`. The digest is a function of the text alone; nothing else is claimed.
#[verifier::external_body]
fn md5_hash(msg: &String) -> (r: String)
    ensures
        r@ == md5_hex(msg@),
{
    let digest = md5::compute(msg);
    format!("{:x}", digest)
}

/// A signed question to a validator: is this token good for this caller?
#[derive(Debug, Clone)]
pub struct ValidateRequest {
    /// Where the validator listens.
    pub endpoint: String,
    pub app_id: String,
    pub remote_addr: String,
    pub token: String,
    /// The signature over the three parameters above.
    pub msg_abs: String,
}

pub struct ValidateRequestView {
    pub endpoint: Seq<char>,
    pub app_id: Seq<char>,
    pub remote_addr: Seq<char>,
    pub token: Seq<char>,
    pub msg_abs: Seq<char>,
}

impl View for ValidateRequest {
    type V = ValidateRequestView;

    open spec fn view(&self) -> ValidateRequestView {
        ValidateRequestView {
            endpoint: self.endpoint@,
            app_id: self.app_id@,
            remote_addr: self.remote_addr@,
            token: self.token@,
            msg_abs: self.msg_abs@,
        }
    }
}

/// The canonical query string that is signed and sent.
pub open spec fn canonical_query(app_id: Seq<char>, remote_addr: Seq<char>, token: Seq<char>) -> Seq<
    char,
> {
    "appId="@ + app_id + "&remoteAddr="@ + remote_addr + "&token="@ + token
}

/// The request that `sign` signs, for a validator at `endpoint`.
pub open spec fn signed_request(
    endpoint: Seq<char>,
    remote_addr: Seq<char>,
    app_id: Seq<char>,
    token: Seq<char>,
    sign: Seq<char>,
) -> ValidateRequestView {
    ValidateRequestView { endpoint, app_id, remote_addr, token, msg_abs: sign }
}

impl ValidateRequestView {
    /// The address to fetch: endpoint, canonical query, signature.
    pub open spec fn url(self) -> Seq<char> {
        self.endpoint + "?"@ + canonical_query(self.app_id, self.remote_addr, self.token)
            + "&msgAbs="@ + self.msg_abs
    }
}

/// The canonical query string over the three signed parameters.
pub fn query_string(app_id: &str, remote_addr: &str, token: &str) -> (r: String)
    ensures
        r@ == canonical_query(app_id@, remote_addr@, token@),
{
    let mut out = join("appId=", app_id);
    out.append("&remoteAddr=");
    out.append(remote_addr);
    out.append("&token=");
    out.append(token);
    out
}

impl ValidateRequest {
    /// The request carrying an already computed signature.
    pub fn with_signature(
        endpoint: String,
        remote_addr: String,
        app_id: String,
        token: String,
        sign: String,
    ) -> (r: ValidateRequest)
        ensures
            r@ == signed_request(endpoint@, remote_addr@, app_id@, token@, sign@),
    {
        ValidateRequest { endpoint, app_id, remote_addr, token, msg_abs: sign }
    }

    /// The address to fetch with a plain GET.
    pub fn url(&self) -> (r: String)
        ensures
            r@ == self@.url(),
    {
        let query = query_string(self.app_id.as_str(), self.remote_addr.as_str(), self.token.as_str());
        let mut out = join(self.endpoint.as_str(), "?");
        out.append(query.as_str());
        out.append("&msgAbs=");
        out.append(self.msg_abs.as_str());
        out
    }
}

/// Where the institutional validator listens.
pub open spec fn validate_endpoint() -> Seq<char> {
    "https://iaaa.pku.edu.cn/iaaa/svc/token/validate.do"@
}

/// The signature a validator expects: the digest of the canonical query
/// followed by the shared key.
pub open spec fn signature(
    remote_addr: Seq<char>,
    app_id: Seq<char>,
    app_key: Seq<char>,
    token: Seq<char>,
) -> Seq<char> {
    md5_hex(canonical_query(app_id, remote_addr, token) + app_key)
}

/// Signs the three parameters with the shared key.
pub fn sign_query(remote_addr: &str, app_id: &str, app_key: &str, token: &str) -> (r: String)
    ensures
        r@ == signature(remote_addr@, app_id@, app_key@, token@),
{
    let mut message = query_string(app_id, remote_addr, token);
    message.append(app_key);
    md5_hash(&message)
}

/// The signed request that asks the institutional validator about `token`,
/// presented from `remote_addr`. The caller sends it and reads the answer.
pub fn validate(remote_addr: String, app_id: String, app_key: String, token: String) -> (r:
    ValidateRequest)
    ensures
        r@ == signed_request(
            validate_endpoint(),
            remote_addr@,
            app_id@,
            token@,
            signature(remote_addr@, app_id@, app_key@, token@),
        ),
{
    let sign = sign_query(remote_addr.as_str(), app_id.as_str(), app_key.as_str(), token.as_str());
    ValidateRequest::with_signature(
        "https://iaaa.pku.edu.cn/iaaa/svc/token/validate.do".to_owned(),
        remote_addr,
        app_id,
        token,
        sign,
    )
}

/// The first move of a login through a validator: the payload must carry a
/// token and the caller's address must be known; then the validator is asked.
pub open spec fn external_login(
    provider: LoginProvider,
    endpoint: Seq<char>,
    app_id: Seq<char>,
    app_key: Seq<char>,
    payload: PayloadView,
    ip_address: Option<Seq<char>>,
) -> AuthStepView {
    match payload {
        PayloadView::Token(token) => match ip_address {
            Some(addr) => AuthStepView::Ask(
                AuthFlowView::Validating { provider },
                AuthActionView::Validate(
                    signed_request(endpoint, addr, app_id, token, signature(addr, app_id, app_key, token)),
                ),
            ),
            None => unauthorized("No ip address"@),
        },
        _ => bad_request("Token is required"@),
    }
}

/// The first move of a login through the validator at `endpoint`.
pub fn begin_external_login(
    provider: LoginProvider,
    endpoint: String,
    app_id: &str,
    app_key: &str,
    payload: Payload,
    ip_address: Option<String>,
) -> (r: AuthStep)
    ensures
        r@ == external_login(provider, endpoint@, app_id@, app_key@, payload@, opt_text(ip_address)),
{
    match payload {
        Payload::Token(token) => match ip_address {
            Some(addr) => {
                let sign = sign_query(addr.as_str(), app_id, app_key, token.as_str());
                let request = ValidateRequest::with_signature(
                    endpoint,
                    addr,
                    app_id.to_owned(),
                    token,
                    sign,
                );
                AuthStep::Ask(AuthFlow::Validating { provider }, AuthAction::Validate(request))
            },
            None => AuthStep::Done(Err(AuthError::Unauthorized("No ip address".to_owned()))),
        },
        _ => AuthStep::Done(Err(AuthError::BadRequest("Token is required".to_owned()))),
    }
}

/// Sign-in through the institutional validator.
#[derive(Debug, Clone)]
pub struct IaaaAuthProvider {
    pub iaaa_id: String,
    pub iaaa_key: String,
    pub enable_mfa: bool,
}

impl IaaaAuthProvider {
    /// The provider for an application id and its shared key, with the
    /// second-factor switch as the environment sets it.
    pub fn new(iaaa_id: String, iaaa_key: String, enable_mfa: Option<&str>) -> (r: Self)
        ensures
            r.iaaa_id == iaaa_id,
            r.iaaa_key == iaaa_key,
            r.enable_mfa == (enable_mfa is Some && enable_mfa->0@ == "true"@),
    {
        IaaaAuthProvider { iaaa_id, iaaa_key, enable_mfa: env_flag(enable_mfa) }
    }
}

impl BaseAuthProvider for IaaaAuthProvider {
    open spec fn mfa(&self) -> bool {
        self.enable_mfa
    }

    open spec fn name_text(&self) -> Seq<char> {
        "iaaa"@
    }

    open spec fn login_spec(&self, payload: PayloadView, ip_address: Option<Seq<char>>) -> AuthStepView {
        external_login(
            LoginProvider::IAAA,
            validate_endpoint(),
            self.iaaa_id@,
            self.iaaa_key@,
            payload,
            ip_address,
        )
    }

    open spec fn register_spec(&self, payload: PayloadView) -> AuthStepView {
        internal("IAAA should not call register!"@)
    }

    fn enable_mfa(&self) -> (r: bool) {
        self.enable_mfa
    }

    fn name(&self) -> (r: &str) {
        "iaaa"
    }

    fn login(&self, payload: Payload, ip_address: Option<String>) -> (r: AuthStep) {
        begin_external_login(
            LoginProvider::IAAA,
            "https://iaaa.pku.edu.cn/iaaa/svc/token/validate.do".to_owned(),
            self.iaaa_id.as_str(),
            self.iaaa_key.as_str(),
            payload,
            ip_address,
        )
    }

    fn register(&self, payload: Payload) -> (r: AuthStep) {
        AuthStep::Done(
            Err(AuthError::InternalServerError("IAAA should not call register!".to_owned())),
        )
    }
}

} // verus!
