//! The local-password provider and the slow salted hash it relies on.

use vstd::prelude::*;
use vstd::string::*;
use crate::auth::ask_store;
use crate::auth::bad_request;
use crate::auth::AuthAction;
use crate::auth::AuthError;
use crate::auth::AuthErrorView;
use crate::auth::AuthFlow;
use crate::auth::AuthFlowView;
use crate::auth::AuthStep;
use crate::auth::AuthStepView;
use crate::auth::BaseAuthProvider;
use crate::auth::Payload;
use crate::auth::PayloadView;
use crate::db::StoreQuery;
use crate::db::StoreQueryView;
use crate::utils::env_flag;

verus! {

/// The error type of the `bcrypt` crate, carried through unread.
#[verifier::external_type_specification]
#[verifier::external_body]
pub struct ExBcryptError(bcrypt::BcryptError);

/// The cost factor every new password is hashed with.
pub const HASH_COST: u32 = 10;

/// What `bcrypt::verify` answers for a password and a stored hash: whether
/// they match, or nothing where the hash cannot be read.
pub uninterp spec fn bcrypt_verify_result(password: Seq<char>, hash: Seq<char>) -> Option<bool>;

/// Calls `bcrypt::verify`, which splits the stored hash into cost, salt and
/// digest, hashes the password again with them and compares. The answer
/// depends on the two texts alone.
#[verifier::external_body]
pub(crate) fn verify_hash(password: &str, hash: &str) -> (r: Result<bool, bcrypt::BcryptError>)
    ensures
        match r {
            Ok(b) => bcrypt_verify_result(password@, hash@) == Some(b),
            Err(_) => bcrypt_verify_result(password@, hash@) is None,
        },
{
    bcrypt::verify(password, hash)
}

/// The cost factor that a bcrypt hash text carries: the two decimal digits
/// that follow its version, or nothing where the text has not the length of
/// a hash or no digits there.
pub open spec fn hash_cost(hash: Seq<char>) -> Option<int> {
    if hash.len() == 60 && '0' <= hash[4] <= '9' && '0' <= hash[5] <= '9' {
        Some((hash[4] as int - '0' as int) * 10 + (hash[5] as int - '0' as int))
    } else {
        None
    }
}

/// Calls `bcrypt::hash`, which draws a random salt. Which hash comes back is
/// not fixed, and the call fails where no salt can be drawn or the cost is
/// out of range; a hash that does come back is one that `bcrypt::verify`
/// accepts for the same password, and it is the 60 characters `$2b$`, the
/// cost in two digits, `$`, salt and digest.
#[verifier::external_body]
pub(crate) fn hash_password(password: &str, cost: u32) -> (r: Result<String, bcrypt::BcryptError>)
    ensures
        r matches Ok(h) ==> bcrypt_verify_result(password@, h@) == Some(true) && hash_cost(h@) == Some(
            cost as int,
        ),
{
    bcrypt::hash(password, cost)
}

/// Whether `char::is_numeric` holds of a character: whether Unicode gives it
/// one of the general categories for numbers.
pub uninterp spec fn char_is_numeric(c: char) -> bool;

/// Calls `char::is_numeric`. Its answer depends on the character alone,
/// and of the ASCII characters exactly the ten digits are numeric.
#[verifier::external_body]
fn is_numeric(c: char) -> (r: bool)
    ensures
        r == char_is_numeric(c),
        c <= '\u{7f}' ==> r == ('0' <= c <= '9'),
{
    c.is_numeric()
}

/// Whether every character of the text is numeric; true of the empty text.
pub open spec fn all_numeric(s: Seq<char>) -> bool {
    forall|i: int| 0 <= i < s.len() ==> char_is_numeric(#[trigger] s[i])
}

/// Whether the text is made of the digits `0` to `9` alone.
pub open spec fn all_digits(s: Seq<char>) -> bool {
    forall|i: int| 0 <= i < s.len() ==> '0' <= #[trigger] s[i] <= '9'
}

/// Whether the text holds an ASCII character that is no digit.
pub open spec fn has_ascii_non_digit(s: Seq<char>) -> bool {
    exists|i: int| 0 <= i < s.len() && (#[trigger] s[i]) <= '\u{7f}' && !('0' <= s[i] <= '9')
}

/// Whether the username lies in the reserved all-numeric namespace, as
/// every username made of digits alone does, and as none does that holds
/// an ASCII character other than a digit.
pub fn is_all_numeric(s: &str) -> (r: bool)
    ensures
        r == all_numeric(s@),
        all_digits(s@) ==> r,
        has_ascii_non_digit(s@) ==> !r,
{
    let n: usize = s.unicode_len();
    let mut i: usize = 0;
    while i < n
        invariant
            i <= n,
            n == s@.len(),
            forall|j: int| 0 <= j < i ==> char_is_numeric(#[trigger] s@[j]),
            forall|j: int|
                0 <= j < i && (#[trigger] s@[j]) <= '\u{7f}' ==> '0' <= s@[j] <= '9',
        decreases n - i,
    {
        if !is_numeric(s.get_char(i)) {
            return false;
        }
        i += 1;
    }
    true
}

/// Accounts kept in the local store, with a salted slow hash of the password.
#[derive(Debug, Clone, Copy)]
pub struct PasswordAuthProvider {
    pub enable_mfa: bool,
    pub allow_password_login: bool,
    pub allow_register: bool,
}

/// The first move of a password login.
pub open spec fn password_login(payload: PayloadView) -> AuthStepView {
    match payload {
        PayloadView::Password { username, password } => if username.len() == 0 || password.len()
            == 0 {
            bad_request("Username and password are required"@)
        } else {
            ask_store(
                AuthFlowView::FindingAccount { password },
                StoreQueryView::FindUserByUsername(username),
            )
        },
        _ => bad_request("Invalid payload"@),
    }
}

/// The first move of a registration.
pub open spec fn password_register(allow_register: bool, payload: PayloadView) -> AuthStepView {
    if !allow_register {
        AuthStepView::Done(Err(AuthErrorView::Forbidden("Register is disabled"@)))
    } else {
        match payload {
            PayloadView::Password { username, password } => if all_numeric(username) {
                bad_request("Username cannot be all numbers"@)
            } else {
                ask_store(
                    AuthFlowView::CheckingUnused { username, password },
                    StoreQueryView::FindUserByUsername(username),
                )
            },
            _ => bad_request("Username and password are required"@),
        }
    }
}

fn reject(detail: &str) -> (r: AuthStep)
    ensures
        r@ == bad_request(detail@),
{
    AuthStep::Done(Err(AuthError::BadRequest(detail.to_owned())))
}

impl PasswordAuthProvider {
    /// The provider as three switches of the environment configure it.
    pub fn new(
        enable_mfa: Option<&str>,
        allow_password_login: Option<&str>,
        allow_register: Option<&str>,
    ) -> (r: Self)
        ensures
            r.enable_mfa == (enable_mfa is Some && enable_mfa->0@ == "true"@),
            r.allow_password_login == (allow_password_login is Some && allow_password_login->0@
                == "true"@),
            r.allow_register == (allow_register is Some && allow_register->0@ == "true"@),
    {
        PasswordAuthProvider {
            enable_mfa: env_flag(enable_mfa),
            allow_password_login: env_flag(allow_password_login),
            allow_register: env_flag(allow_register),
        }
    }
}

impl BaseAuthProvider for PasswordAuthProvider {
    open spec fn mfa(&self) -> bool {
        self.enable_mfa
    }

    open spec fn name_text(&self) -> Seq<char> {
        "password"@
    }

    open spec fn login_spec(&self, payload: PayloadView, ip_address: Option<Seq<char>>) -> AuthStepView {
        password_login(payload)
    }

    open spec fn register_spec(&self, payload: PayloadView) -> AuthStepView {
        password_register(self.allow_register, payload)
    }

    fn enable_mfa(&self) -> (r: bool) {
        self.enable_mfa
    }

    fn name(&self) -> (r: &str) {
        "password"
    }

    fn login(&self, payload: Payload, ip_address: Option<String>) -> (r: AuthStep) {
        match payload {
            Payload::Password { username, password } => {
                if username.as_str().is_empty() || password.as_str().is_empty() {
                    reject("Username and password are required")
                } else {
                    AuthStep::Ask(
                        AuthFlow::FindingAccount { password },
                        AuthAction::Store(StoreQuery::FindUserByUsername(username)),
                    )
                }
            },
            _ => reject("Invalid payload"),
        }
    }

    fn register(&self, payload: Payload) -> (r: AuthStep)
        ensures
            self.allow_register ==> (payload matches Payload::Password { username, .. } && all_digits(
                username@,
            )) ==> r@ == bad_request("Username cannot be all numbers"@),
            self.allow_register ==> (match payload {
                Payload::Password { username, password } => has_ascii_non_digit(username@) ==> r@
                    == ask_store(
                    AuthFlowView::CheckingUnused { username: username@, password: password@ },
                    StoreQueryView::FindUserByUsername(username@),
                ),
                _ => true,
            }),
    {
        if !self.allow_register {
            return AuthStep::Done(Err(AuthError::Forbidden("Register is disabled".to_owned())));
        }
        match payload {
            Payload::Password { username, password } => {
                if is_all_numeric(username.as_str()) {
                    reject("Username cannot be all numbers")
                } else {
                    let query = StoreQuery::FindUserByUsername(username.clone());
                    AuthStep::Ask(
                        AuthFlow::CheckingUnused { username, password },
                        AuthAction::Store(query),
                    )
                }
            },
            _ => reject("Username and password are required"),
        }
    }
}

} // verus!
