//! The authentication routes: which provider a request selects, how a flow
//! is started for it, and what the client is told in the end.

use vstd::prelude::*;
use vstd::string::*;
use crate::auth::AuthError;
use crate::auth::AuthErrorView;
use crate::auth::AuthProvider;
use crate::auth::AuthStep;
use crate::auth::BaseAuthProvider;
use crate::auth::Payload;
use crate::auth::PayloadView;
use crate::models::UserJwtInfo;
use crate::models::UserJwtInfoView;
use crate::text::opt_text;
use crate::text::same_text;
use crate::text::texts;

verus! {

/// What a route answers.
#[derive(Debug, Clone)]
pub enum Answer {
    /// 200, with the claim to issue as the body.
    Claim(UserJwtInfo),
    /// 400, with a text as the body.
    BadRequest(String),
}

pub enum AnswerView {
    Claim(UserJwtInfoView),
    BadRequest(Seq<char>),
}

impl View for Answer {
    type V = AnswerView;

    open spec fn view(&self) -> AnswerView {
        match self {
            Answer::Claim(c) => AnswerView::Claim(c@),
            Answer::BadRequest(m) => AnswerView::BadRequest(m@),
        }
    }
}

/// The position of the first provider that goes by the name.
pub open spec fn provider_index(providers: Seq<AuthProvider>, name: Seq<char>) -> Option<int>
    decreases providers.len(),
{
    if providers.len() == 0 {
        None
    } else if providers[0].name_text() == name {
        Some(0)
    } else {
        match provider_index(providers.drop_first(), name) {
            Some(i) => Some(i + 1),
            None => None,
        }
    }
}

/// A position that `provider_index` gives lies in the list and holds a
/// provider of that name.
pub proof fn lemma_provider_index(providers: Seq<AuthProvider>, name: Seq<char>)
    ensures
        match provider_index(providers, name) {
            Some(i) => 0 <= i < providers.len() && providers[i].name_text() == name
                && forall|j: int| 0 <= j < i ==> (#[trigger] providers[j]).name_text() != name,
            None => forall|j: int| 0 <= j < providers.len() ==> (#[trigger] providers[j]).name_text() != name,
        },
    decreases providers.len(),
{
    if providers.len() > 0 && providers[0].name_text() != name {
        lemma_provider_index(providers.drop_first(), name);
        let rest = providers.drop_first();
        match provider_index(rest, name) {
            Some(i) => {
                assert forall|j: int| 0 <= j < i + 1 implies (#[trigger] providers[j]).name_text()
                    != name by {
                    if j > 0 {
                        assert(rest[j - 1] == providers[j]);
                    }
                }
            },
            None => {
                assert forall|j: int| 0 <= j < providers.len() implies (#[trigger] providers[j]).name_text()
                    != name by {
                    if j > 0 {
                        assert(rest[j - 1] == providers[j]);
                    }
                }
            },
        }
    }
}

/// Finds the provider a request selects.
pub fn find_provider(providers: &Vec<AuthProvider>, name: &str) -> (r: Option<usize>)
    ensures
        match r {
            Some(i) => provider_index(providers@, name@) == Some(i as int),
            None => provider_index(providers@, name@) is None,
        },
{
    let mut i: usize = 0;
    proof {
        lemma_provider_index(providers@, name@);
    }
    while i < providers.len()
        invariant
            i <= providers@.len(),
            forall|j: int| 0 <= j < i ==> (#[trigger] providers@[j]).name_text() != name@,
        decreases providers@.len() - i,
    {
        if same_text(providers[i].name(), name) {
            proof {
                lemma_provider_index(providers@, name@);
            }
            return Some(i);
        }
        i += 1;
    }
    proof {
        lemma_provider_index(providers@, name@);
    }
    None
}

/// The names of the providers that are running, in order.
pub fn get_auth_providers_handler(providers: &Vec<AuthProvider>) -> (r: Vec<String>)
    ensures
        texts(r@) == Seq::new(providers@.len(), |i: int| providers@[i].name_text()),
{
    let mut out: Vec<String> = Vec::new();
    let mut i: usize = 0;
    while i < providers.len()
        invariant
            i <= providers@.len(),
            out@.len() == i,
            forall|j: int| 0 <= j < i ==> out@[j]@ == (#[trigger] providers@[j]).name_text(),
        decreases providers@.len() - i,
    {
        out.push(providers[i].name().to_owned());
        i += 1;
    }
    assert(texts(out@) =~= Seq::new(providers@.len(), |i: int| providers@[i].name_text()));
    out
}

/// Starts a login with the provider the request names; nothing where no
/// provider goes by that name.
pub fn login_handler(
    providers: &Vec<AuthProvider>,
    provider: &str,
    payload: Payload,
    ip_address: Option<String>,
) -> (r: Option<AuthStep>)
    ensures
        match provider_index(providers@, provider@) {
            Some(i) => r matches Some(step) && step@ == providers@[i].login_spec(
                payload@,
                opt_text(ip_address),
            ),
            None => r is None,
        },
{
    proof {
        lemma_provider_index(providers@, provider@);
    }
    match find_provider(providers, provider) {
        Some(i) => Some(providers[i].login(payload, ip_address)),
        None => None,
    }
}

/// Whether accounts can be registered with the provider: with the
/// local-password provider alone. The external providers never register.
pub open spec fn offers_registration(provider: AuthProvider) -> bool {
    provider is Password
}

/// Starts a registration with the provider the request names; nothing
/// where no provider goes by that name, or the one that does offers no
/// registration, so that no request reaches the registration of an
/// external provider.
pub fn register_handler(providers: &Vec<AuthProvider>, provider: &str, payload: Payload) -> (r: Option<
    AuthStep,
>)
    ensures
        match provider_index(providers@, provider@) {
            Some(i) => if offers_registration(providers@[i]) {
                r matches Some(step) && step@ == providers@[i].register_spec(payload@)
            } else {
                r is None
            },
            None => r is None,
        },
{
    proof {
        lemma_provider_index(providers@, provider@);
    }
    match find_provider(providers, provider) {
        Some(i) => match &providers[i] {
            AuthProvider::Password(p) => Some(p.register(payload)),
            _ => None,
        },
        None => None,
    }
}

/// Starts the login that an authorization callback asks for: the code it
/// carries is the token.
pub fn oauth_callback_handler(
    providers: &Vec<AuthProvider>,
    provider: &str,
    code: String,
    ip_address: Option<String>,
) -> (r: Option<AuthStep>)
    ensures
        match provider_index(providers@, provider@) {
            Some(i) => r matches Some(step) && step@ == providers@[i].login_spec(
                PayloadView::Token(code@),
                opt_text(ip_address),
            ),
            None => r is None,
        },
{
    login_handler(providers, provider, Payload::Token(code), ip_address)
}

/// What the client is told: the claim where the flow succeeded, the error's
/// text where it failed, and that the provider is invalid where none was
/// selected.
pub open spec fn answer_spec(outcome: Option<Result<(Seq<char>, Seq<Seq<char>>), AuthErrorView>>) -> AnswerView {
    match outcome {
        Some(Ok((id, roles))) => AnswerView::Claim(UserJwtInfoView { id, roles }),
        Some(Err(e)) => AnswerView::BadRequest(e.message()),
        None => AnswerView::BadRequest("Invalid provider"@),
    }
}

/// Turns the end of a flow into the route's answer.
pub fn answer(outcome: Option<Result<(String, Vec<String>), AuthError>>) -> (r: Answer)
    ensures
        r@ == answer_spec(
            match outcome {
                Some(Ok((id, roles))) => Some(Ok((id@, texts(roles@)))),
                Some(Err(e)) => Some(Err(e@)),
                None => None,
            },
        ),
{
    match outcome {
        Some(Ok((id, roles))) => Answer::Claim(UserJwtInfo { id, roles }),
        Some(Err(e)) => Answer::BadRequest(e.message()),
        None => Answer::BadRequest("Invalid provider".to_owned()),
    }
}

} // verus!
