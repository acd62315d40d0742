//! The single-sign-on handshake as a state machine. The caller performs
//! each request that an action names and hands back what the answer held;
//! the machine decides the next request, success or failure.

use vstd::prelude::*;
use crate::form::{FormField, field_view, text_field};
use crate::text::same_text;

verus! {

/// Where the handshake stands.
#[derive(Clone, Copy, Debug, PartialEq, Eq, Structural)]
pub enum AuthState {
    /// The selection of the identity provider was sent.
    AwaitingSso,
    /// User name and password were sent to the identity provider.
    AwaitingCredentials,
    /// The identity provider's answer was handed on to the portal.
    AwaitingFinal,
    LoggedIn,
    Failed,
}

/// Why the handshake failed.
#[derive(Clone, Copy, Debug, PartialEq, Eq, Structural)]
pub enum AuthError {
    /// The login page has a token but no form to send the credentials to.
    MissingLoginForm,
    /// The page holds no answer of the identity provider.
    MissingSamlResponse,
    /// The page holds no form to hand that answer on.
    MissingContinueForm,
    /// The portal did not accept the answer.
    AuthenticationFailed,
}

/// What a page of the handshake held.
pub struct LoginPage {
    /// The host of the address that the answer came from.
    pub host: Option<String>,
    /// The value of the `csrf_token` input.
    pub csrf_token: Option<String>,
    /// The action of the first form that posts.
    pub form_action: Option<String>,
    /// The value of the `SAMLResponse` input.
    pub saml_response: Option<String>,
}

/// The next thing to do.
pub enum AuthAction {
    /// Post the form to a querypath on the identity provider's host.
    PostToIdentityProvider { querypath: String, fields: Vec<FormField> },
    /// Post the form to an absolute address.
    PostTo { url: String, fields: Vec<FormField> },
    /// The session is logged in.
    Done,
    /// The handshake failed.
    Fail(AuthError),
}

/// A form's fields as plain values.
pub open spec fn fields_view(fs: Seq<FormField>) -> Seq<(Seq<char>, Seq<char>)> {
    fs.map_values(|f: FormField| field_view(f))
}

/// The next action as plain values.
pub enum AuthActionView {
    PostToIdentityProvider { querypath: Seq<char>, fields: Seq<(Seq<char>, Seq<char>)> },
    PostTo { url: Seq<char>, fields: Seq<(Seq<char>, Seq<char>)> },
    Done,
    Fail(AuthError),
}

impl View for AuthAction {
    type V = AuthActionView;

    open spec fn view(&self) -> AuthActionView {
        match self {
            AuthAction::PostToIdentityProvider { querypath, fields } => AuthActionView::PostToIdentityProvider {
                querypath: querypath@,
                fields: fields_view(fields@),
            },
            AuthAction::PostTo { url, fields } => AuthActionView::PostTo { url: url@, fields: fields_view(fields@) },
            AuthAction::Done => AuthActionView::Done,
            AuthAction::Fail(e) => AuthActionView::Fail(*e),
        }
    }
}

/// The handshake of one user with the portal.
pub struct Handshake {
    state: AuthState,
    base_host: String,
    relay_state: String,
    username: String,
    password: String,
}

/// The form that hands the identity provider's answer on to the portal.
pub open spec fn continuation(relay_state: Seq<char>, saml: Option<String>, action: Option<String>) -> (AuthState, AuthActionView) {
    match saml {
        None => (AuthState::Failed, AuthActionView::Fail(AuthError::MissingSamlResponse)),
        Some(s) => match action {
            None => (AuthState::Failed, AuthActionView::Fail(AuthError::MissingContinueForm)),
            Some(a) => (
                AuthState::AwaitingFinal,
                AuthActionView::PostTo {
                    url: a@,
                    fields: seq![("RelayState"@, relay_state), ("SAMLResponse"@, s@)],
                },
            ),
        },
    }
}

impl Handshake {
    pub closed spec fn state_of(&self) -> AuthState {
        self.state
    }

    /// Where the handshake stands.
    pub fn state(&self) -> (r: AuthState)
        ensures
            r == self.state_of(),
    {
        self.state
    }

    pub closed spec fn base_host_view(&self) -> Seq<char> {
        self.base_host@
    }

    pub closed spec fn relay_state_view(&self) -> Seq<char> {
        self.relay_state@
    }

    pub closed spec fn username_view(&self) -> Seq<char> {
        self.username@
    }

    pub closed spec fn password_view(&self) -> Seq<char> {
        self.password@
    }

    /// What follows the login page, in the state it leaves and the action.
    pub open spec fn after_sso(&self, page: LoginPage) -> (AuthState, AuthActionView) {
        if page.host matches Some(h) && h@ == self.base_host_view() {
            (AuthState::LoggedIn, AuthActionView::Done)
        } else {
            match page.csrf_token {
                Some(t) => match page.form_action {
                    None => (AuthState::Failed, AuthActionView::Fail(AuthError::MissingLoginForm)),
                    Some(a) => (
                        AuthState::AwaitingCredentials,
                        AuthActionView::PostToIdentityProvider {
                            querypath: a@,
                            fields: seq![
                                ("csrf_token"@, t@),
                                ("j_username"@, self.username_view()),
                                ("j_password"@, self.password_view()),
                                ("_eventId_proceed"@, ""@),
                            ],
                        },
                    ),
                },
                None => continuation(self.relay_state_view(), page.saml_response, page.form_action),
            }
        }
    }

    /// A handshake for the portal on `base_host`; `relay_state` is the address
    /// of the portal's login script.
    pub fn new(base_host: String, relay_state: String, username: String, password: String) -> (r: Handshake)
        ensures
            r.state_of() == AuthState::AwaitingSso,
            r.base_host_view() == base_host@,
            r.relay_state_view() == relay_state@,
            r.username_view() == username@,
            r.password_view() == password@,
    {
        Handshake { state: AuthState::AwaitingSso, base_host, relay_state, username, password }
    }

    /// The first request: the portal's login script, with the selection of
    /// the identity provider.
    pub fn sso_form() -> (r: (String, Vec<FormField>))
        ensures
            r.0@ == "shib_login.php"@,
            fields_view(r.1@) == seq![
                ("sendLogin"@, "1"@),
                ("idp_selection"@, "https://idp.scc.kit.edu/idp/shibboleth"@),
                ("il_target"@, ""@),
                ("home_organization_selection"@, "Weiter"@),
            ],
    {
        let mut fs: Vec<FormField> = Vec::new();
        fs.push(text_field("sendLogin", "1"));
        fs.push(text_field("idp_selection", "https://idp.scc.kit.edu/idp/shibboleth"));
        fs.push(text_field("il_target", ""));
        fs.push(text_field("home_organization_selection", "Weiter"));
        assert(fields_view(fs@) =~= seq![
            ("sendLogin"@, "1"@),
            ("idp_selection"@, "https://idp.scc.kit.edu/idp/shibboleth"@),
            ("il_target"@, ""@),
            ("home_organization_selection"@, "Weiter"@),
        ]);
        ("shib_login.php".to_owned(), fs)
    }

    fn continue_with(&mut self, saml: &Option<String>, action: &Option<String>) -> (r: AuthAction)
        ensures
            (final(self).state_of(), r@) == continuation(old(self).relay_state_view(), *saml, *action),
            final(self).base_host_view() == old(self).base_host_view(),
            final(self).relay_state_view() == old(self).relay_state_view(),
            final(self).username_view() == old(self).username_view(),
            final(self).password_view() == old(self).password_view(),
    {
        let s = match saml {
            Some(s) => s,
            None => {
                self.state = AuthState::Failed;
                return AuthAction::Fail(AuthError::MissingSamlResponse);
            },
        };
        let a = match action {
            Some(a) => a,
            None => {
                self.state = AuthState::Failed;
                return AuthAction::Fail(AuthError::MissingContinueForm);
            },
        };
        let mut fs: Vec<FormField> = Vec::new();
        fs.push(text_field("RelayState", self.relay_state.as_str()));
        fs.push(text_field("SAMLResponse", s.as_str()));
        assert(fields_view(fs@) =~= seq![("RelayState"@, self.relay_state@), ("SAMLResponse"@, s@)]);
        self.state = AuthState::AwaitingFinal;
        AuthAction::PostTo { url: a.clone(), fields: fs }
    }

    /// Takes the page that the login script led to. A page on the portal's
    /// own host means the session is logged in already; a page with a token
    /// asks for the credentials; any other page is taken to hold the
    /// identity provider's answer.
    pub fn on_sso_page(&mut self, page: &LoginPage) -> (r: AuthAction)
        requires
            old(self).state_of() == AuthState::AwaitingSso,
        ensures
            (final(self).state_of(), r@) == old(self).after_sso(*page),
            final(self).base_host_view() == old(self).base_host_view(),
            final(self).relay_state_view() == old(self).relay_state_view(),
            final(self).username_view() == old(self).username_view(),
            final(self).password_view() == old(self).password_view(),
    {
        let on_portal = match &page.host {
            Some(h) => same_text(h.as_str(), self.base_host.as_str()),
            None => false,
        };
        if on_portal {
            self.state = AuthState::LoggedIn;
            return AuthAction::Done;
        }
        match &page.csrf_token {
            Some(t) => match &page.form_action {
                None => {
                    self.state = AuthState::Failed;
                    AuthAction::Fail(AuthError::MissingLoginForm)
                },
                Some(a) => {
                    let mut fs: Vec<FormField> = Vec::new();
                    fs.push(text_field("csrf_token", t.as_str()));
                    fs.push(text_field("j_username", self.username.as_str()));
                    fs.push(text_field("j_password", self.password.as_str()));
                    fs.push(text_field("_eventId_proceed", ""));
                    assert(fields_view(fs@) =~= seq![
                        ("csrf_token"@, t@),
                        ("j_username"@, self.username@),
                        ("j_password"@, self.password@),
                        ("_eventId_proceed"@, ""@),
                    ]);
                    self.state = AuthState::AwaitingCredentials;
                    AuthAction::PostToIdentityProvider { querypath: a.clone(), fields: fs }
                },
            },
            None => self.continue_with(&page.saml_response, &page.form_action),
        }
    }

    /// Takes the identity provider's answer to the credentials.
    pub fn on_credentials_page(&mut self, page: &LoginPage) -> (r: AuthAction)
        requires
            old(self).state_of() == AuthState::AwaitingCredentials,
        ensures
            (final(self).state_of(), r@) == continuation(old(self).relay_state_view(), page.saml_response, page.form_action),
            final(self).base_host_view() == old(self).base_host_view(),
            final(self).relay_state_view() == old(self).relay_state_view(),
            final(self).username_view() == old(self).username_view(),
            final(self).password_view() == old(self).password_view(),
    {
        self.continue_with(&page.saml_response, &page.form_action)
    }

    /// Takes whether the portal answered the last request with success.
    pub fn on_final_response(&mut self, success: bool) -> (r: AuthAction)
        requires
            old(self).state_of() == AuthState::AwaitingFinal,
        ensures
            success ==> final(self).state_of() == AuthState::LoggedIn && r@ == AuthActionView::Done,
            !success ==> final(self).state_of() == AuthState::Failed && r@ == AuthActionView::Fail(
                AuthError::AuthenticationFailed,
            ),
    {
        if success {
            self.state = AuthState::LoggedIn;
            AuthAction::Done
        } else {
            self.state = AuthState::Failed;
            AuthAction::Fail(AuthError::AuthenticationFailed)
        }
    }
}

} // verus!
