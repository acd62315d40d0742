use ilias_upload::auth::{AuthAction, AuthError, AuthState, Handshake, LoginPage};

fn handshake() -> Handshake {
    Handshake::new(
        "ilias.example.org".to_string(),
        "https://ilias.example.org/shib_login.php".to_string(),
        "user".to_string(),
        "secret".to_string(),
    )
}

fn page(host: &str) -> LoginPage {
    LoginPage { host: Some(host.to_string()), csrf_token: None, form_action: None, saml_response: None }
}

fn fields(action: &AuthAction) -> Vec<(String, String)> {
    match action {
        AuthAction::PostTo { fields, .. } | AuthAction::PostToIdentityProvider { fields, .. } => {
            fields.iter().map(|f| (f.name.clone(), f.value.clone())).collect()
        }
        _ => vec![],
    }
}

#[test]
fn sso_form_selects_provider() {
    let (path, f) = Handshake::sso_form();
    assert_eq!(path, "shib_login.php");
    assert_eq!(f.len(), 4);
    assert_eq!(f[1].name, "idp_selection");
    assert_eq!(f[3].value, "Weiter");
}

#[test]
fn already_on_portal_is_done() {
    let mut h = handshake();
    assert!(matches!(h.on_sso_page(&page("ilias.example.org")), AuthAction::Done));
    assert_eq!(h.state(), AuthState::LoggedIn);
}

#[test]
fn token_asks_for_credentials_then_continues() {
    let mut h = handshake();
    let mut p = page("idp.example.org");
    p.csrf_token = Some("tok".to_string());
    p.form_action = Some("/idp/profile/SAML2?execution=e1s1".to_string());
    let a = h.on_sso_page(&p);
    assert!(matches!(&a, AuthAction::PostToIdentityProvider { querypath, .. } if querypath == "/idp/profile/SAML2?execution=e1s1"));
    let f = fields(&a);
    assert_eq!(f[0], ("csrf_token".to_string(), "tok".to_string()));
    assert_eq!(f[1], ("j_username".to_string(), "user".to_string()));
    assert_eq!(f[2], ("j_password".to_string(), "secret".to_string()));
    assert_eq!(h.state(), AuthState::AwaitingCredentials);
    let mut c = page("idp.example.org");
    c.saml_response = Some("SAML".to_string());
    c.form_action = Some("https://ilias.example.org/Shibboleth.sso/SAML2/POST".to_string());
    let a = h.on_credentials_page(&c);
    assert!(matches!(&a, AuthAction::PostTo { url, .. } if url == "https://ilias.example.org/Shibboleth.sso/SAML2/POST"));
    assert_eq!(fields(&a), vec![
        ("RelayState".to_string(), "https://ilias.example.org/shib_login.php".to_string()),
        ("SAMLResponse".to_string(), "SAML".to_string()),
    ]);
    assert!(matches!(h.on_final_response(true), AuthAction::Done));
    assert_eq!(h.state(), AuthState::LoggedIn);
}

#[test]
fn page_without_token_is_the_continuation() {
    let mut h = handshake();
    let mut p = page("idp.example.org");
    p.saml_response = Some("S".to_string());
    p.form_action = Some("https://ilias.example.org/post".to_string());
    assert!(matches!(h.on_sso_page(&p), AuthAction::PostTo { .. }));
    assert_eq!(h.state(), AuthState::AwaitingFinal);
    assert!(matches!(h.on_final_response(false), AuthAction::Fail(AuthError::AuthenticationFailed)));
    assert_eq!(h.state(), AuthState::Failed);
}

#[test]
fn missing_pieces_fail() {
    let mut h = handshake();
    let mut p = page("idp.example.org");
    p.csrf_token = Some("t".to_string());
    assert!(matches!(h.on_sso_page(&p), AuthAction::Fail(AuthError::MissingLoginForm)));
    let mut h = handshake();
    assert!(matches!(h.on_sso_page(&page("idp.example.org")), AuthAction::Fail(AuthError::MissingSamlResponse)));
    let mut h = handshake();
    let mut p = page("idp.example.org");
    p.saml_response = Some("S".to_string());
    assert!(matches!(h.on_sso_page(&p), AuthAction::Fail(AuthError::MissingContinueForm)));
}
