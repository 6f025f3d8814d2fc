use gallium::models::{scope_list, AuthorizeRequestParam, GrantType, ResponseType, Scope};

#[test]
fn scope_lists_parse_in_order_dropping_unknowns() {
    assert_eq!(scope_list("read write"), vec![Scope::Read, Scope::Write]);
    assert_eq!(scope_list("write admin read"), vec![Scope::Write, Scope::Read]);
    assert_eq!(scope_list(""), Vec::<Scope>::new());
    assert_eq!(scope_list("read  write"), vec![Scope::Read, Scope::Write]);
}

#[test]
fn authorize_request_reads_its_parameters() {
    let p = AuthorizeRequestParam::from_url(
        b"response_type=code&client_id=app-1&redirect_uri=https%3A%2F%2Fexample.test%2Fcb&scope=read+write&state=xyz",
    )
    .unwrap();
    assert_eq!(p.response_type, ResponseType::Code);
    assert_eq!(p.client_id, "app-1");
    assert_eq!(p.redirect_uri.as_deref(), Some("https://example.test/cb"));
    assert_eq!(p.scope, Some(vec![Scope::Read, Scope::Write]));
    assert_eq!(p.state.as_deref(), Some("xyz"));
}

#[test]
fn authorize_request_optional_parameters_may_be_absent() {
    let p = AuthorizeRequestParam::from_url(b"response_type=token&client_id=app-1").unwrap();
    assert_eq!(p.response_type, ResponseType::Token);
    assert!(p.redirect_uri.is_none());
    assert!(p.scope.is_none());
    assert!(p.state.is_none());
}

#[test]
fn authorize_request_requires_a_response_type() {
    let err = AuthorizeRequestParam::from_url(b"client_id=app-1").unwrap_err();
    assert_eq!(err.message, "invalid_request");
}

#[test]
fn authorize_request_refuses_unknown_response_types() {
    let err =
        AuthorizeRequestParam::from_url(b"response_type=ticket&client_id=app-1").unwrap_err();
    assert_eq!(err.message, "unsupported_response_type");
}

#[test]
fn authorize_request_requires_a_client_id() {
    let err = AuthorizeRequestParam::from_url(b"response_type=code").unwrap_err();
    assert_eq!(err.message, "invalid_request");
}

#[test]
fn a_later_parameter_overrides_an_earlier_one() {
    let p = AuthorizeRequestParam::from_url(
        b"response_type=token&response_type=code&client_id=first&client_id=second",
    )
    .unwrap();
    assert_eq!(p.response_type, ResponseType::Code);
    assert_eq!(p.client_id, "second");
}

#[test]
fn authorization_code_grants_carry_their_code() {
    let grant = GrantType::from_vec(
        b"grant_type=authorization_code&code=c0de&client_id=app&client_secret=SECRET-REDACTED",
    )
    .unwrap();
    match grant {
        GrantType::AuthorizationCode { code, client_id, client_secret, redirect_uri } => {
            assert_eq!(code, "c0de");
            assert_eq!(client_id, "app");
            assert_eq!(client_secret, "SECRET-REDACTED");
            assert!(redirect_uri.is_none());
        }
        _ => panic!("the wrong grant came back"),
    }
}

#[test]
fn password_grants_carry_credentials_and_scopes() {
    let grant = GrantType::from_vec(
        b"grant_type=password&username=alice&password=pw&client_id=app&client_secret=s&scope=read",
    )
    .unwrap();
    match grant {
        GrantType::Password { username, password, scope, .. } => {
            assert_eq!(username, "alice");
            assert_eq!(password, "pw");
            assert_eq!(scope, Some(vec![Scope::Read]));
        }
        _ => panic!("the wrong grant came back"),
    }
}

#[test]
fn client_credentials_grants_need_only_the_client_pair() {
    let grant =
        GrantType::from_vec(b"grant_type=client_credentials&client_id=app&client_secret=s")
            .unwrap();
    assert!(matches!(grant, GrantType::ClientCredentials { .. }));
}

#[test]
fn a_missing_client_secret_is_an_invalid_request() {
    let err = GrantType::from_vec(b"grant_type=password&username=a&password=b&client_id=app")
        .unwrap_err();
    assert_eq!(err, "invalid_request");
}

#[test]
fn a_password_grant_without_a_password_is_an_invalid_request() {
    let err =
        GrantType::from_vec(b"grant_type=password&username=a&client_id=app&client_secret=s")
            .unwrap_err();
    assert_eq!(err, "invalid_request");
}

#[test]
fn an_unknown_grant_name_is_unsupported() {
    let err = GrantType::from_vec(b"grant_type=implicit&client_id=app&client_secret=s")
        .unwrap_err();
    assert_eq!(err, "unsupported_grant");
}

#[test]
fn a_missing_grant_name_is_an_invalid_grant() {
    let err = GrantType::from_vec(b"client_id=app&client_secret=s").unwrap_err();
    assert_eq!(err, "invalid_grant");
}
