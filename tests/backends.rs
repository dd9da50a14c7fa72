use rustcurl::{
    apply_auth, apply_method, apply_options, apply_resolve, build_client, build_headers, collect_timing,
    conclude, effective_method, parse_method, prepare_request, transfer_plan, AuthScheme, Captured,
    ClientAuth, Environment, FailureKind, Method, MethodAction, RequestConfig, RequestError, Timing,
    TransportFailure,
};
use std::time::Duration;

fn captured(body: &[u8]) -> Captured {
    Captured {
        status_code: 200,
        headers: vec!["Content-Type: text/plain".to_string()],
        body: body.to_vec(),
        timing: Some(Timing {
            dns: Duration::from_millis(1),
            connect: Duration::from_millis(2),
            tls: Duration::from_millis(3),
            starttransfer: Duration::from_millis(4),
            total: Duration::from_millis(5),
            redirect: Duration::from_millis(0),
        }),
    }
}

#[test]
fn method_defaults() {
    assert_eq!(effective_method(None, true, false), Method::Post);
    assert_eq!(effective_method(None, false, true), Method::Head);
    assert_eq!(effective_method(None, true, true), Method::Post);
    assert_eq!(effective_method(None, false, false), Method::Get);
    assert_eq!(effective_method(Some(Method::Put), true, true), Method::Put);
    assert_eq!(effective_method(Some(Method::Custom("X".into())), false, true), Method::Custom("X".into()));
}

#[test]
fn method_names_ignore_case() {
    assert_eq!(parse_method("put"), Method::Put);
    assert_eq!(parse_method("Options"), Method::Options);
    assert_eq!(parse_method("purge"), Method::Custom("PURGE".into()));
}

#[test]
fn bearer_appended_after_explicit_authorization() {
    let cfg = RequestConfig::new("https://x.com")
        .header("Authorization: Basic abc")
        .header("Accept: */*")
        .bearer("tok");
    assert_eq!(
        build_headers(&cfg),
        vec!["Authorization: Basic abc", "Accept: */*", "Authorization: Bearer tok"]
    );
    let cfg = RequestConfig::new("https://x.com").header("A: 1");
    assert_eq!(build_headers(&cfg), vec!["A: 1"]);
}

#[test]
fn method_actions() {
    let cfg = RequestConfig::new("u").method(Method::Delete).head_only(true);
    let m = apply_method(&cfg);
    assert_eq!(m.action, MethodAction::Custom("DELETE".into()));
    assert!(m.force_no_body);
    let m = apply_method(&RequestConfig::new("u").method(Method::Head).head_only(true));
    assert_eq!(m.action, MethodAction::NoBody);
    assert!(!m.force_no_body);
    assert_eq!(apply_method(&RequestConfig::new("u").method(Method::Put)).action, MethodAction::Put);
}

#[test]
fn negotiate_scenario_plan() {
    let cfg = RequestConfig::new("https://example.com")
        .negotiate(true)
        .insecure(true)
        .cacert("/tmp/ca.pem")
        .username("admin")
        .proxy("http://proxy:8080");
    let plan = transfer_plan(&cfg, &Environment::new());
    assert_eq!(plan.url, "https://example.com");
    assert!(plan.follow_location);
    assert_eq!(plan.auth.scheme, Some(AuthScheme::Negotiate));
    assert_eq!(plan.auth.username.as_deref(), Some("admin"));
    assert_eq!(plan.auth.password.as_deref(), Some(""));
    assert!(plan.options.skip_verification);
    assert_eq!(plan.options.ca_info.as_deref(), Some("/tmp/ca.pem"));
    assert_eq!(plan.options.proxy.as_deref(), Some("http://proxy:8080"));
    assert_eq!(plan.options.proxy_auth, None);
    assert_eq!(plan.options.proxy_username, None);
    assert_eq!(plan.options.proxy_password, None);
}

#[test]
fn negotiate_wins_over_ntlm() {
    let cfg = RequestConfig::new("u").negotiate(true).ntlm(true);
    assert_eq!(apply_auth(&cfg, &Environment::new()).scheme, Some(AuthScheme::Negotiate));
    let cfg = RequestConfig::new("u").ntlm(true);
    let env = Environment::new().set("RUSTCURL_USER", "eu");
    let auth = apply_auth(&cfg, &env);
    assert_eq!(auth.scheme, Some(AuthScheme::Ntlm));
    assert_eq!(auth.username.as_deref(), Some("eu"));
    assert_eq!(auth.password.as_deref(), Some(""));
}

#[test]
fn basic_only_with_a_user_name() {
    let cfg = RequestConfig::new("u").password("p");
    let auth = apply_auth(&cfg, &Environment::new());
    assert_eq!((auth.scheme, auth.username, auth.password), (None, None, None));
    let cfg = RequestConfig::new("u").username("a");
    let auth = apply_auth(&cfg, &Environment::new());
    assert_eq!(auth.username.as_deref(), Some("a"));
    assert_eq!(auth.password, None);
}

#[test]
fn proxy_negotiate_options() {
    let cfg = RequestConfig::new("u").proxy("http://p:1").proxy_negotiate(true);
    let o = apply_options(&cfg, &Environment::new());
    assert_eq!(o.proxy_auth, Some(AuthScheme::Negotiate));
    assert_eq!(o.proxy_username.as_deref(), Some(":"));
    let cfg = RequestConfig::new("u").proxy_negotiate(true);
    let o = apply_options(&cfg, &Environment::new());
    assert_eq!(o.proxy_auth, None);
    assert_eq!(o.proxy_username, None);
    let cfg = RequestConfig::new("u").proxy("http://p:1").proxy_ntlm(true).proxy_user("pu").proxy_password("pp");
    let o = apply_options(&cfg, &Environment::new());
    assert_eq!(o.proxy_auth, Some(AuthScheme::Ntlm));
    assert_eq!(o.proxy_username.as_deref(), Some("pu"));
    assert_eq!(o.proxy_password.as_deref(), Some("pp"));
}

#[test]
fn default_and_explicit_user_agent() {
    let o = apply_options(&RequestConfig::new("u"), &Environment::new());
    assert!(o.user_agent.starts_with("Mozilla/5.0 (Windows NT 10.0; Win64; x64)"));
    assert!(o.user_agent.ends_with("Edg/131.0.0.0"));
    let o = apply_options(&RequestConfig::new("u").user_agent("me/1"), &Environment::new());
    assert_eq!(o.user_agent, "me/1");
}

#[test]
fn resolve_entries_only_when_listed() {
    assert!(apply_resolve(&RequestConfig::new("u")).is_none());
    let cfg = RequestConfig::new("u").add_resolve("a:1:1.1.1.1").add_resolve("b:2:2.2.2.2");
    assert_eq!(apply_resolve(&cfg).unwrap(), vec!["a:1:1.1.1.1", "b:2:2.2.2.2"]);
}

#[test]
fn missing_phases_are_zero() {
    let t = collect_timing(Some(Duration::from_millis(7)), None, None, None, Some(Duration::from_secs(1)), None);
    assert_eq!(t.dns, Duration::from_millis(7));
    assert_eq!(t.connect, Duration::ZERO);
    assert_eq!(t.total, Duration::from_secs(1));
    assert_eq!(t.redirect, Duration::ZERO);
}

#[test]
fn timing_absent_unless_requested_and_supported() {
    let plain = RequestConfig::new("u");
    let timed = RequestConfig::new("u").show_timing(true);
    let r = conclude(&plain, Ok(captured(b"x")), true).result.unwrap();
    assert!(r.timing.is_none());
    let r = conclude(&timed, Ok(captured(b"x")), false).result.unwrap();
    assert!(r.timing.is_none());
    let r = conclude(&timed, Ok(captured(b"x")), true).result.unwrap();
    assert_eq!(r.timing.unwrap().total, Duration::from_millis(5));
}

#[test]
fn output_path_moves_body_to_write() {
    let cfg = RequestConfig::new("u").output("/tmp/out.bin");
    let c = conclude(&cfg, Ok(captured(b"payload")), true);
    let resp = c.result.unwrap();
    assert!(resp.body.is_empty());
    assert_eq!(resp.status_code, 200);
    assert_eq!(resp.headers, vec!["Content-Type: text/plain"]);
    let w = c.write.unwrap();
    assert_eq!(w.path, "/tmp/out.bin");
    assert_eq!(w.bytes, b"payload".to_vec());
    let c = conclude(&RequestConfig::new("u"), Ok(captured(b"payload")), true);
    assert_eq!(c.result.unwrap().body, b"payload".to_vec());
    assert!(c.write.is_none());
}

#[test]
fn failed_transfer_writes_no_output() {
    let cfg = RequestConfig::new("u").output("/tmp/never.bin");
    let failure = RequestError::Transport(TransportFailure {
        kind: FailureKind::ResolveHost,
        message: "Could not resolve host".into(),
    });
    let c = conclude(&cfg, Err(failure), true);
    assert!(c.write.is_none());
    assert!(matches!(c.result, Err(RequestError::Transport(_))));
}

#[test]
fn reduced_backend_ntlm_without_credentials_is_anonymous() {
    let cfg = RequestConfig::new("https://x.com").ntlm(true);
    let settings = build_client(&cfg, &Environment::new());
    assert_eq!(settings.auth, ClientAuth::Anonymous);
    assert!(prepare_request(&cfg).is_ok());
}

#[test]
fn reduced_backend_ntlm_falls_back_to_basic() {
    let cfg = RequestConfig::new("https://x.com").ntlm(true).username("u").password("p");
    let settings = build_client(&cfg, &Environment::new());
    assert_eq!(settings.auth, ClientAuth::Basic { username: "u".into(), password: Some("p".into()) });
}

#[test]
fn reduced_backend_negotiate() {
    let cfg = RequestConfig::new("https://x.com").negotiate(true);
    assert_eq!(build_client(&cfg, &Environment::new()).auth, ClientAuth::NegotiateAmbient);
    let cfg = cfg.username("admin");
    assert_eq!(
        build_client(&cfg, &Environment::new()).auth,
        ClientAuth::NegotiateWith { username: "admin".into(), password: "".into() }
    );
}

#[test]
fn reduced_backend_proxy_falls_back_to_basic() {
    let cfg = RequestConfig::new("https://x.com").proxy("http://p:3128").proxy_negotiate(true).proxy_user("pu");
    let s = build_client(&cfg, &Environment::new());
    let p = s.proxy.unwrap();
    assert_eq!(p.url, "http://p:3128");
    assert_eq!(p.basic, Some(("pu".to_string(), "".to_string())));
    assert!(!s.disable_proxies);
    assert!(s.user_agent.starts_with("Mozilla/5.0"));
    let env = Environment::new().set("NO_PROXY", "localhost");
    assert!(build_client(&cfg, &env).disable_proxies);
    assert_eq!(build_client(&cfg.user_agent("ua/2"), &env).user_agent, "ua/2");
}

#[test]
fn reduced_backend_request() {
    let cfg = RequestConfig::new("https://x.com")
        .method(Method::Custom("PURGE".into()))
        .header(" X-A :  1 ")
        .header("broken")
        .bearer("t")
        .data("{}");
    let r = prepare_request(&cfg).unwrap();
    assert_eq!(r.method.as_str(), "PURGE");
    assert_eq!(r.headers, vec![("X-A".to_string(), "1".to_string())]);
    assert_eq!(r.bearer.as_deref(), Some("t"));
    assert_eq!(r.body.as_deref(), Some("{}"));
    let bad = RequestConfig::new("https://x.com").method(Method::Custom("BAD VERB".into()));
    match prepare_request(&bad) {
        Err(RequestError::Config(m)) => assert_eq!(m, "Invalid method: invalid HTTP method"),
        _ => panic!("expected a configuration error"),
    }
}

#[test]
fn backend_identities() {
    let full = rustcurl::CurlBackend::new();
    let reduced = rustcurl::ReqwestBackend::new();
    assert_eq!(full.name(), "curl");
    assert_eq!(reduced.name(), "reqwest");
    assert!(full.supports_timing());
    assert!(!reduced.supports_timing());
}
