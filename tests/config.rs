use rustcurl::{Method, RequestConfig};
use std::time::Duration;

#[test]
fn config_defaults() {
    let cfg = RequestConfig::new("https://example.com");
    assert_eq!(cfg.url, "https://example.com");
    assert_eq!(cfg.method, Method::Get);
    assert!(!cfg.negotiate);
    assert!(!cfg.insecure);
    assert!(cfg.cacert.is_none());
    assert!(cfg.username.is_none());
    assert!(cfg.password.is_none());
    assert!(cfg.proxy.is_none());
    assert!(!cfg.verbose);
    assert!(cfg.headers.is_empty());
    assert!(cfg.data.is_none());
    assert!(cfg.connect_timeout.is_none());
    assert!(cfg.max_time.is_none());
    assert!(cfg.output.is_none());
    assert!(!cfg.head_only);
    assert!(!cfg.ntlm);
    assert!(cfg.proxy_user.is_none());
    assert!(cfg.proxy_password.is_none());
    assert!(cfg.noproxy.is_none());
    assert!(cfg.cookie.is_none());
    assert!(cfg.cookie_jar.is_none());
    assert!(cfg.bearer.is_none());
    assert!(!cfg.compressed);
    assert!(!cfg.show_timing);
    assert!(cfg.user_agent.is_none());
    assert!(!cfg.silent);
    assert!(cfg.max_redirs.is_none());
    assert!(cfg.resolve.is_empty());
    assert!(!cfg.proxy_negotiate);
    assert!(!cfg.proxy_ntlm);
    assert!(!cfg.proxy_insecure);
    assert!(cfg.proxy_cacert.is_none());
    assert!(!cfg.ssl_no_revoke);
}

#[test]
fn config_builder_sets_all_fields() {
    let cfg = RequestConfig::new("https://test.com")
        .method(Method::Post)
        .negotiate(true)
        .insecure(true)
        .cacert("/ca.pem")
        .username("admin")
        .password("secret")
        .proxy("http://proxy:8080")
        .verbose(true)
        .header("Content-Type: application/json")
        .data("{\"key\":\"val\"}")
        .connect_timeout(Duration::from_secs(10))
        .max_time(Duration::from_secs(30))
        .output("/tmp/out.html")
        .head_only(true)
        .ntlm(true)
        .proxy_user("puser")
        .proxy_password("ppass")
        .noproxy("localhost,127.0.0.1")
        .cookie("/tmp/cookies")
        .cookie_jar("/tmp/jar")
        .bearer("tok123")
        .compressed(true)
        .show_timing(true)
        .user_agent("rustcurl/0.1")
        .silent(true)
        .max_redirs(5)
        .add_resolve("example.com:443:1.2.3.4")
        .proxy_negotiate(true)
        .proxy_ntlm(true)
        .proxy_insecure(true)
        .proxy_cacert("/proxy-ca.pem")
        .ssl_no_revoke(true);

    assert_eq!(cfg.method, Method::Post);
    assert!(cfg.negotiate);
    assert!(cfg.insecure);
    assert_eq!(cfg.cacert.as_deref(), Some("/ca.pem"));
    assert_eq!(cfg.username.as_deref(), Some("admin"));
    assert_eq!(cfg.password.as_deref(), Some("secret"));
    assert_eq!(cfg.proxy.as_deref(), Some("http://proxy:8080"));
    assert!(cfg.verbose);
    assert_eq!(cfg.headers, vec!["Content-Type: application/json"]);
    assert_eq!(cfg.data.as_deref(), Some("{\"key\":\"val\"}"));
    assert_eq!(cfg.connect_timeout, Some(Duration::from_secs(10)));
    assert_eq!(cfg.max_time, Some(Duration::from_secs(30)));
    assert_eq!(cfg.output.as_deref(), Some("/tmp/out.html"));
    assert!(cfg.head_only);
    assert!(cfg.ntlm);
    assert_eq!(cfg.proxy_user.as_deref(), Some("puser"));
    assert_eq!(cfg.proxy_password.as_deref(), Some("ppass"));
    assert_eq!(cfg.noproxy.as_deref(), Some("localhost,127.0.0.1"));
    assert_eq!(cfg.cookie.as_deref(), Some("/tmp/cookies"));
    assert_eq!(cfg.cookie_jar.as_deref(), Some("/tmp/jar"));
    assert_eq!(cfg.bearer.as_deref(), Some("tok123"));
    assert!(cfg.compressed);
    assert!(cfg.show_timing);
    assert_eq!(cfg.user_agent.as_deref(), Some("rustcurl/0.1"));
    assert!(cfg.silent);
    assert_eq!(cfg.max_redirs, Some(5));
    assert_eq!(cfg.resolve, vec!["example.com:443:1.2.3.4"]);
    assert!(cfg.proxy_negotiate);
    assert!(cfg.proxy_ntlm);
    assert!(cfg.proxy_insecure);
    assert_eq!(cfg.proxy_cacert.as_deref(), Some("/proxy-ca.pem"));
    assert!(cfg.ssl_no_revoke);
}

#[test]
fn config_clone() {
    let cfg = RequestConfig::new("https://a.com").insecure(true);
    let clone = cfg.clone();
    assert_eq!(clone.url, "https://a.com");
    assert!(clone.insecure);
}

#[test]
fn method_display() {
    assert_eq!(Method::Get.to_string(), "GET");
    assert_eq!(Method::Post.to_string(), "POST");
    assert_eq!(Method::Put.to_string(), "PUT");
    assert_eq!(Method::Delete.to_string(), "DELETE");
    assert_eq!(Method::Head.to_string(), "HEAD");
    assert_eq!(Method::Patch.to_string(), "PATCH");
    assert_eq!(Method::Options.to_string(), "OPTIONS");
    assert_eq!(Method::Custom("PURGE".into()).to_string(), "PURGE");
}

#[test]
fn method_as_str() {
    assert_eq!(Method::Get.as_str(), "GET");
    assert_eq!(Method::Custom("TRACE".into()).as_str(), "TRACE");
}

#[test]
fn config_multiple_headers() {
    let cfg = RequestConfig::new("https://x.com")
        .header("Accept: text/html")
        .header("X-Custom: foo");
    assert_eq!(cfg.headers.len(), 2);
}

#[test]
fn multiple_resolve_entries() {
    let cfg = RequestConfig::new("https://x.com")
        .add_resolve("a.com:443:1.1.1.1")
        .add_resolve("b.com:80:2.2.2.2");
    assert_eq!(cfg.resolve.len(), 2);
}
