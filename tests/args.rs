use rustcurl::{parse_args, parse_credentials, Method};
use std::time::Duration;

fn args(strs: &[&str]) -> Vec<String> {
    strs.iter().map(|s| s.to_string()).collect()
}

#[test]
fn credentials_with_password() {
    let (user, pass) = parse_credentials("admin:secret");
    assert_eq!(user, "admin");
    assert_eq!(pass.unwrap(), "secret");
}

#[test]
fn credentials_password_containing_colon() {
    let (user, pass) = parse_credentials("admin:s:e:c");
    assert_eq!(user, "admin");
    assert_eq!(pass.unwrap(), "s:e:c");
}

#[test]
fn credentials_no_password() {
    let (user, pass) = parse_credentials("admin");
    assert_eq!(user, "admin");
    assert!(pass.is_none());
}

#[test]
fn credentials_empty_password() {
    let (user, pass) = parse_credentials("admin:");
    assert_eq!(user, "admin");
    assert_eq!(pass.unwrap(), "");
}

#[test]
fn url_only() {
    let cfg = parse_args(&args(&["https://example.com"])).unwrap();
    assert_eq!(cfg.url, "https://example.com");
    assert_eq!(cfg.method, Method::Get);
    assert!(!cfg.negotiate);
    assert!(!cfg.insecure);
    assert!(!cfg.verbose);
}

#[test]
fn all_original_flags() {
    let cfg = parse_args(&args(&[
        "--negotiate", "-k", "--cacert", "/tmp/ca.pem", "-u", "admin:pass",
        "-x", "http://proxy:8080", "-v", "https://example.com",
    ]))
    .unwrap();

    assert_eq!(cfg.url, "https://example.com");
    assert!(cfg.negotiate);
    assert!(cfg.insecure);
    assert_eq!(cfg.cacert.as_deref(), Some("/tmp/ca.pem"));
    assert_eq!(cfg.username.as_deref(), Some("admin"));
    assert_eq!(cfg.password.as_deref(), Some("pass"));
    assert_eq!(cfg.proxy.as_deref(), Some("http://proxy:8080"));
    assert!(cfg.verbose);
}

#[test]
fn long_form_flags() {
    let cfg = parse_args(&args(&[
        "--insecure", "--user", "user:pw", "--proxy", "http://p:80",
        "--verbose", "https://test.com",
    ]))
    .unwrap();

    assert!(cfg.insecure);
    assert_eq!(cfg.username.as_deref(), Some("user"));
    assert_eq!(cfg.password.as_deref(), Some("pw"));
    assert_eq!(cfg.proxy.as_deref(), Some("http://p:80"));
    assert!(cfg.verbose);
}

#[test]
fn url_before_flags() {
    let cfg = parse_args(&args(&["https://first.com", "--insecure"])).unwrap();
    assert_eq!(cfg.url, "https://first.com");
    assert!(cfg.insecure);
}

#[test]
fn empty_is_error() {
    assert!(parse_args(&[]).is_err());
}

#[test]
fn no_url_is_error() {
    assert!(parse_args(&args(&["--negotiate"])).is_err());
}

#[test]
fn unknown_flag_is_error() {
    assert!(parse_args(&args(&["--bogus", "https://x.com"])).is_err());
}

#[test]
fn cacert_missing_path_is_error() {
    assert!(parse_args(&args(&["--cacert"])).is_err());
}

#[test]
fn user_missing_value_is_error() {
    assert!(parse_args(&args(&["-u"])).is_err());
}

#[test]
fn proxy_missing_value_is_error() {
    assert!(parse_args(&args(&["-x"])).is_err());
}

#[test]
fn explicit_method() {
    let cfg = parse_args(&args(&["-X", "PUT", "https://x.com"])).unwrap();
    assert_eq!(cfg.method, Method::Put);
}

#[test]
fn custom_method() {
    let cfg = parse_args(&args(&["-X", "PURGE", "https://x.com"])).unwrap();
    assert_eq!(cfg.method, Method::Custom("PURGE".into()));
}

#[test]
fn data_auto_sets_post() {
    let cfg = parse_args(&args(&["-d", "{}", "https://x.com"])).unwrap();
    assert_eq!(cfg.method, Method::Post);
    assert_eq!(cfg.data.as_deref(), Some("{}"));
}

#[test]
fn data_with_explicit_method_keeps_method() {
    let cfg = parse_args(&args(&["-X", "PUT", "-d", "body", "https://x.com"])).unwrap();
    assert_eq!(cfg.method, Method::Put);
    assert_eq!(cfg.data.as_deref(), Some("body"));
}

#[test]
fn head_flag_sets_head_method() {
    let cfg = parse_args(&args(&["-I", "https://x.com"])).unwrap();
    assert_eq!(cfg.method, Method::Head);
    assert!(cfg.head_only);
}

#[test]
fn head_long_form() {
    let cfg = parse_args(&args(&["--head", "https://x.com"])).unwrap();
    assert_eq!(cfg.method, Method::Head);
}

#[test]
fn args_multiple_headers() {
    let cfg = parse_args(&args(&[
        "-H", "Accept: text/html",
        "-H", "X-Custom: foo",
        "https://x.com",
    ]))
    .unwrap();
    assert_eq!(cfg.headers.len(), 2);
    assert_eq!(cfg.headers[0], "Accept: text/html");
    assert_eq!(cfg.headers[1], "X-Custom: foo");
}

#[test]
fn connect_timeout_and_max_time() {
    let cfg = parse_args(&args(&[
        "--connect-timeout", "10", "--max-time", "30", "https://x.com",
    ]))
    .unwrap();
    assert_eq!(cfg.connect_timeout, Some(Duration::from_secs(10)));
    assert_eq!(cfg.max_time, Some(Duration::from_secs(30)));
}

#[test]
fn connect_timeout_bad_value() {
    assert!(parse_args(&args(&["--connect-timeout", "abc", "https://x.com"])).is_err());
}

#[test]
fn output_flag() {
    let cfg = parse_args(&args(&["-o", "/tmp/out.html", "https://x.com"])).unwrap();
    assert_eq!(cfg.output.as_deref(), Some("/tmp/out.html"));
}

#[test]
fn silent_flag() {
    let cfg = parse_args(&args(&["-s", "https://x.com"])).unwrap();
    assert!(cfg.silent);
}

#[test]
fn ntlm_flag() {
    let cfg = parse_args(&args(&["--ntlm", "-u", "user:pass", "https://x.com"])).unwrap();
    assert!(cfg.ntlm);
}

#[test]
fn proxy_user_flag() {
    let cfg = parse_args(&args(&["--proxy-user", "puser:ppass", "https://x.com"])).unwrap();
    assert_eq!(cfg.proxy_user.as_deref(), Some("puser"));
    assert_eq!(cfg.proxy_password.as_deref(), Some("ppass"));
}

#[test]
fn noproxy_flag() {
    let cfg = parse_args(&args(&["--noproxy", "localhost,127.0.0.1", "https://x.com"])).unwrap();
    assert_eq!(cfg.noproxy.as_deref(), Some("localhost,127.0.0.1"));
}

#[test]
fn cookie_flags() {
    let cfg = parse_args(&args(&[
        "-b", "/tmp/cookies", "-c", "/tmp/jar", "https://x.com",
    ]))
    .unwrap();
    assert_eq!(cfg.cookie.as_deref(), Some("/tmp/cookies"));
    assert_eq!(cfg.cookie_jar.as_deref(), Some("/tmp/jar"));
}

#[test]
fn bearer_flag() {
    let cfg = parse_args(&args(&["--bearer", "tok123", "https://x.com"])).unwrap();
    assert_eq!(cfg.bearer.as_deref(), Some("tok123"));
}

#[test]
fn compressed_flag() {
    let cfg = parse_args(&args(&["--compressed", "https://x.com"])).unwrap();
    assert!(cfg.compressed);
}

#[test]
fn timing_flag() {
    let cfg = parse_args(&args(&["--timing", "https://x.com"])).unwrap();
    assert!(cfg.show_timing);
}

#[test]
fn user_agent_flag() {
    let cfg = parse_args(&args(&["-A", "myagent/1.0", "https://x.com"])).unwrap();
    assert_eq!(cfg.user_agent.as_deref(), Some("myagent/1.0"));
}

#[test]
fn max_redirs_flag() {
    let cfg = parse_args(&args(&["--max-redirs", "3", "https://x.com"])).unwrap();
    assert_eq!(cfg.max_redirs, Some(3));
}

#[test]
fn max_redirs_bad_value() {
    assert!(parse_args(&args(&["--max-redirs", "abc", "https://x.com"])).is_err());
}

#[test]
fn resolve_flag_repeatable() {
    let cfg = parse_args(&args(&[
        "--resolve", "a.com:443:1.1.1.1",
        "--resolve", "b.com:80:2.2.2.2",
        "https://x.com",
    ]))
    .unwrap();
    assert_eq!(cfg.resolve.len(), 2);
    assert_eq!(cfg.resolve[0], "a.com:443:1.1.1.1");
}

#[test]
fn all_new_flags_combined() {
    let cfg = parse_args(&args(&[
        "-X", "POST",
        "-H", "Content-Type: application/json",
        "-d", "{\"a\":1}",
        "-o", "/tmp/out",
        "-I",
        "-s",
        "-A", "agent/1",
        "-b", "/cookies",
        "-c", "/jar",
        "--ntlm",
        "--bearer", "token",
        "--proxy-user", "pu:pp",
        "--noproxy", "localhost",
        "--connect-timeout", "5",
        "--max-time", "60",
        "--max-redirs", "10",
        "--compressed",
        "--timing",
        "--resolve", "h:443:1.2.3.4",
        "https://example.com",
    ]))
    .unwrap();

    assert_eq!(cfg.method, Method::Post);
    assert_eq!(cfg.headers, vec!["Content-Type: application/json"]);
    assert_eq!(cfg.data.as_deref(), Some("{\"a\":1}"));
    assert_eq!(cfg.output.as_deref(), Some("/tmp/out"));
    assert!(cfg.head_only);
    assert!(cfg.silent);
    assert_eq!(cfg.user_agent.as_deref(), Some("agent/1"));
    assert_eq!(cfg.cookie.as_deref(), Some("/cookies"));
    assert_eq!(cfg.cookie_jar.as_deref(), Some("/jar"));
    assert!(cfg.ntlm);
    assert_eq!(cfg.bearer.as_deref(), Some("token"));
    assert_eq!(cfg.proxy_user.as_deref(), Some("pu"));
    assert_eq!(cfg.proxy_password.as_deref(), Some("pp"));
    assert_eq!(cfg.noproxy.as_deref(), Some("localhost"));
    assert_eq!(cfg.connect_timeout, Some(Duration::from_secs(5)));
    assert_eq!(cfg.max_time, Some(Duration::from_secs(60)));
    assert_eq!(cfg.max_redirs, Some(10));
    assert!(cfg.compressed);
    assert!(cfg.show_timing);
    assert_eq!(cfg.resolve, vec!["h:443:1.2.3.4"]);
}

#[test]
fn proxy_negotiate_flag() {
    let cfg = parse_args(&args(&["--proxy-negotiate", "-x", "http://proxy:8080", "https://x.com"])).unwrap();
    assert!(cfg.proxy_negotiate);
}

#[test]
fn proxy_ntlm_flag() {
    let cfg = parse_args(&args(&["--proxy-ntlm", "-x", "http://proxy:8080", "https://x.com"])).unwrap();
    assert!(cfg.proxy_ntlm);
}

#[test]
fn proxy_insecure_flag() {
    let cfg = parse_args(&args(&["--proxy-insecure", "-x", "http://proxy:8080", "https://x.com"])).unwrap();
    assert!(cfg.proxy_insecure);
}

#[test]
fn proxy_cacert_flag() {
    let cfg = parse_args(&args(&["--proxy-cacert", "/corp-ca.pem", "https://x.com"])).unwrap();
    assert_eq!(cfg.proxy_cacert.as_deref(), Some("/corp-ca.pem"));
}

#[test]
fn location_short_flag() {
    let cfg = parse_args(&args(&["-L", "https://x.com"])).unwrap();
    assert_eq!(cfg.url, "https://x.com");
}

#[test]
fn location_long_flag() {
    let cfg = parse_args(&args(&["--location", "https://x.com"])).unwrap();
    assert_eq!(cfg.url, "https://x.com");
}

#[test]
fn ssl_no_revoke_flag() {
    let cfg = parse_args(&args(&["--ssl-no-revoke", "https://x.com"])).unwrap();
    assert!(cfg.ssl_no_revoke);
}

#[test]
fn error_messages_name_the_option() {
    assert_eq!(parse_args(&args(&["-X"])).unwrap_err(), "-X requires a value");
    assert_eq!(parse_args(&args(&["--header"])).unwrap_err(), "-H requires a value");
    assert_eq!(
        parse_args(&args(&["--max-time", "1.5", "https://x.com"])).unwrap_err(),
        "--max-time requires a number of seconds"
    );
    assert_eq!(
        parse_args(&args(&["--max-redirs", "4294967296", "https://x.com"])).unwrap_err(),
        "--max-redirs requires a positive integer"
    );
    assert_eq!(parse_args(&args(&["--bogus", "https://x.com"])).unwrap_err(), "unknown option: --bogus");
    assert_eq!(parse_args(&args(&["-k"])).unwrap_err(), "URL is required");
    assert_eq!(parse_args(&[]).unwrap_err(), "no arguments provided");
}

#[test]
fn help_stops_the_scan() {
    assert!(matches!(
        rustcurl::parse_invocation(&args(&["-h", "--bogus"])),
        Ok(rustcurl::Invocation::Help)
    ));
    assert!(rustcurl::parse_invocation(&args(&["--bogus", "--help"])).is_err());
    assert_eq!(parse_args(&args(&["--help"])).unwrap_err(), "help requested");
}

#[test]
fn numbers_accept_a_plus_sign_and_the_largest_value() {
    let cfg = parse_args(&args(&["--max-redirs", "+4294967295", "--max-time", "18446744073709551615", "u"])).unwrap();
    assert_eq!(cfg.max_redirs, Some(u32::MAX));
    assert_eq!(cfg.max_time, Some(Duration::from_secs(u64::MAX)));
}

#[test]
fn last_url_and_credentials_win() {
    let cfg = parse_args(&args(&["https://a.com", "-u", "x:y", "-u", "z", "https://b.com"])).unwrap();
    assert_eq!(cfg.url, "https://b.com");
    assert_eq!(cfg.username.as_deref(), Some("z"));
    assert!(cfg.password.is_none());
}

#[test]
fn data_and_head_without_method_is_post() {
    let cfg = parse_args(&args(&["-I", "-d", "x", "https://x.com"])).unwrap();
    assert_eq!(cfg.method, Method::Post);
    let cfg = parse_args(&args(&["-X", "delete", "-d", "x", "https://x.com"])).unwrap();
    assert_eq!(cfg.method, Method::Delete);
}
