//! The reduced backend: the settings of a higher-level HTTP client built
//! once per request, and the request made with it. Its authentication
//! surface is narrower than the full-featured backend's; where it cannot do
//! what was asked, the settings record the documented fallback.

use crate::config::{method_name, RequestConfig};
use crate::error::RequestError;
use crate::resolve::{
    resolve_noproxy, resolve_password, resolve_proxy, resolve_username, resolved_noproxy,
    resolved_password, resolved_proxy, resolved_username, text_of, Environment,
};
use crate::response::{trim, trim_text};
use crate::text::{split_first, split_once};
use crate::transfer::{default_user_agent, or_empty};
use reqwest::Method as WireMethod;
use std::time::Duration;
use vstd::prelude::*;

verus! {

#[verifier::external_type_specification]
#[verifier::external_body]
pub struct ExWireMethod(WireMethod);

/// Whether `c` may appear in a method token.
pub open spec fn is_token_char(c: char) -> bool {
    ||| 'a' <= c <= 'z'
    ||| 'A' <= c <= 'Z'
    ||| '0' <= c <= '9'
    ||| c == '!' || c == '#' || c == '$' || c == '%' || c == '&' || c == '\'' || c == '*'
    ||| c == '+' || c == '-' || c == '.' || c == '^' || c == '_' || c == '`' || c == '|' || c == '~'
}

/// Whether `s` is a valid method token: one or more token characters.
pub open spec fn is_method_token(s: Seq<char>) -> bool {
    s.len() > 0 && forall|i: int| 0 <= i < s.len() ==> is_token_char(#[trigger] s[i])
}

/// Relies on `reqwest::Method::from_bytes` (the `http` crate's method type):
/// it accepts exactly the non-empty texts made of token characters, and its
/// error displays as `invalid HTTP method`.
#[verifier::external_body]
fn method_from_text(s: &str) -> (r: Result<WireMethod, String>)
    ensures
        r is Ok <==> is_method_token(s@),
        r matches Err(e) ==> e@ == "invalid HTTP method"@,
{
    match WireMethod::from_bytes(s.as_bytes()) {
        Ok(m) => Ok(m),
        Err(e) => Err(e.to_string()),
    }
}

/// The authentication the client is built with.
#[derive(Debug, Clone, PartialEq)]
pub enum ClientAuth {
    /// SPNEGO with explicit credentials; a missing part is empty.
    NegotiateWith { username: String, password: String },
    /// SPNEGO with the ambient system identity.
    NegotiateAmbient,
    /// Basic credentials.
    Basic { username: String, password: Option<String> },
    /// No authentication.
    Anonymous,
}

/// The proxy the client goes through, with basic credentials if any.
#[derive(Debug, Clone, PartialEq)]
pub struct ProxySetup {
    pub url: String,
    pub basic: Option<(String, String)>,
}

/// The settings the client is built with.
#[derive(Debug, Clone)]
pub struct ClientSettings {
    pub auth: ClientAuth,
    /// Accept invalid certificates.
    pub accept_invalid_certs: bool,
    /// A root certificate file to add.
    pub ca_cert: Option<String>,
    pub proxy: Option<ProxySetup>,
    /// Turn every proxy off, the one above included.
    pub disable_proxies: bool,
    pub connect_timeout: Option<Duration>,
    pub timeout: Option<Duration>,
    pub max_redirects: Option<u32>,
    /// The descriptor's user agent, or the same browser-like default as the
    /// full-featured backend.
    pub user_agent: String,
}

/// The request made with the client.
#[derive(Debug)]
pub struct RequestSetup {
    pub method: WireMethod,
    pub url: String,
    /// Header names and values, trimmed, in order.
    pub headers: Vec<(String, String)>,
    /// Token sent as `Authorization: Bearer <token>` after the headers.
    pub bearer: Option<String>,
    pub body: Option<String>,
}

/// The client's authentication. Negotiate wins: with explicit credentials
/// when either part resolves, else with the ambient identity. NTLM cannot be
/// done, so it falls back to basic when both parts resolve and to none
/// otherwise. Without either scheme, a resolved user name gives basic.
pub open spec fn client_auth_matches(c: RequestConfig, env: Seq<(Seq<char>, Seq<char>)>, a: ClientAuth) -> bool {
    let user = resolved_username(c, env);
    let pass = resolved_password(c, env);
    if c.negotiate {
        if user is Some || pass is Some {
            a matches ClientAuth::NegotiateWith { username, password } && username@ == or_empty(user)
                && password@ == or_empty(pass)
        } else {
            a == ClientAuth::NegotiateAmbient
        }
    } else if c.ntlm {
        if user is Some && pass is Some {
            a matches ClientAuth::Basic { username, password } && Some(username@) == user && text_of(
                password,
            ) == pass
        } else {
            a == ClientAuth::Anonymous
        }
    } else if user is Some {
        a matches ClientAuth::Basic { username, password } && Some(username@) == user && text_of(password)
            == pass
    } else {
        a == ClientAuth::Anonymous
    }
}

/// The proxy setting: the resolved proxy, with basic credentials when a proxy
/// user is set (proxy negotiate and NTLM cannot be done and fall back to
/// them); a missing proxy password is empty.
pub open spec fn proxy_matches(c: RequestConfig, env: Seq<(Seq<char>, Seq<char>)>, p: Option<ProxySetup>) -> bool {
    match resolved_proxy(c, env) {
        None => p is None,
        Some(url) => p matches Some(s) && s.url@ == url && match c.proxy_user {
            Some(u) => s.basic matches Some(b) && b.0@ == u@ && b.1@ == or_empty(text_of(c.proxy_password)),
            None => s.basic is None,
        },
    }
}

fn text_or_empty(o: Option<String>) -> (r: String)
    ensures
        r@ == or_empty(text_of(o)),
{
    match o {
        Some(s) => s,
        None => String::new(),
    }
}

fn copy_text(o: &Option<String>) -> (r: Option<String>)
    ensures
        r == *o,
{
    match o {
        Some(s) => Some(s.clone()),
        None => None,
    }
}

/// The settings of the client for a descriptor, its credentials and proxy
/// settings resolved against `env`.
pub fn build_client(config: &RequestConfig, env: &Environment) -> (r: ClientSettings)
    ensures
        client_auth_matches(*config, env@, r.auth),
        r.accept_invalid_certs == config.insecure,
        r.ca_cert == config.cacert,
        proxy_matches(*config, env@, r.proxy),
        r.disable_proxies == resolved_noproxy(*config, env@) is Some,
        r.connect_timeout == config.connect_timeout,
        r.timeout == config.max_time,
        r.max_redirects == config.max_redirs,
        r.user_agent@ == (match config.user_agent {
            Some(ua) => ua@,
            None => default_user_agent(),
        }),
{
    let user = resolve_username(config, env);
    let pass = resolve_password(config, env);
    let auth = if config.negotiate {
        if user.is_some() || pass.is_some() {
            ClientAuth::NegotiateWith { username: text_or_empty(user), password: text_or_empty(pass) }
        } else {
            ClientAuth::NegotiateAmbient
        }
    } else if config.ntlm {
        match (user, pass) {
            (Some(u), Some(p)) => ClientAuth::Basic { username: u, password: Some(p) },
            _ => ClientAuth::Anonymous,
        }
    } else {
        match user {
            Some(u) => ClientAuth::Basic { username: u, password: pass },
            None => ClientAuth::Anonymous,
        }
    };
    let proxy = match resolve_proxy(config, env) {
        Some(url) => {
            let basic = match &config.proxy_user {
                Some(u) => Some((u.clone(), text_or_empty(copy_text(&config.proxy_password)))),
                None => None,
            };
            Some(ProxySetup { url, basic })
        },
        None => None,
    };
    let user_agent = match &config.user_agent {
        Some(ua) => ua.clone(),
        None => String::from_str(
            "Mozilla/5.0 (Windows NT 10.0; Win64; x64) AppleWebKit/537.36 (KHTML, like Gecko) Chrome/131.0.0.0 Safari/537.36 Edg/131.0.0.0",
        ),
    };
    ClientSettings {
        auth,
        accept_invalid_certs: config.insecure,
        ca_cert: copy_text(&config.cacert),
        proxy,
        disable_proxies: resolve_noproxy(config, env).is_some(),
        connect_timeout: config.connect_timeout,
        timeout: config.max_time,
        max_redirects: config.max_redirs,
        user_agent,
    }
}

/// The header fields of raw header lines: the trimmed name before the first
/// colon and the trimmed value after it; lines without a colon are dropped.
pub open spec fn header_fields(lines: Seq<Seq<char>>) -> Seq<(Seq<char>, Seq<char>)>
    decreases lines.len(),
{
    if lines.len() == 0 {
        Seq::empty()
    } else {
        let rest = header_fields(lines.drop_last());
        match split_first(lines.last(), ':') {
            Some((k, v)) => rest.push((trim(k), trim(v))),
            None => rest,
        }
    }
}

/// The texts of a list of name/value pairs.
pub open spec fn field_texts(v: Seq<(String, String)>) -> Seq<(Seq<char>, Seq<char>)> {
    v.map_values(|p: (String, String)| (p.0@, p.1@))
}

/// Splits raw header lines into trimmed names and values.
pub fn split_headers(lines: &Vec<String>) -> (r: Vec<(String, String)>)
    ensures
        field_texts(r@) == header_fields(lines.deep_view()),
{
    let mut out: Vec<(String, String)> = Vec::new();
    let mut i: usize = 0;
    while i < lines.len()
        invariant
            i <= lines@.len(),
            field_texts(out@) == header_fields(lines.deep_view().subrange(0, i as int)),
        decreases lines@.len() - i,
    {
        let line = lines[i].as_str();
        let ghost seen = lines.deep_view().subrange(0, i + 1);
        assert(seen.drop_last() =~= lines.deep_view().subrange(0, i as int));
        assert(seen.last() == line@);
        match split_once(line, ':') {
            Some((k, v)) => {
                let name = trim_text(k.as_str());
                let value = trim_text(v.as_str());
                let ghost before = out@;
                out.push((name, value));
                assert(field_texts(out@) =~= field_texts(before).push((name@, value@)));
            },
            None => {},
        }
        i = i + 1;
    }
    assert(lines.deep_view().subrange(0, i as int) =~= lines.deep_view());
    out
}

/// The request made with the client. A method that is not a valid token is
/// a configuration error.
pub fn prepare_request(config: &RequestConfig) -> (r: Result<RequestSetup, RequestError>)
    ensures
        r is Ok <==> is_method_token(method_name(config.method)),
        r matches Err(e) ==> (e matches RequestError::Config(m) && m@ == "Invalid method: invalid HTTP method"@),
        r matches Ok(s) ==> s.url@ == config.url@ && field_texts(s.headers@) == header_fields(
            config.headers.deep_view(),
        ) && s.bearer == config.bearer && s.body == config.data,
{
    let method = match method_from_text(config.method.as_str()) {
        Ok(m) => m,
        Err(e) => {
            let m = String::from_str("Invalid method: ").concat(e.as_str());
            proof {
                reveal_strlit("Invalid method: ");
                reveal_strlit("invalid HTTP method");
                reveal_strlit("Invalid method: invalid HTTP method");
                assert(m@ =~= "Invalid method: invalid HTTP method"@);
            }
            return Err(RequestError::Config(m));
        },
    };
    Ok(
        RequestSetup {
            method,
            url: config.url.clone(),
            headers: split_headers(&config.headers),
            bearer: copy_text(&config.bearer),
            body: copy_text(&config.data),
        },
    )
}

/// Requesting NTLM without both credentials is not an error: the request
/// goes out without authentication.
pub proof fn lemma_ntlm_without_credentials_is_anonymous(
    c: RequestConfig,
    env: Seq<(Seq<char>, Seq<char>)>,
    a: ClientAuth,
)
    requires
        !c.negotiate,
        c.ntlm,
        resolved_username(c, env) is None || resolved_password(c, env) is None,
        client_auth_matches(c, env, a),
    ensures
        a == ClientAuth::Anonymous,
{
}

} // verus!
