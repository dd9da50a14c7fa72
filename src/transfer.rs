//! The full-featured backend: the libcurl transfer that a descriptor stands
//! for, computed as a plan of option settings. The caller applies each
//! setting to the transport handle in order, then performs the transfer.

use crate::config::{Method, RequestConfig};
use crate::resolve::{
    resolve_noproxy, resolve_password, resolve_proxy, resolve_username, resolved_noproxy,
    resolved_password, resolved_proxy, resolved_username, text_of, Environment,
};
use crate::response::Timing;
use crate::text::{duration_from_secs, seconds};
use std::time::Duration;
use vstd::prelude::*;

verus! {

/// How the request method is configured on the transport.
#[derive(Debug, Clone, PartialEq)]
pub enum MethodAction {
    /// Leave the transport's default (`GET`).
    Get,
    /// Switch to `POST`.
    Post,
    /// Switch to upload (`PUT`).
    Put,
    /// Request no body (`HEAD`).
    NoBody,
    /// Send this verb as a custom request.
    Custom(String),
}

/// The method setting, and whether a no-body transfer is forced on top of it.
#[derive(Debug, Clone, PartialEq)]
pub struct MethodSetup {
    pub action: MethodAction,
    pub force_no_body: bool,
}

/// An authentication scheme other than basic.
#[derive(Debug, Clone, Copy, PartialEq, Eq)]
pub enum AuthScheme {
    Negotiate,
    Ntlm,
}

/// The authentication settings of the origin connection.
#[derive(Debug, Clone, PartialEq)]
pub struct AuthSetup {
    /// The scheme to enable, if any (basic needs none).
    pub scheme: Option<AuthScheme>,
    pub username: Option<String>,
    pub password: Option<String>,
}

/// The TLS, proxy, timeout, cookie and miscellaneous settings.
#[derive(Debug, Clone)]
pub struct TransferOptions {
    /// Turn off peer and host verification of the origin.
    pub skip_verification: bool,
    pub ca_info: Option<String>,
    pub proxy: Option<String>,
    pub no_proxy: Option<String>,
    /// Proxy authentication scheme; only set when a proxy is in use.
    pub proxy_auth: Option<AuthScheme>,
    pub proxy_username: Option<String>,
    pub proxy_password: Option<String>,
    /// Turn off peer and host verification of the proxy.
    pub proxy_skip_verification: bool,
    pub proxy_ca_info: Option<String>,
    pub connect_timeout: Option<Duration>,
    pub timeout: Option<Duration>,
    pub cookie_file: Option<String>,
    pub cookie_jar: Option<String>,
    /// Accept every encoding the transport supports.
    pub accept_compressed: bool,
    pub user_agent: String,
    pub max_redirections: Option<u32>,
    /// Turn off revocation checks, for the origin and the proxy alike.
    pub no_revoke: bool,
    pub verbose: bool,
}

/// Everything the transport handle is configured with for one transfer.
#[derive(Debug, Clone)]
pub struct TransferPlan {
    pub url: String,
    /// Always true: redirects are followed, up to `max_redirections`.
    pub follow_location: bool,
    pub method: MethodSetup,
    pub auth: AuthSetup,
    pub headers: Vec<String>,
    /// Body sent as post fields, with its size.
    pub body: Option<String>,
    pub options: TransferOptions,
    /// Resolution overrides; none when the descriptor lists none.
    pub resolve: Option<Vec<String>>,
}

/// The user agent sent when the descriptor names none.
pub open spec fn default_user_agent() -> Seq<char> {
    "Mozilla/5.0 (Windows NT 10.0; Win64; x64) AppleWebKit/537.36 (KHTML, like Gecko) Chrome/131.0.0.0 Safari/537.36 Edg/131.0.0.0"@
}

/// The method action that a method stands for.
pub open spec fn action_matches(m: Method, a: MethodAction) -> bool {
    match m {
        Method::Get => a == MethodAction::Get,
        Method::Post => a == MethodAction::Post,
        Method::Put => a == MethodAction::Put,
        Method::Head => a == MethodAction::NoBody,
        Method::Delete => a matches MethodAction::Custom(s) && s@ == "DELETE"@,
        Method::Patch => a matches MethodAction::Custom(s) && s@ == "PATCH"@,
        Method::Options => a matches MethodAction::Custom(s) && s@ == "OPTIONS"@,
        Method::Custom(v) => a matches MethodAction::Custom(s) && s@ == v@,
    }
}

/// The method setting: the method's own action, with a no-body transfer
/// forced for head-only requests whose method is not `HEAD`.
pub fn apply_method(config: &RequestConfig) -> (r: MethodSetup)
    ensures
        action_matches(config.method, r.action),
        r.force_no_body == (config.head_only && !(config.method is Head)),
{
    let action = match &config.method {
        Method::Get => MethodAction::Get,
        Method::Post => MethodAction::Post,
        Method::Put => MethodAction::Put,
        Method::Head => MethodAction::NoBody,
        m => MethodAction::Custom(String::from_str(m.as_str())),
    };
    let is_head = match &config.method {
        Method::Head => true,
        _ => false,
    };
    MethodSetup { action, force_no_body: config.head_only && !is_head }
}

/// The text of an optional value, or the empty text.
pub open spec fn or_empty(o: Option<Seq<char>>) -> Seq<char> {
    match o {
        Some(s) => s,
        None => Seq::empty(),
    }
}

/// The origin's authentication: negotiate wins over NTLM, which wins over
/// basic; negotiate and NTLM take the resolved credentials, empty when
/// unresolved; basic is used only when a user name resolves.
pub open spec fn auth_matches(c: RequestConfig, env: Seq<(Seq<char>, Seq<char>)>, a: AuthSetup) -> bool {
    let user = resolved_username(c, env);
    let pass = resolved_password(c, env);
    if c.negotiate || c.ntlm {
        &&& a.scheme == Some(if c.negotiate {
            AuthScheme::Negotiate
        } else {
            AuthScheme::Ntlm
        })
        &&& text_of(a.username) == Some(or_empty(user))
        &&& text_of(a.password) == Some(or_empty(pass))
    } else if user is Some {
        &&& a.scheme is None
        &&& text_of(a.username) == user
        &&& text_of(a.password) == pass
    } else {
        &&& a.scheme is None
        &&& a.username is None
        &&& a.password is None
    }
}

fn text_or_empty(o: Option<String>) -> (r: String)
    ensures
        r@ == or_empty(text_of(o)),
{
    match o {
        Some(s) => s,
        None => String::new(),
    }
}

/// The authentication settings of the origin connection.
pub fn apply_auth(config: &RequestConfig, env: &Environment) -> (r: AuthSetup)
    ensures
        auth_matches(*config, env@, r),
{
    let user = resolve_username(config, env);
    let pass = resolve_password(config, env);
    if config.negotiate || config.ntlm {
        let scheme = if config.negotiate {
            AuthScheme::Negotiate
        } else {
            AuthScheme::Ntlm
        };
        AuthSetup {
            scheme: Some(scheme),
            username: Some(text_or_empty(user)),
            password: Some(text_or_empty(pass)),
        }
    } else if user.is_some() {
        AuthSetup { scheme: None, username: user, password: pass }
    } else {
        AuthSetup { scheme: None, username: None, password: None }
    }
}

/// The header line that carries a bearer token.
pub open spec fn bearer_line(token: Seq<char>) -> Seq<char> {
    "Authorization: Bearer "@ + token
}

/// The header lines sent: the explicit ones in order, then a bearer line
/// when a token is set.
pub open spec fn sent_headers(c: RequestConfig) -> Seq<Seq<char>> {
    match c.bearer {
        Some(t) => c.headers.deep_view().push(bearer_line(t@)),
        None => c.headers.deep_view(),
    }
}

/// Builds the header lines of the request.
pub fn build_headers(config: &RequestConfig) -> (r: Vec<String>)
    ensures
        r.deep_view() == sent_headers(*config),
{
    let mut list: Vec<String> = Vec::new();
    let mut i: usize = 0;
    while i < config.headers.len()
        invariant
            i <= config.headers@.len(),
            list.deep_view() == config.headers.deep_view().subrange(0, i as int),
        decreases config.headers@.len() - i,
    {
        let ghost before = list.deep_view();
        list.push(config.headers[i].clone());
        assert(list.deep_view() =~= before.push(config.headers.deep_view()[i as int]));
        assert(config.headers.deep_view().subrange(0, i + 1) =~= config.headers.deep_view().subrange(
            0,
            i as int,
        ).push(config.headers.deep_view()[i as int]));
        i = i + 1;
    }
    assert(config.headers.deep_view().subrange(0, i as int) =~= config.headers.deep_view());
    if let Some(token) = &config.bearer {
        let ghost before = list.deep_view();
        list.push(String::from_str("Authorization: Bearer ").concat(token.as_str()));
        assert(list.deep_view() =~= before.push(bearer_line(token@)));
    }
    list
}

fn copy_text(o: &Option<String>) -> (r: Option<String>)
    ensures
        r == *o,
{
    match o {
        Some(s) => Some(s.clone()),
        None => None,
    }
}

/// The options of the transfer, from the descriptor and the resolved proxy
/// settings. Proxy authentication is only configured when a proxy is in
/// use; with proxy negotiate and no proxy user, the user name is `:` so that
/// the ambient identity is used.
pub open spec fn options_match(c: RequestConfig, env: Seq<(Seq<char>, Seq<char>)>, o: TransferOptions) -> bool {
    let proxy = resolved_proxy(c, env);
    &&& o.skip_verification == c.insecure
    &&& o.ca_info == c.cacert
    &&& text_of(o.proxy) == proxy
    &&& text_of(o.no_proxy) == resolved_noproxy(c, env)
    &&& o.proxy_auth == (if proxy is Some && c.proxy_negotiate {
        Some(AuthScheme::Negotiate)
    } else if proxy is Some && c.proxy_ntlm {
        Some(AuthScheme::Ntlm)
    } else {
        None
    })
    &&& text_of(o.proxy_username) == (if proxy is Some && c.proxy_negotiate && c.proxy_user is None {
        Some(":"@)
    } else {
        text_of(c.proxy_user)
    })
    &&& o.proxy_password == c.proxy_password
    &&& o.proxy_skip_verification == c.proxy_insecure
    &&& o.proxy_ca_info == c.proxy_cacert
    &&& o.connect_timeout == c.connect_timeout
    &&& o.timeout == c.max_time
    &&& o.cookie_file == c.cookie
    &&& o.cookie_jar == c.cookie_jar
    &&& o.accept_compressed == c.compressed
    &&& o.user_agent@ == (match c.user_agent {
        Some(ua) => ua@,
        None => default_user_agent(),
    })
    &&& o.max_redirections == c.max_redirs
    &&& o.no_revoke == c.ssl_no_revoke
    &&& o.verbose == c.verbose
}

/// The TLS, proxy, timeout, cookie and miscellaneous options.
pub fn apply_options(config: &RequestConfig, env: &Environment) -> (r: TransferOptions)
    ensures
        options_match(*config, env@, r),
{
    let proxy = resolve_proxy(config, env);
    let has_proxy = proxy.is_some();
    let proxy_auth = if has_proxy && config.proxy_negotiate {
        Some(AuthScheme::Negotiate)
    } else if has_proxy && config.proxy_ntlm {
        Some(AuthScheme::Ntlm)
    } else {
        None
    };
    let proxy_username = if has_proxy && config.proxy_negotiate && config.proxy_user.is_none() {
        Some(String::from_str(":"))
    } else {
        copy_text(&config.proxy_user)
    };
    let user_agent = match &config.user_agent {
        Some(ua) => ua.clone(),
        None => String::from_str(
            "Mozilla/5.0 (Windows NT 10.0; Win64; x64) AppleWebKit/537.36 (KHTML, like Gecko) Chrome/131.0.0.0 Safari/537.36 Edg/131.0.0.0",
        ),
    };
    TransferOptions {
        skip_verification: config.insecure,
        ca_info: copy_text(&config.cacert),
        proxy,
        no_proxy: resolve_noproxy(config, env),
        proxy_auth,
        proxy_username,
        proxy_password: copy_text(&config.proxy_password),
        proxy_skip_verification: config.proxy_insecure,
        proxy_ca_info: copy_text(&config.proxy_cacert),
        connect_timeout: config.connect_timeout,
        timeout: config.max_time,
        cookie_file: copy_text(&config.cookie),
        cookie_jar: copy_text(&config.cookie_jar),
        accept_compressed: config.compressed,
        user_agent,
        max_redirections: config.max_redirs,
        no_revoke: config.ssl_no_revoke,
        verbose: config.verbose,
    }
}

/// The resolution overrides: none when the descriptor lists none, else all
/// of them in order.
pub fn apply_resolve(config: &RequestConfig) -> (r: Option<Vec<String>>)
    ensures
        config.resolve@.len() == 0 ==> r is None,
        config.resolve@.len() > 0 ==> (r matches Some(v) && v.deep_view() == config.resolve.deep_view()),
{
    if config.resolve.len() == 0 {
        return None;
    }
    let mut list: Vec<String> = Vec::new();
    let mut i: usize = 0;
    while i < config.resolve.len()
        invariant
            i <= config.resolve@.len(),
            list.deep_view() == config.resolve.deep_view().subrange(0, i as int),
        decreases config.resolve@.len() - i,
    {
        let ghost before = list.deep_view();
        list.push(config.resolve[i].clone());
        assert(list.deep_view() =~= before.push(config.resolve.deep_view()[i as int]));
        assert(config.resolve.deep_view().subrange(0, i + 1) =~= config.resolve.deep_view().subrange(
            0,
            i as int,
        ).push(config.resolve.deep_view()[i as int]));
        i = i + 1;
    }
    assert(config.resolve.deep_view().subrange(0, i as int) =~= config.resolve.deep_view());
    Some(list)
}

/// A measured phase, or zero when the transport has no figure for it.
pub open spec fn phase_or_zero(d: Option<Duration>) -> Duration {
    match d {
        Some(v) => v,
        None => duration_from_secs(0),
    }
}

fn or_zero(d: Option<Duration>) -> (r: Duration)
    ensures
        r == phase_or_zero(d),
{
    match d {
        Some(v) => v,
        None => seconds(0),
    }
}

/// The timing breakdown from the phases the transport measured; a phase it
/// could not report is zero.
pub fn collect_timing(
    dns: Option<Duration>,
    connect: Option<Duration>,
    tls: Option<Duration>,
    starttransfer: Option<Duration>,
    total: Option<Duration>,
    redirect: Option<Duration>,
) -> (r: Timing)
    ensures
        r.dns == phase_or_zero(dns),
        r.connect == phase_or_zero(connect),
        r.tls == phase_or_zero(tls),
        r.starttransfer == phase_or_zero(starttransfer),
        r.total == phase_or_zero(total),
        r.redirect == phase_or_zero(redirect),
{
    Timing {
        dns: or_zero(dns),
        connect: or_zero(connect),
        tls: or_zero(tls),
        starttransfer: or_zero(starttransfer),
        total: or_zero(total),
        redirect: or_zero(redirect),
    }
}

/// The whole transfer plan of a descriptor, its credentials and proxy
/// settings resolved against `env`.
pub fn transfer_plan(config: &RequestConfig, env: &Environment) -> (r: TransferPlan)
    ensures
        r.url@ == config.url@,
        r.follow_location,
        action_matches(config.method, r.method.action),
        r.method.force_no_body == (config.head_only && !(config.method is Head)),
        auth_matches(*config, env@, r.auth),
        r.headers.deep_view() == sent_headers(*config),
        r.body == config.data,
        options_match(*config, env@, r.options),
        config.resolve@.len() == 0 ==> r.resolve is None,
        config.resolve@.len() > 0 ==> (r.resolve matches Some(v) && v.deep_view()
            == config.resolve.deep_view()),
{
    TransferPlan {
        url: config.url.clone(),
        follow_location: true,
        method: apply_method(config),
        auth: apply_auth(config, env),
        headers: build_headers(config),
        body: copy_text(&config.data),
        options: apply_options(config, env),
        resolve: apply_resolve(config),
    }
}

/// A bearer token adds exactly one header line, after every explicit line,
/// which are all kept unchanged, including any `Authorization` line.
pub proof fn lemma_bearer_appended(c: RequestConfig)
    requires
        c.bearer is Some,
    ensures
        sent_headers(c).len() == c.headers@.len() + 1,
        sent_headers(c).subrange(0, c.headers@.len() as int) == c.headers.deep_view(),
        sent_headers(c).last() == bearer_line(c.bearer->0@),
{
    assert(sent_headers(c).subrange(0, c.headers@.len() as int) =~= c.headers.deep_view());
}

} // verus!
