//! The request descriptor: everything needed to perform one HTTP transaction.

use std::time::Duration;
use vstd::prelude::*;

verus! {

/// An HTTP method: one of the common verbs, or any other verb as given.
#[derive(Debug, Clone, PartialEq)]
pub enum Method {
    Get,
    Post,
    Put,
    Delete,
    Head,
    Patch,
    Options,
    Custom(String),
}

/// The verb that a method stands for, as it is sent on the wire.
pub open spec fn method_name(m: Method) -> Seq<char> {
    match m {
        Method::Get => "GET"@,
        Method::Post => "POST"@,
        Method::Put => "PUT"@,
        Method::Delete => "DELETE"@,
        Method::Head => "HEAD"@,
        Method::Patch => "PATCH"@,
        Method::Options => "OPTIONS"@,
        Method::Custom(s) => s@,
    }
}

impl Method {
    /// The verb as text.
    pub fn as_str(&self) -> (r: &str)
        ensures
            r@ == method_name(*self),
    {
        match self {
            Method::Get => "GET",
            Method::Post => "POST",
            Method::Put => "PUT",
            Method::Delete => "DELETE",
            Method::Head => "HEAD",
            Method::Patch => "PATCH",
            Method::Options => "OPTIONS",
            Method::Custom(s) => s.as_str(),
        }
    }

    /// The verb as an owned text.
    pub fn to_string(&self) -> (r: String)
        ensures
            r@ == method_name(*self),
    {
        String::from_str(self.as_str())
    }
}

/// `o` holds a text whose characters are `s`.
pub open spec fn holds_text(o: Option<String>, s: Seq<char>) -> bool {
    o matches Some(v) && v@ == s
}

/// Everything needed to perform one HTTP transaction.
#[derive(Debug, Clone)]
pub struct RequestConfig {
    /// Target URL; the only mandatory field.
    pub url: String,
    /// HTTP method to send.
    pub method: Method,
    /// Use SPNEGO (Kerberos) authentication with the origin.
    pub negotiate: bool,
    /// Skip verification of the origin's certificate and host name.
    pub insecure: bool,
    /// Path of a CA bundle for the origin connection.
    pub cacert: Option<String>,
    /// Explicit user name; the environment is consulted when unset.
    pub username: Option<String>,
    /// Explicit password; the environment is consulted when unset.
    pub password: Option<String>,
    /// Explicit proxy URL; the environment is consulted when unset.
    pub proxy: Option<String>,
    /// Ask the transport for verbose logging.
    pub verbose: bool,
    /// Raw `Name: Value` header lines, sent in this order.
    pub headers: Vec<String>,
    /// Request body.
    pub data: Option<String>,
    /// Limit on the connection phase.
    pub connect_timeout: Option<Duration>,
    /// Limit on the whole transfer.
    pub max_time: Option<Duration>,
    /// File that receives the body instead of the in-memory response.
    pub output: Option<String>,
    /// Fetch headers only (no body transfer).
    pub head_only: bool,
    /// Use NTLM authentication with the origin.
    pub ntlm: bool,
    /// User name for the proxy.
    pub proxy_user: Option<String>,
    /// Password for the proxy.
    pub proxy_password: Option<String>,
    /// Explicit list of hosts that bypass the proxy.
    pub noproxy: Option<String>,
    /// Cookie file read at the start of the request.
    pub cookie: Option<String>,
    /// Cookie jar written at the end of the request.
    pub cookie_jar: Option<String>,
    /// Bearer token sent in an `Authorization` header.
    pub bearer: Option<String>,
    /// Accept compressed responses.
    pub compressed: bool,
    /// Report the timing breakdown of the transfer.
    pub show_timing: bool,
    /// User agent; a fixed browser-like string is used when unset.
    pub user_agent: Option<String>,
    /// Presentation flag for the caller: print the body only.
    pub silent: bool,
    /// Cap on the number of redirects followed (following is always on).
    pub max_redirs: Option<u32>,
    /// `host:port:address` overrides for name resolution, in order.
    pub resolve: Vec<String>,
    /// Use SPNEGO authentication with the proxy.
    pub proxy_negotiate: bool,
    /// Use NTLM authentication with the proxy.
    pub proxy_ntlm: bool,
    /// Skip verification of the proxy's certificate.
    pub proxy_insecure: bool,
    /// Path of a CA bundle for the proxy connection.
    pub proxy_cacert: Option<String>,
    /// Disable certificate revocation checks.
    pub ssl_no_revoke: bool,
}

impl RequestConfig {
    /// A descriptor for `url` with every other field at its default: `GET`,
    /// no flags set, no optional value present, no headers.
    pub fn new(url: &str) -> (r: Self)
        ensures
            r.url@ == url@,
            r.headers@.len() == 0,
            r.resolve@.len() == 0,
            r == (RequestConfig {
                url: r.url,
                method: Method::Get,
                negotiate: false,
                insecure: false,
                cacert: None,
                username: None,
                password: None,
                proxy: None,
                verbose: false,
                headers: r.headers,
                data: None,
                connect_timeout: None,
                max_time: None,
                output: None,
                head_only: false,
                ntlm: false,
                proxy_user: None,
                proxy_password: None,
                noproxy: None,
                cookie: None,
                cookie_jar: None,
                bearer: None,
                compressed: false,
                show_timing: false,
                user_agent: None,
                silent: false,
                max_redirs: None,
                resolve: r.resolve,
                proxy_negotiate: false,
                proxy_ntlm: false,
                proxy_insecure: false,
                proxy_cacert: None,
                ssl_no_revoke: false,
            }),
    {
        RequestConfig {
            url: String::from_str(url),
            method: Method::Get,
            negotiate: false,
            insecure: false,
            cacert: None,
            username: None,
            password: None,
            proxy: None,
            verbose: false,
            headers: Vec::new(),
            data: None,
            connect_timeout: None,
            max_time: None,
            output: None,
            head_only: false,
            ntlm: false,
            proxy_user: None,
            proxy_password: None,
            noproxy: None,
            cookie: None,
            cookie_jar: None,
            bearer: None,
            compressed: false,
            show_timing: false,
            user_agent: None,
            silent: false,
            max_redirs: None,
            resolve: Vec::new(),
            proxy_negotiate: false,
            proxy_ntlm: false,
            proxy_insecure: false,
            proxy_cacert: None,
            ssl_no_revoke: false,
        }
    }

    /// Sets the method.
    pub fn method(self, method: Method) -> (r: Self)
        ensures
            r == (RequestConfig { method: method, ..self }),
    {
        let mut c = self;
        c.method = method;
        c
    }

    /// Sets `negotiate`.
    pub fn negotiate(self, enable: bool) -> (r: Self)
        ensures
            r == (RequestConfig { negotiate: enable, ..self }),
    {
        let mut c = self;
        c.negotiate = enable;
        c
    }

    /// Sets `insecure`.
    pub fn insecure(self, enable: bool) -> (r: Self)
        ensures
            r == (RequestConfig { insecure: enable, ..self }),
    {
        let mut c = self;
        c.insecure = enable;
        c
    }

    /// Sets `cacert`.
    pub fn cacert(self, path: &str) -> (r: Self)
        ensures
            r == (RequestConfig { cacert: r.cacert, ..self }),
            holds_text(r.cacert, path@),
    {
        let mut c = self;
        c.cacert = Some(String::from_str(path));
        c
    }

    /// Sets `username`.
    pub fn username(self, user: &str) -> (r: Self)
        ensures
            r == (RequestConfig { username: r.username, ..self }),
            holds_text(r.username, user@),
    {
        let mut c = self;
        c.username = Some(String::from_str(user));
        c
    }

    /// Sets `password`.
    pub fn password(self, pass: &str) -> (r: Self)
        ensures
            r == (RequestConfig { password: r.password, ..self }),
            holds_text(r.password, pass@),
    {
        let mut c = self;
        c.password = Some(String::from_str(pass));
        c
    }

    /// Sets `proxy`.
    pub fn proxy(self, proxy_url: &str) -> (r: Self)
        ensures
            r == (RequestConfig { proxy: r.proxy, ..self }),
            holds_text(r.proxy, proxy_url@),
    {
        let mut c = self;
        c.proxy = Some(String::from_str(proxy_url));
        c
    }

    /// Sets `verbose`.
    pub fn verbose(self, enable: bool) -> (r: Self)
        ensures
            r == (RequestConfig { verbose: enable, ..self }),
    {
        let mut c = self;
        c.verbose = enable;
        c
    }

    /// Appends a raw header line after those already present.
    pub fn header(self, h: &str) -> (r: Self)
        ensures
            r == (RequestConfig { headers: r.headers, ..self }),
            r.headers.deep_view() == self.headers.deep_view().push(h@),
    {
        let mut c = self;
        c.headers.push(String::from_str(h));
        assert(c.headers.deep_view() =~= self.headers.deep_view().push(h@));
        c
    }

    /// Sets `data`.
    pub fn data(self, d: &str) -> (r: Self)
        ensures
            r == (RequestConfig { data: r.data, ..self }),
            holds_text(r.data, d@),
    {
        let mut c = self;
        c.data = Some(String::from_str(d));
        c
    }

    /// Sets `connect_timeout`.
    pub fn connect_timeout(self, d: Duration) -> (r: Self)
        ensures
            r == (RequestConfig { connect_timeout: Some(d), ..self }),
    {
        let mut c = self;
        c.connect_timeout = Some(d);
        c
    }

    /// Sets `max_time`.
    pub fn max_time(self, d: Duration) -> (r: Self)
        ensures
            r == (RequestConfig { max_time: Some(d), ..self }),
    {
        let mut c = self;
        c.max_time = Some(d);
        c
    }

    /// Sets `output`.
    pub fn output(self, path: &str) -> (r: Self)
        ensures
            r == (RequestConfig { output: r.output, ..self }),
            holds_text(r.output, path@),
    {
        let mut c = self;
        c.output = Some(String::from_str(path));
        c
    }

    /// Sets `head_only`.
    pub fn head_only(self, enable: bool) -> (r: Self)
        ensures
            r == (RequestConfig { head_only: enable, ..self }),
    {
        let mut c = self;
        c.head_only = enable;
        c
    }

    /// Sets `ntlm`.
    pub fn ntlm(self, enable: bool) -> (r: Self)
        ensures
            r == (RequestConfig { ntlm: enable, ..self }),
    {
        let mut c = self;
        c.ntlm = enable;
        c
    }

    /// Sets `proxy_user`.
    pub fn proxy_user(self, user: &str) -> (r: Self)
        ensures
            r == (RequestConfig { proxy_user: r.proxy_user, ..self }),
            holds_text(r.proxy_user, user@),
    {
        let mut c = self;
        c.proxy_user = Some(String::from_str(user));
        c
    }

    /// Sets `proxy_password`.
    pub fn proxy_password(self, pass: &str) -> (r: Self)
        ensures
            r == (RequestConfig { proxy_password: r.proxy_password, ..self }),
            holds_text(r.proxy_password, pass@),
    {
        let mut c = self;
        c.proxy_password = Some(String::from_str(pass));
        c
    }

    /// Sets `noproxy`.
    pub fn noproxy(self, hosts: &str) -> (r: Self)
        ensures
            r == (RequestConfig { noproxy: r.noproxy, ..self }),
            holds_text(r.noproxy, hosts@),
    {
        let mut c = self;
        c.noproxy = Some(String::from_str(hosts));
        c
    }

    /// Sets `cookie`.
    pub fn cookie(self, path: &str) -> (r: Self)
        ensures
            r == (RequestConfig { cookie: r.cookie, ..self }),
            holds_text(r.cookie, path@),
    {
        let mut c = self;
        c.cookie = Some(String::from_str(path));
        c
    }

    /// Sets `cookie_jar`.
    pub fn cookie_jar(self, path: &str) -> (r: Self)
        ensures
            r == (RequestConfig { cookie_jar: r.cookie_jar, ..self }),
            holds_text(r.cookie_jar, path@),
    {
        let mut c = self;
        c.cookie_jar = Some(String::from_str(path));
        c
    }

    /// Sets `bearer`.
    pub fn bearer(self, token: &str) -> (r: Self)
        ensures
            r == (RequestConfig { bearer: r.bearer, ..self }),
            holds_text(r.bearer, token@),
    {
        let mut c = self;
        c.bearer = Some(String::from_str(token));
        c
    }

    /// Sets `compressed`.
    pub fn compressed(self, enable: bool) -> (r: Self)
        ensures
            r == (RequestConfig { compressed: enable, ..self }),
    {
        let mut c = self;
        c.compressed = enable;
        c
    }

    /// Sets `show_timing`.
    pub fn show_timing(self, enable: bool) -> (r: Self)
        ensures
            r == (RequestConfig { show_timing: enable, ..self }),
    {
        let mut c = self;
        c.show_timing = enable;
        c
    }

    /// Sets `user_agent`.
    pub fn user_agent(self, ua: &str) -> (r: Self)
        ensures
            r == (RequestConfig { user_agent: r.user_agent, ..self }),
            holds_text(r.user_agent, ua@),
    {
        let mut c = self;
        c.user_agent = Some(String::from_str(ua));
        c
    }

    /// Sets `silent`.
    pub fn silent(self, enable: bool) -> (r: Self)
        ensures
            r == (RequestConfig { silent: enable, ..self }),
    {
        let mut c = self;
        c.silent = enable;
        c
    }

    /// Sets `max_redirs`.
    pub fn max_redirs(self, n: u32) -> (r: Self)
        ensures
            r == (RequestConfig { max_redirs: Some(n), ..self }),
    {
        let mut c = self;
        c.max_redirs = Some(n);
        c
    }

    /// Appends a `host:port:address` resolution override after those already present.
    pub fn add_resolve(self, entry: &str) -> (r: Self)
        ensures
            r == (RequestConfig { resolve: r.resolve, ..self }),
            r.resolve.deep_view() == self.resolve.deep_view().push(entry@),
    {
        let mut c = self;
        c.resolve.push(String::from_str(entry));
        assert(c.resolve.deep_view() =~= self.resolve.deep_view().push(entry@));
        c
    }

    /// Sets `proxy_negotiate`.
    pub fn proxy_negotiate(self, enable: bool) -> (r: Self)
        ensures
            r == (RequestConfig { proxy_negotiate: enable, ..self }),
    {
        let mut c = self;
        c.proxy_negotiate = enable;
        c
    }

    /// Sets `proxy_ntlm`.
    pub fn proxy_ntlm(self, enable: bool) -> (r: Self)
        ensures
            r == (RequestConfig { proxy_ntlm: enable, ..self }),
    {
        let mut c = self;
        c.proxy_ntlm = enable;
        c
    }

    /// Sets `proxy_insecure`.
    pub fn proxy_insecure(self, enable: bool) -> (r: Self)
        ensures
            r == (RequestConfig { proxy_insecure: enable, ..self }),
    {
        let mut c = self;
        c.proxy_insecure = enable;
        c
    }

    /// Sets `proxy_cacert`.
    pub fn proxy_cacert(self, path: &str) -> (r: Self)
        ensures
            r == (RequestConfig { proxy_cacert: r.proxy_cacert, ..self }),
            holds_text(r.proxy_cacert, path@),
    {
        let mut c = self;
        c.proxy_cacert = Some(String::from_str(path));
        c
    }

    /// Sets `ssl_no_revoke`.
    pub fn ssl_no_revoke(self, enable: bool) -> (r: Self)
        ensures
            r == (RequestConfig { ssl_no_revoke: enable, ..self }),
    {
        let mut c = self;
        c.ssl_no_revoke = enable;
        c
    }

}

} // verus!
