//! The classified errors of a request, and the remediation hints attached to
//! transport failures.

use crate::text::same_text;
use vstd::string::to_string_from_display_ensures;
use vstd::prelude::*;

verus! {

#[verifier::external_type_specification]
#[verifier::external_body]
pub struct ExIoError(std::io::Error);

/// The semantic category of a low-level transport failure, as the backend
/// reports it.
#[derive(Debug, Clone, Copy, PartialEq, Eq)]
pub enum FailureKind {
    /// The target host name did not resolve.
    ResolveHost,
    /// The proxy host name did not resolve.
    ResolveProxy,
    /// The TLS handshake failed.
    TlsConnect,
    /// The peer's certificate or host name failed verification.
    PeerVerification,
    /// Any other failure.
    Other,
}

/// A transport failure: its category and the backend's rendered message.
#[derive(Debug, Clone)]
pub struct TransportFailure {
    pub kind: FailureKind,
    pub message: String,
}

/// The closed set of errors that a request can end in.
#[derive(Debug)]
pub enum RequestError {
    /// Network, TLS or protocol failure surfaced by the transport.
    Transport(TransportFailure),
    /// Local file-system failure.
    Io(std::io::Error),
    /// Invalid input reaching the engine.
    Config(String),
    /// A backend could not carry out the transaction.
    Http(String),
}

/// Whether `pat` occurs in `s`.
pub open spec fn contains(s: Seq<char>, pat: Seq<char>) -> bool {
    exists|i: int| 0 <= i && i + pat.len() <= s.len() && #[trigger] s.subrange(i, i + pat.len()) == pat
}

/// Whether `pat` occurs in `s`.
pub fn contains_text(s: &str, pat: &str) -> (r: bool)
    ensures
        r == contains(s@, pat@),
{
    let n = s.unicode_len();
    let m = pat.unicode_len();
    if m > n {
        return false;
    }
    let mut i: usize = 0;
    while i <= n - m
        invariant
            n == s@.len(),
            m == pat@.len(),
            m <= n,
            i <= n - m,
            forall|j: int| 0 <= j < i ==> #[trigger] s@.subrange(j, j + m) != pat@,
        decreases n - m - i,
    {
        if same_text(s.substring_char(i, i + m), pat) {
            return true;
        }
        if i == n - m {
            return false;
        }
        i = i + 1;
    }
    false
}

/// The hint for a failed name resolution of the target host.
pub open spec fn dns_hint() -> Seq<char> {
    "Hint: DNS resolution failed. If behind a corporate proxy, set HTTPS_PROXY or use -x <proxy-url>"@
}

/// The hint for a failed name resolution of the proxy host.
pub open spec fn proxy_dns_hint() -> Seq<char> {
    "Hint: Could not resolve proxy hostname. Check your proxy URL"@
}

/// The hint for a TLS handshake or verification failure.
pub open spec fn tls_hint() -> Seq<char> {
    "Hint: SSL error. Try --insecure (-k), --cacert <path>, or --ssl-no-revoke for revocation issues"@
}

/// The hint for a failed certificate revocation check.
pub open spec fn revocation_hint() -> Seq<char> {
    "Hint: Certificate revocation check failed. Try --ssl-no-revoke to disable revocation checks"@
}

/// The hint for a proxy that demands authentication.
pub open spec fn proxy_auth_hint() -> Seq<char> {
    "Hint: Proxy requires authentication (407). Try --proxy-negotiate for Kerberos/SPNEGO or --proxy-user <user:pass>"@
}

/// The hint for an error: only transport failures get one, and the first
/// matching rule wins.
pub open spec fn hint_for(e: RequestError) -> Option<Seq<char>> {
    match e {
        RequestError::Transport(f) => if f.kind == FailureKind::ResolveHost {
            Some(dns_hint())
        } else if f.kind == FailureKind::ResolveProxy {
            Some(proxy_dns_hint())
        } else if f.kind == FailureKind::TlsConnect || f.kind == FailureKind::PeerVerification {
            Some(tls_hint())
        } else if contains(f.message@, "revocation"@) {
            Some(revocation_hint())
        } else if contains(f.message@, "407"@) {
            Some(proxy_auth_hint())
        } else {
            None
        },
        _ => None,
    }
}

impl RequestError {
    /// The remediation hint for this error, if any.
    pub fn hint(&self) -> (r: Option<&'static str>)
        ensures
            match r {
                Some(h) => hint_for(*self) == Some(h@),
                None => hint_for(*self) is None,
            },
    {
        match self {
            RequestError::Transport(f) => {
                match f.kind {
                    FailureKind::ResolveHost => Some(
                        "Hint: DNS resolution failed. If behind a corporate proxy, set HTTPS_PROXY or use -x <proxy-url>",
                    ),
                    FailureKind::ResolveProxy => Some(
                        "Hint: Could not resolve proxy hostname. Check your proxy URL",
                    ),
                    FailureKind::TlsConnect | FailureKind::PeerVerification => Some(
                        "Hint: SSL error. Try --insecure (-k), --cacert <path>, or --ssl-no-revoke for revocation issues",
                    ),
                    FailureKind::Other => {
                        if contains_text(f.message.as_str(), "revocation") {
                            Some(
                                "Hint: Certificate revocation check failed. Try --ssl-no-revoke to disable revocation checks",
                            )
                        } else if contains_text(f.message.as_str(), "407") {
                            Some(
                                "Hint: Proxy requires authentication (407). Try --proxy-negotiate for Kerberos/SPNEGO or --proxy-user <user:pass>",
                            )
                        } else {
                            None
                        }
                    },
                }
            },
            _ => None,
        }
    }

    /// The message shown for this error: a prefix naming its class, then its
    /// own text.
    pub fn to_string(&self) -> (r: String)
        ensures
            match *self {
                RequestError::Transport(f) => r@ == "transport error: "@ + f.message@,
                RequestError::Io(e) => exists|s: String|
                    to_string_from_display_ensures(&e, s) && r@ == "io error: "@ + s@,
                RequestError::Config(m) => r@ == "config error: "@ + m@,
                RequestError::Http(m) => r@ == "http error: "@ + m@,
            },
    {
        match self {
            RequestError::Transport(f) => String::from_str("transport error: ").concat(f.message.as_str()),
            RequestError::Io(e) => {
                let s = e.to_string();
                String::from_str("io error: ").concat(s.as_str())
            },
            RequestError::Config(m) => String::from_str("config error: ").concat(m.as_str()),
            RequestError::Http(m) => String::from_str("http error: ").concat(m.as_str()),
        }
    }

    /// The underlying error object, present for local I/O failures only.
    pub fn source(&self) -> (r: Option<&std::io::Error>)
        ensures
            r is Some <==> *self is Io,
            self matches RequestError::Io(e) ==> r == Some(e),
    {
        match self {
            RequestError::Io(e) => Some(e),
            _ => None,
        }
    }
}

impl From<std::io::Error> for RequestError {
    fn from(e: std::io::Error) -> Self {
        RequestError::Io(e)
    }
}

impl vstd::std_specs::convert::FromSpecImpl<std::io::Error> for RequestError {
    open spec fn obeys_from_spec() -> bool {
        true
    }

    open spec fn from_spec(v: std::io::Error) -> Self {
        RequestError::Io(v)
    }
}

} // verus!
