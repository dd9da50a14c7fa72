//! Command-line arguments: the flags of the client, turned into a request
//! descriptor.

use crate::config::{method_name, Method, RequestConfig};
use crate::resolve::text_of;
use crate::text::{
    duration_from_secs, parse_unsigned, same_text, seconds, split_first, split_once, to_upper, unsigned_value,
    upper_of,
};
use std::time::Duration;
use vstd::prelude::*;

verus! {

/// Splits `user:password` at its first colon; without a colon the whole
/// input is the user name and there is no password.
pub fn parse_credentials(input: &str) -> (r: (String, Option<String>))
    ensures
        match split_first(input@, ':') {
            Some((u, p)) => r.0@ == u && (r.1 matches Some(q) && q@ == p),
            None => r.0@ == input@ && r.1 is None,
        },
{
    match split_once(input, ':') {
        Some((user, pass)) => (user, Some(pass)),
        None => (String::from_str(input), None),
    }
}

/// Whether `u` names one of the methods that have a variant of their own.
pub open spec fn is_standard_verb(u: Seq<char>) -> bool {
    ||| u == "GET"@
    ||| u == "POST"@
    ||| u == "PUT"@
    ||| u == "DELETE"@
    ||| u == "HEAD"@
    ||| u == "PATCH"@
    ||| u == "OPTIONS"@
}

/// The method named by `s`, compared without regard to case; any other verb
/// becomes a custom method in upper case.
pub fn parse_method(s: &str) -> (r: Method)
    ensures
        method_name(r) == upper_of(s@),
        r is Custom ==> !is_standard_verb(upper_of(s@)),
{
    let u = to_upper(s);
    let t = u.as_str();
    if same_text(t, "GET") {
        Method::Get
    } else if same_text(t, "POST") {
        Method::Post
    } else if same_text(t, "PUT") {
        Method::Put
    } else if same_text(t, "DELETE") {
        Method::Delete
    } else if same_text(t, "HEAD") {
        Method::Head
    } else if same_text(t, "PATCH") {
        Method::Patch
    } else if same_text(t, "OPTIONS") {
        Method::Options
    } else {
        Method::Custom(u)
    }
}

/// The method of a request: the explicit one if chosen; else `POST` when
/// there is a body; else `HEAD` for a head-only request; else `GET`.
pub open spec fn chosen_method(explicit: Option<Method>, has_body: bool, head_only: bool) -> Method {
    match explicit {
        Some(m) => m,
        None => if has_body {
            Method::Post
        } else if head_only {
            Method::Head
        } else {
            Method::Get
        },
    }
}

/// Applies the defaults of the method: an explicit method always wins, a
/// body selects `POST`, a head-only request selects `HEAD`.
pub fn effective_method(explicit: Option<Method>, has_body: bool, head_only: bool) -> (r: Method)
    ensures
        r == chosen_method(explicit, has_body, head_only),
{
    match explicit {
        Some(m) => m,
        None => if has_body {
            Method::Post
        } else if head_only {
            Method::Head
        } else {
            Method::Get
        },
    }
}

/// An explicit method always wins; without one, a body selects `POST`, and a
/// head-only request without a body selects `HEAD`. This holds of the
/// descriptor's method and of the verb that parsed arguments describe.
pub proof fn lemma_method_defaults(explicit: Option<Method>, has_body: bool, head_only: bool, st: CliState)
    ensures
        explicit matches Some(m) ==> chosen_method(explicit, has_body, head_only) == m,
        explicit is None && has_body ==> chosen_method(explicit, has_body, head_only) == Method::Post,
        explicit is None && !has_body && head_only ==> chosen_method(explicit, has_body, head_only)
            == Method::Head,
        st.method matches Some(v) ==> verb_of(st) == v,
        st.method is None && st.data is Some ==> verb_of(st) == "POST"@,
        st.method is None && st.data is None && st.head_only ==> verb_of(st) == "HEAD"@,
{
}

/// Advances `i` to the value of the option `name` and returns that value.
fn next_arg<'a>(args: &'a [String], i: &mut usize, name: &str) -> (r: Result<&'a str, String>)
    requires
        *old(i) < args@.len(),
    ensures
        *final(i) == *old(i) + 1,
        match r {
            Ok(v) => *final(i) < args@.len() && v@ == args@[*final(i) as int]@,
            Err(e) => *final(i) >= args@.len() && e@ == name@ + " requires a value"@,
        },
{
    let n = args.len();
    *i = *i + 1;
    if *i < n {
        Ok(args[*i].as_str())
    } else {
        Err(String::from_str(name).concat(" requires a value"))
    }
}

/// Reads a whole number of seconds.
fn parse_seconds(s: &str, name: &str) -> (r: Result<Duration, String>)
    ensures
        match unsigned_value(s@, u64::MAX as nat) {
            Some(n) => r == Ok::<Duration, String>(duration_from_secs(n as u64)),
            None => r matches Err(e) && e@ == name@ + " requires a number of seconds"@,
        },
{
    match parse_unsigned(s, u64::MAX) {
        Some(n) => Ok(seconds(n)),
        None => Err(String::from_str(name).concat(" requires a number of seconds")),
    }
}

/// Reads a count that fits in 32 bits.
fn parse_u32(s: &str, name: &str) -> (r: Result<u32, String>)
    ensures
        match unsigned_value(s@, u32::MAX as nat) {
            Some(n) => r == Ok::<u32, String>(n as u32),
            None => r matches Err(e) && e@ == name@ + " requires a positive integer"@,
        },
{
    match parse_unsigned(s, u32::MAX as u64) {
        Some(n) => Ok(n as u32),
        None => Err(String::from_str(name).concat(" requires a positive integer")),
    }
}

/// The settings that the arguments have made so far, as texts.
pub struct CliState {
    pub url: Option<Seq<char>>,
    pub method: Option<Seq<char>>,
    pub negotiate: bool,
    pub insecure: bool,
    pub cacert: Option<Seq<char>>,
    pub username: Option<Seq<char>>,
    pub password: Option<Seq<char>>,
    pub proxy: Option<Seq<char>>,
    pub verbose: bool,
    pub headers: Seq<Seq<char>>,
    pub data: Option<Seq<char>>,
    pub connect_timeout: Option<Duration>,
    pub max_time: Option<Duration>,
    pub output: Option<Seq<char>>,
    pub head_only: bool,
    pub ntlm: bool,
    pub proxy_user: Option<Seq<char>>,
    pub proxy_password: Option<Seq<char>>,
    pub noproxy: Option<Seq<char>>,
    pub cookie: Option<Seq<char>>,
    pub cookie_jar: Option<Seq<char>>,
    pub bearer: Option<Seq<char>>,
    pub compressed: bool,
    pub show_timing: bool,
    pub user_agent: Option<Seq<char>>,
    pub silent: bool,
    pub max_redirs: Option<u32>,
    pub resolve: Seq<Seq<char>>,
    pub proxy_negotiate: bool,
    pub proxy_ntlm: bool,
    pub proxy_insecure: bool,
    pub proxy_cacert: Option<Seq<char>>,
    pub ssl_no_revoke: bool,
}

/// The state before any argument.
pub open spec fn initial_state() -> CliState {
    CliState {
        url: None,
        method: None,
        negotiate: false,
        insecure: false,
        cacert: None,
        username: None,
        password: None,
        proxy: None,
        verbose: false,
        headers: Seq::empty(),
        data: None,
        connect_timeout: None,
        max_time: None,
        output: None,
        head_only: false,
        ntlm: false,
        proxy_user: None,
        proxy_password: None,
        noproxy: None,
        cookie: None,
        cookie_jar: None,
        bearer: None,
        compressed: false,
        show_timing: false,
        user_agent: None,
        silent: false,
        max_redirs: None,
        resolve: Seq::empty(),
        proxy_negotiate: false,
        proxy_ntlm: false,
        proxy_insecure: false,
        proxy_cacert: None,
        ssl_no_revoke: false,
    }
}

/// The verb of an explicit method, if one was given.
pub open spec fn verb_text(method: Option<Method>) -> Option<Seq<char>> {
    match method {
        Some(m) => Some(method_name(m)),
        None => None,
    }
}

/// The state that a descriptor under construction, the URL seen last and the
/// explicit verb stand for.
pub open spec fn state_of(c: RequestConfig, url: Option<Seq<char>>, verb: Option<Seq<char>>) -> CliState {
    CliState {
        url: url,
        method: verb,
        negotiate: c.negotiate,
        insecure: c.insecure,
        cacert: text_of(c.cacert),
        username: text_of(c.username),
        password: text_of(c.password),
        proxy: text_of(c.proxy),
        verbose: c.verbose,
        headers: c.headers.deep_view(),
        data: text_of(c.data),
        connect_timeout: c.connect_timeout,
        max_time: c.max_time,
        output: text_of(c.output),
        head_only: c.head_only,
        ntlm: c.ntlm,
        proxy_user: text_of(c.proxy_user),
        proxy_password: text_of(c.proxy_password),
        noproxy: text_of(c.noproxy),
        cookie: text_of(c.cookie),
        cookie_jar: text_of(c.cookie_jar),
        bearer: text_of(c.bearer),
        compressed: c.compressed,
        show_timing: c.show_timing,
        user_agent: text_of(c.user_agent),
        silent: c.silent,
        max_redirs: c.max_redirs,
        resolve: c.resolve.deep_view(),
        proxy_negotiate: c.proxy_negotiate,
        proxy_ntlm: c.proxy_ntlm,
        proxy_insecure: c.proxy_insecure,
        proxy_cacert: text_of(c.proxy_cacert),
        ssl_no_revoke: c.ssl_no_revoke,
    }
}

/// Whether `a` is an option that takes the next argument as its value.
pub open spec fn takes_value(a: Seq<char>) -> bool {
    ||| a == "-X"@
    ||| a == "--request"@
    ||| a == "-H"@
    ||| a == "--header"@
    ||| a == "--resolve"@
    ||| a == "-d"@
    ||| a == "--data"@
    ||| a == "-o"@
    ||| a == "--output"@
    ||| a == "-A"@
    ||| a == "--user-agent"@
    ||| a == "-b"@
    ||| a == "--cookie"@
    ||| a == "-c"@
    ||| a == "--cookie-jar"@
    ||| a == "--cacert"@
    ||| a == "--bearer"@
    ||| a == "-x"@
    ||| a == "--proxy"@
    ||| a == "--proxy-cacert"@
    ||| a == "--noproxy"@
    ||| a == "-u"@
    ||| a == "--user"@
    ||| a == "--proxy-user"@
    ||| a == "--connect-timeout"@
    ||| a == "--max-time"@
    ||| a == "--max-redirs"@
}

/// The name under which a value option reports a missing value.
pub open spec fn label(a: Seq<char>) -> Seq<char> {
    if a == "-X"@ || a == "--request"@ {
        "-X"@
    } else if a == "-H"@ || a == "--header"@ {
        "-H"@
    } else if a == "--resolve"@ {
        "--resolve"@
    } else if a == "-d"@ || a == "--data"@ {
        "-d"@
    } else if a == "-o"@ || a == "--output"@ {
        "-o"@
    } else if a == "-A"@ || a == "--user-agent"@ {
        "-A"@
    } else if a == "-b"@ || a == "--cookie"@ {
        "-b"@
    } else if a == "-c"@ || a == "--cookie-jar"@ {
        "-c"@
    } else if a == "--cacert"@ {
        "--cacert"@
    } else if a == "--bearer"@ {
        "--bearer"@
    } else if a == "-x"@ || a == "--proxy"@ {
        "-x"@
    } else if a == "--proxy-cacert"@ {
        "--proxy-cacert"@
    } else if a == "--noproxy"@ {
        "--noproxy"@
    } else if a == "-u"@ || a == "--user"@ {
        "-u"@
    } else if a == "--proxy-user"@ {
        "--proxy-user"@
    } else if a == "--connect-timeout"@ {
        "--connect-timeout"@
    } else if a == "--max-time"@ {
        "--max-time"@
    } else if a == "--max-redirs"@ {
        "--max-redirs"@
    } else {
        a
    }
}

/// The number of arguments that the option `a` spans.
pub open spec fn width(a: Seq<char>) -> int {
    if takes_value(a) {
        2
    } else {
        1
    }
}

/// The argument after position `i`, if any.
pub open spec fn value_after(args: Seq<Seq<char>>, i: int) -> Option<Seq<char>> {
    if i + 1 < args.len() {
        Some(args[i + 1])
    } else {
        None
    }
}

/// The user name and password of a `user:password` text.
pub open spec fn credentials_of(v: Seq<char>) -> (Seq<char>, Option<Seq<char>>) {
    match split_first(v, ':') {
        Some((u, p)) => (u, Some(p)),
        None => (v, None),
    }
}

/// The effect of one argument on the scan.
pub enum Step {
    /// Go on from this state.
    Next(CliState),
    /// A help flag: stop and show the usage.
    Help,
    /// Stop with this message.
    Fail(Seq<char>),
}

/// The effect of the value option `a` with value `v`.
pub open spec fn set_value(st: CliState, a: Seq<char>, v: Seq<char>) -> Step {
    if a == "-X"@ || a == "--request"@ {
        Step::Next(CliState { method: Some(upper_of(v)), ..st })
    } else if a == "-H"@ || a == "--header"@ {
        Step::Next(CliState { headers: st.headers.push(v), ..st })
    } else if a == "--resolve"@ {
        Step::Next(CliState { resolve: st.resolve.push(v), ..st })
    } else if a == "-d"@ || a == "--data"@ {
        Step::Next(CliState { data: Some(v), ..st })
    } else if a == "-o"@ || a == "--output"@ {
        Step::Next(CliState { output: Some(v), ..st })
    } else if a == "-A"@ || a == "--user-agent"@ {
        Step::Next(CliState { user_agent: Some(v), ..st })
    } else if a == "-b"@ || a == "--cookie"@ {
        Step::Next(CliState { cookie: Some(v), ..st })
    } else if a == "-c"@ || a == "--cookie-jar"@ {
        Step::Next(CliState { cookie_jar: Some(v), ..st })
    } else if a == "--cacert"@ {
        Step::Next(CliState { cacert: Some(v), ..st })
    } else if a == "--bearer"@ {
        Step::Next(CliState { bearer: Some(v), ..st })
    } else if a == "-x"@ || a == "--proxy"@ {
        Step::Next(CliState { proxy: Some(v), ..st })
    } else if a == "--proxy-cacert"@ {
        Step::Next(CliState { proxy_cacert: Some(v), ..st })
    } else if a == "--noproxy"@ {
        Step::Next(CliState { noproxy: Some(v), ..st })
    } else if a == "-u"@ || a == "--user"@ {
        Step::Next(CliState { username: Some(credentials_of(v).0), password: credentials_of(v).1, ..st })
    } else if a == "--proxy-user"@ {
        Step::Next(
            CliState { proxy_user: Some(credentials_of(v).0), proxy_password: credentials_of(v).1, ..st },
        )
    } else if a == "--connect-timeout"@ {
        match unsigned_value(v, u64::MAX as nat) {
            Some(n) => Step::Next(CliState { connect_timeout: Some(duration_from_secs(n as u64)), ..st }),
            None => Step::Fail("--connect-timeout"@ + " requires a number of seconds"@),
        }
    } else if a == "--max-time"@ {
        match unsigned_value(v, u64::MAX as nat) {
            Some(n) => Step::Next(CliState { max_time: Some(duration_from_secs(n as u64)), ..st }),
            None => Step::Fail("--max-time"@ + " requires a number of seconds"@),
        }
    } else if a == "--max-redirs"@ {
        match unsigned_value(v, u32::MAX as nat) {
            Some(n) => Step::Next(CliState { max_redirs: Some(n as u32), ..st }),
            None => Step::Fail("--max-redirs"@ + " requires a positive integer"@),
        }
    } else {
        Step::Next(st)
    }
}

/// The effect of an argument that takes no value: a flag, `-L`, an unknown
/// option, or the URL.
pub open spec fn set_flag(st: CliState, a: Seq<char>) -> Step {
    if a == "--negotiate"@ {
        Step::Next(CliState { negotiate: true, ..st })
    } else if a == "--ntlm"@ {
        Step::Next(CliState { ntlm: true, ..st })
    } else if a == "-k"@ || a == "--insecure"@ {
        Step::Next(CliState { insecure: true, ..st })
    } else if a == "-v"@ || a == "--verbose"@ {
        Step::Next(CliState { verbose: true, ..st })
    } else if a == "-I"@ || a == "--head"@ {
        Step::Next(CliState { head_only: true, ..st })
    } else if a == "-s"@ || a == "--silent"@ {
        Step::Next(CliState { silent: true, ..st })
    } else if a == "--compressed"@ {
        Step::Next(CliState { compressed: true, ..st })
    } else if a == "--timing"@ {
        Step::Next(CliState { show_timing: true, ..st })
    } else if a == "--proxy-negotiate"@ {
        Step::Next(CliState { proxy_negotiate: true, ..st })
    } else if a == "--proxy-ntlm"@ {
        Step::Next(CliState { proxy_ntlm: true, ..st })
    } else if a == "--proxy-insecure"@ {
        Step::Next(CliState { proxy_insecure: true, ..st })
    } else if a == "--ssl-no-revoke"@ {
        Step::Next(CliState { ssl_no_revoke: true, ..st })
    } else if a == "-L"@ || a == "--location"@ {
        Step::Next(st)
    } else if a.len() > 0 && a[0] == '-' {
        Step::Fail("unknown option: "@ + a)
    } else {
        Step::Next(CliState { url: Some(a), ..st })
    }
}

/// The effect of the argument at position `i` on state `st`.
pub open spec fn step(st: CliState, args: Seq<Seq<char>>, i: int) -> Step {
    let a = args[i];
    if a == "-h"@ || a == "--help"@ {
        Step::Help
    } else if takes_value(a) {
        match value_after(args, i) {
            None => Step::Fail(label(a) + " requires a value"@),
            Some(v) => set_value(st, a, v),
        }
    } else {
        set_flag(st, a)
    }
}

/// The scan from position `i` in state `st`: the final state, none for a
/// help request, or the message of the first error.
pub open spec fn scan(st: CliState, args: Seq<Seq<char>>, i: int) -> Result<Option<CliState>, Seq<char>>
    decreases args.len() - i,
{
    if i < 0 || i >= args.len() {
        Ok(Some(st))
    } else {
        match step(st, args, i) {
            Step::Next(next) => scan(next, args, i + width(args[i])),
            Step::Help => Ok(None),
            Step::Fail(m) => Err(m),
        }
    }
}

/// The texts of the arguments.
pub open spec fn arg_texts(args: Seq<String>) -> Seq<Seq<char>> {
    args.map_values(|s: String| s@)
}

/// The verb of the request: the explicit one if given, else `POST` with a
/// body, else `HEAD` for a head-only request, else `GET`.
pub open spec fn verb_of(st: CliState) -> Seq<char> {
    match st.method {
        Some(v) => v,
        None => if st.data is Some {
            "POST"@
        } else if st.head_only {
            "HEAD"@
        } else {
            "GET"@
        },
    }
}

/// The descriptor `c` is the one that the final scan state `st` describes.
pub open spec fn describes(c: RequestConfig, st: CliState) -> bool {
    &&& st.url == Some(c.url@)
    &&& method_name(c.method) == verb_of(st)
    &&& (c.method is Custom ==> !is_standard_verb(verb_of(st)))
    &&& c.negotiate == st.negotiate
    &&& c.insecure == st.insecure
    &&& text_of(c.cacert) == st.cacert
    &&& text_of(c.username) == st.username
    &&& text_of(c.password) == st.password
    &&& text_of(c.proxy) == st.proxy
    &&& c.verbose == st.verbose
    &&& c.headers.deep_view() == st.headers
    &&& text_of(c.data) == st.data
    &&& c.connect_timeout == st.connect_timeout
    &&& c.max_time == st.max_time
    &&& text_of(c.output) == st.output
    &&& c.head_only == st.head_only
    &&& c.ntlm == st.ntlm
    &&& text_of(c.proxy_user) == st.proxy_user
    &&& text_of(c.proxy_password) == st.proxy_password
    &&& text_of(c.noproxy) == st.noproxy
    &&& text_of(c.cookie) == st.cookie
    &&& text_of(c.cookie_jar) == st.cookie_jar
    &&& text_of(c.bearer) == st.bearer
    &&& c.compressed == st.compressed
    &&& c.show_timing == st.show_timing
    &&& text_of(c.user_agent) == st.user_agent
    &&& c.silent == st.silent
    &&& c.max_redirs == st.max_redirs
    &&& c.resolve.deep_view() == st.resolve
    &&& c.proxy_negotiate == st.proxy_negotiate
    &&& c.proxy_ntlm == st.proxy_ntlm
    &&& c.proxy_insecure == st.proxy_insecure
    &&& text_of(c.proxy_cacert) == st.proxy_cacert
    &&& c.ssl_no_revoke == st.ssl_no_revoke
}

/// Whether `a` is an option that takes a value.
fn is_value_option(a: &str) -> (r: bool)
    ensures
        r == takes_value(a@),
{
    same_text(a, "-X")
        || same_text(a, "--request")
        || same_text(a, "-H")
        || same_text(a, "--header")
        || same_text(a, "--resolve")
        || same_text(a, "-d")
        || same_text(a, "--data")
        || same_text(a, "-o")
        || same_text(a, "--output")
        || same_text(a, "-A")
        || same_text(a, "--user-agent")
        || same_text(a, "-b")
        || same_text(a, "--cookie")
        || same_text(a, "-c")
        || same_text(a, "--cookie-jar")
        || same_text(a, "--cacert")
        || same_text(a, "--bearer")
        || same_text(a, "-x")
        || same_text(a, "--proxy")
        || same_text(a, "--proxy-cacert")
        || same_text(a, "--noproxy")
        || same_text(a, "-u")
        || same_text(a, "--user")
        || same_text(a, "--proxy-user")
        || same_text(a, "--connect-timeout")
        || same_text(a, "--max-time")
        || same_text(a, "--max-redirs")
}

/// The name under which the value option `a` reports a missing value.
fn option_label(a: &str) -> (r: &'static str)
    requires
        takes_value(a@),
    ensures
        r@ == label(a@),
{
    if same_text(a, "-X") || same_text(a, "--request") {
        "-X"
    } else if same_text(a, "-H") || same_text(a, "--header") {
        "-H"
    } else if same_text(a, "--resolve") {
        "--resolve"
    } else if same_text(a, "-d") || same_text(a, "--data") {
        "-d"
    } else if same_text(a, "-o") || same_text(a, "--output") {
        "-o"
    } else if same_text(a, "-A") || same_text(a, "--user-agent") {
        "-A"
    } else if same_text(a, "-b") || same_text(a, "--cookie") {
        "-b"
    } else if same_text(a, "-c") || same_text(a, "--cookie-jar") {
        "-c"
    } else if same_text(a, "--cacert") {
        "--cacert"
    } else if same_text(a, "--bearer") {
        "--bearer"
    } else if same_text(a, "-x") || same_text(a, "--proxy") {
        "-x"
    } else if same_text(a, "--proxy-cacert") {
        "--proxy-cacert"
    } else if same_text(a, "--noproxy") {
        "--noproxy"
    } else if same_text(a, "-u") || same_text(a, "--user") {
        "-u"
    } else if same_text(a, "--proxy-user") {
        "--proxy-user"
    } else if same_text(a, "--connect-timeout") {
        "--connect-timeout"
    } else if same_text(a, "--max-time") {
        "--max-time"
    } else {
        "--max-redirs"
    }
}

/// A custom method never carries the name of a standard one.
pub open spec fn well_named(method: Option<Method>) -> bool {
    match method {
        Some(m) => m is Custom ==> !is_standard_verb(method_name(m)),
        None => true,
    }
}

/// Applies the value option `a` with value `v`.
#[verifier::rlimit(100)]
fn apply_value(
    a: &str,
    v: &str,
    cfg: &mut RequestConfig,
    method: &mut Option<Method>,
    Ghost(url): Ghost<Option<Seq<char>>>,
) -> (r: Result<(), String>)
    requires
        takes_value(a@),
        well_named(*old(method)),
    ensures
        well_named(*final(method)),
        match set_value(state_of(*old(cfg), url, verb_text(*old(method))), a@, v@) {
            Step::Next(n) => r is Ok && state_of(*final(cfg), url, verb_text(*final(method))) == n,
            Step::Fail(m) => r matches Err(e) && e@ == m,
            Step::Help => false,
        },
{
    if same_text(a, "-X") || same_text(a, "--request") {
        *method = Some(parse_method(v));
        return Ok(());
    } else if same_text(a, "-H") || same_text(a, "--header") {
        let ghost before = cfg.headers.deep_view();
        cfg.headers.push(String::from_str(v));
        assert(cfg.headers.deep_view() =~= before.push(v@));
        return Ok(());
    } else if same_text(a, "--resolve") {
        let ghost before = cfg.resolve.deep_view();
        cfg.resolve.push(String::from_str(v));
        assert(cfg.resolve.deep_view() =~= before.push(v@));
        return Ok(());
    } else if same_text(a, "-d") || same_text(a, "--data") {
        cfg.data = Some(String::from_str(v));
        return Ok(());
    } else if same_text(a, "-o") || same_text(a, "--output") {
        cfg.output = Some(String::from_str(v));
        return Ok(());
    } else if same_text(a, "-A") || same_text(a, "--user-agent") {
        cfg.user_agent = Some(String::from_str(v));
        return Ok(());
    } else if same_text(a, "-b") || same_text(a, "--cookie") {
        cfg.cookie = Some(String::from_str(v));
        return Ok(());
    } else if same_text(a, "-c") || same_text(a, "--cookie-jar") {
        cfg.cookie_jar = Some(String::from_str(v));
        return Ok(());
    } else if same_text(a, "--cacert") {
        cfg.cacert = Some(String::from_str(v));
        return Ok(());
    } else if same_text(a, "--bearer") {
        cfg.bearer = Some(String::from_str(v));
        return Ok(());
    } else if same_text(a, "-x") || same_text(a, "--proxy") {
        cfg.proxy = Some(String::from_str(v));
        return Ok(());
    } else if same_text(a, "--proxy-cacert") {
        cfg.proxy_cacert = Some(String::from_str(v));
        return Ok(());
    } else if same_text(a, "--noproxy") {
        cfg.noproxy = Some(String::from_str(v));
        return Ok(());
    } else if same_text(a, "-u") || same_text(a, "--user") {
        let (user, pass) = parse_credentials(v);
        cfg.username = Some(user);
        cfg.password = pass;
        return Ok(());
    } else if same_text(a, "--proxy-user") {
        let (user, pass) = parse_credentials(v);
        cfg.proxy_user = Some(user);
        cfg.proxy_password = pass;
        return Ok(());
    } else if same_text(a, "--connect-timeout") {
        cfg.connect_timeout = Some(parse_seconds(v, "--connect-timeout")?);
        return Ok(());
    } else if same_text(a, "--max-time") {
        cfg.max_time = Some(parse_seconds(v, "--max-time")?);
        return Ok(());
    } else {
        cfg.max_redirs = Some(parse_u32(v, "--max-redirs")?);
        return Ok(());
    }
}

/// Applies an argument that takes no value.
#[verifier::rlimit(100)]
fn apply_other(
    a: &str,
    cfg: &mut RequestConfig,
    url: &mut Option<String>,
    Ghost(verb): Ghost<Option<Seq<char>>>,
) -> (r: Result<(), String>)
    ensures
        match set_flag(state_of(*old(cfg), text_of(*old(url)), verb), a@) {
            Step::Next(n) => r is Ok && state_of(*final(cfg), text_of(*final(url)), verb) == n,
            Step::Fail(m) => r matches Err(e) && e@ == m,
            Step::Help => false,
        },
{
    if same_text(a, "--negotiate") {
        cfg.negotiate = true;
        return Ok(());
    } else if same_text(a, "--ntlm") {
        cfg.ntlm = true;
        return Ok(());
    } else if same_text(a, "-k") || same_text(a, "--insecure") {
        cfg.insecure = true;
        return Ok(());
    } else if same_text(a, "-v") || same_text(a, "--verbose") {
        cfg.verbose = true;
        return Ok(());
    } else if same_text(a, "-I") || same_text(a, "--head") {
        cfg.head_only = true;
        return Ok(());
    } else if same_text(a, "-s") || same_text(a, "--silent") {
        cfg.silent = true;
        return Ok(());
    } else if same_text(a, "--compressed") {
        cfg.compressed = true;
        return Ok(());
    } else if same_text(a, "--timing") {
        cfg.show_timing = true;
        return Ok(());
    } else if same_text(a, "--proxy-negotiate") {
        cfg.proxy_negotiate = true;
        return Ok(());
    } else if same_text(a, "--proxy-ntlm") {
        cfg.proxy_ntlm = true;
        return Ok(());
    } else if same_text(a, "--proxy-insecure") {
        cfg.proxy_insecure = true;
        return Ok(());
    } else if same_text(a, "--ssl-no-revoke") {
        cfg.ssl_no_revoke = true;
        return Ok(());
    } else if same_text(a, "-L") || same_text(a, "--location") {
        // Redirects are always followed; the flag is accepted and changes nothing.
        return Ok(());
    } else if a.unicode_len() > 0 && a.get_char(0) == '-' {
        return Err(String::from_str("unknown option: ").concat(a));
    } else {
        *url = Some(String::from_str(a));
        return Ok(());
    }
}

/// What the arguments ask for.
pub enum Invocation {
    /// Print the usage text.
    Help,
    /// Perform the request.
    Run(RequestConfig),
}

/// Scans the arguments left to right: flags set fields, options take the
/// next argument as their value, `-L` is accepted and changes nothing, any
/// other argument starting with `-` is an error, and any remaining one is
/// the URL (the last one wins). A help flag stops the scan. Without an
/// explicit method, a body selects `POST` and a head-only request `HEAD`.
pub fn parse_invocation(args: &[String]) -> (r: Result<Invocation, String>)
    ensures
        args@.len() == 0 ==> (r matches Err(e) && e@ == "no arguments provided"@),
        args@.len() > 0 ==> match scan(initial_state(), arg_texts(args@), 0) {
            Err(m) => r matches Err(e) && e@ == m,
            Ok(None) => r matches Ok(Invocation::Help),
            Ok(Some(st)) => match st.url {
                None => r matches Err(e) && e@ == "URL is required"@,
                Some(_) => r matches Ok(Invocation::Run(c)) && describes(c, st),
            },
        },
{
    if args.len() == 0 {
        return Err(String::from_str("no arguments provided"));
    }
    let ghost texts = arg_texts(args@);
    let mut url: Option<String> = None;
    let mut method: Option<Method> = None;
    let mut cfg = RequestConfig::new("");
    assert(cfg.headers.deep_view() =~= Seq::<Seq<char>>::empty());
    assert(cfg.resolve.deep_view() =~= Seq::<Seq<char>>::empty());
    assert(state_of(cfg, text_of(url), verb_text(method)) == initial_state());
    let mut i: usize = 0;
    while i < args.len()
        invariant
            i <= args@.len(),
            texts == arg_texts(args@),
            well_named(method),
            scan(state_of(cfg, text_of(url), verb_text(method)), texts, i as int) == scan(
                initial_state(),
                texts,
                0,
            ),
        decreases args@.len() - i,
    {
        let a = args[i].as_str();
        let ghost st = state_of(cfg, text_of(url), verb_text(method));
        let ghost i0 = i as int;
        assert(args@[i0]@ == a@);
        assert(texts.len() == args@.len());
        assert(texts[i0] == args@[i0]@);
        if same_text(a, "-h") || same_text(a, "--help") {
            return Ok(Invocation::Help);
        } else if is_value_option(a) {
            let name = option_label(a);
            let v = next_arg(args, &mut i, name)?;
            assert(texts[i0 + 1] == v@);
            apply_value(a, v, &mut cfg, &mut method, Ghost(text_of(url)))?;
        } else {
            apply_other(a, &mut cfg, &mut url, Ghost(verb_text(method)))?;
        }
        assert(i as int == i0 + width(texts[i0]) - 1);
        i = i + 1;
    }
    let url = match url {
        Some(u) => u,
        None => return Err(String::from_str("URL is required")),
    };
    let has_body = cfg.data.is_some();
    let head_only = cfg.head_only;
    cfg.method = effective_method(method, has_body, head_only);
    cfg.url = url;
    Ok(Invocation::Run(cfg))
}

/// Parses the arguments into a request descriptor, as `parse_invocation`
/// does; a help flag is reported as the error `help requested`.
pub fn parse_args(args: &[String]) -> (r: Result<RequestConfig, String>)
    ensures
        args@.len() == 0 ==> (r matches Err(e) && e@ == "no arguments provided"@),
        args@.len() > 0 ==> match scan(initial_state(), arg_texts(args@), 0) {
            Err(m) => r matches Err(e) && e@ == m,
            Ok(None) => r matches Err(e) && e@ == "help requested"@,
            Ok(Some(st)) => match st.url {
                None => r matches Err(e) && e@ == "URL is required"@,
                Some(_) => r matches Ok(c) && describes(c, st),
            },
        },
{
    match parse_invocation(args) {
        Ok(Invocation::Run(cfg)) => Ok(cfg),
        Ok(Invocation::Help) => Err(String::from_str("help requested")),
        Err(e) => Err(e),
    }
}

} // verus!
