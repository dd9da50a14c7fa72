//! Resolution policy: the effective credentials, proxy and no-proxy list of a
//! request, from its explicit fields and a snapshot of the environment.

use crate::config::RequestConfig;
use vstd::prelude::*;

verus! {

/// A snapshot of environment variables, taken once by the caller.
///
/// Setting a name that is already present shadows the earlier value.
pub struct Environment {
    vars: Vec<(String, String)>,
}

/// The value bound to `name` in `vars`: the last binding of that name wins.
pub open spec fn lookup(vars: Seq<(Seq<char>, Seq<char>)>, name: Seq<char>) -> Option<Seq<char>>
    decreases vars.len(),
{
    if vars.len() == 0 {
        None
    } else if vars.last().0 == name {
        Some(vars.last().1)
    } else {
        lookup(vars.drop_last(), name)
    }
}

impl View for Environment {
    type V = Seq<(Seq<char>, Seq<char>)>;

    closed spec fn view(&self) -> Seq<(Seq<char>, Seq<char>)> {
        self.vars@.map_values(|p: (String, String)| (p.0@, p.1@))
    }
}

/// The text of an optional string.
pub open spec fn text_of(o: Option<String>) -> Option<Seq<char>> {
    match o {
        Some(s) => Some(s@),
        None => None,
    }
}

/// `a` when it holds a value, else `b`.
pub open spec fn or_else(a: Option<Seq<char>>, b: Option<Seq<char>>) -> Option<Seq<char>> {
    if a is Some {
        a
    } else {
        b
    }
}

/// The value of `name` when it is set to a non-empty text.
pub open spec fn nonempty_var(env: Seq<(Seq<char>, Seq<char>)>, name: Seq<char>) -> Option<Seq<char>> {
    match lookup(env, name) {
        Some(v) => if v.len() > 0 {
            Some(v)
        } else {
            None
        },
        None => None,
    }
}

/// The proxy variables, in the order in which they are consulted.
pub open spec fn proxy_vars() -> Seq<Seq<char>> {
    seq![
        "HTTPS_PROXY"@,
        "HTTP_PROXY"@,
        "ALL_PROXY"@,
        "https_proxy"@,
        "http_proxy"@,
        "all_proxy"@,
    ]
}

/// The no-proxy variables, in the order in which they are consulted.
pub open spec fn no_proxy_vars() -> Seq<Seq<char>> {
    seq!["NO_PROXY"@, "no_proxy"@]
}

/// The user name: the explicit one, else `RUSTCURL_USER` when set.
pub open spec fn resolved_username(c: RequestConfig, env: Seq<(Seq<char>, Seq<char>)>) -> Option<Seq<char>> {
    or_else(text_of(c.username), lookup(env, "RUSTCURL_USER"@))
}

/// The password: the explicit one, else `RUSTCURL_PASSWORD` when set.
pub open spec fn resolved_password(c: RequestConfig, env: Seq<(Seq<char>, Seq<char>)>) -> Option<Seq<char>> {
    or_else(text_of(c.password), lookup(env, "RUSTCURL_PASSWORD"@))
}

/// The proxy URL: the explicit one, else the first proxy variable that is
/// set to a non-empty text.
pub open spec fn resolved_proxy(c: RequestConfig, env: Seq<(Seq<char>, Seq<char>)>) -> Option<Seq<char>> {
    or_else(
        text_of(c.proxy),
        or_else(
            nonempty_var(env, proxy_vars()[0]),
            or_else(
                nonempty_var(env, proxy_vars()[1]),
                or_else(
                    nonempty_var(env, proxy_vars()[2]),
                    or_else(
                        nonempty_var(env, proxy_vars()[3]),
                        or_else(nonempty_var(env, proxy_vars()[4]), nonempty_var(env, proxy_vars()[5])),
                    ),
                ),
            ),
        ),
    )
}

/// The no-proxy list: the explicit one, else the first no-proxy variable that
/// is set to a non-empty text.
pub open spec fn resolved_noproxy(c: RequestConfig, env: Seq<(Seq<char>, Seq<char>)>) -> Option<Seq<char>> {
    or_else(
        text_of(c.noproxy),
        or_else(nonempty_var(env, no_proxy_vars()[0]), nonempty_var(env, no_proxy_vars()[1])),
    )
}

impl Environment {
    /// An empty snapshot.
    pub fn new() -> (r: Self)
        ensures
            r@ == Seq::<(Seq<char>, Seq<char>)>::empty(),
    {
        Environment { vars: Vec::new() }
    }

    /// The snapshot with `name` bound to `value`.
    pub fn set(self, name: &str, value: &str) -> (r: Self)
        ensures
            r@ == self@.push((name@, value@)),
    {
        let mut vars = self.vars;
        vars.push((String::from_str(name), String::from_str(value)));
        let r = Environment { vars };
        assert(r@ =~= self@.push((name@, value@)));
        r
    }

    /// The value bound to `name`, if any.
    pub fn get(&self, name: &str) -> (r: Option<String>)
        ensures
            text_of(r) == lookup(self@, name@),
    {
        let key = String::from_str(name);
        let mut i: usize = self.vars.len();
        assert(self@.subrange(0, i as int) =~= self@);
        while i > 0
            invariant
                i <= self.vars@.len(),
                key@ == name@,
                lookup(self@, name@) == lookup(self@.subrange(0, i as int), name@),
            decreases i,
        {
            assert(self@.subrange(0, i as int).drop_last() =~= self@.subrange(0, i - 1));
            if self.vars[i - 1].0 == key {
                return Some(self.vars[i - 1].1.clone());
            }
            i = i - 1;
        }
        None
    }

    /// The value bound to `name` when it is a non-empty text.
    fn get_nonempty(&self, name: &str) -> (r: Option<String>)
        ensures
            text_of(r) == nonempty_var(self@, name@),
    {
        match self.get(name) {
            Some(v) => if !v.as_str().is_empty() {
                Some(v)
            } else {
                None
            },
            None => None,
        }
    }
}

/// The effective user name of a request.
pub fn resolve_username(config: &RequestConfig, env: &Environment) -> (r: Option<String>)
    ensures
        text_of(r) == resolved_username(*config, env@),
{
    match &config.username {
        Some(u) => Some(u.clone()),
        None => env.get("RUSTCURL_USER"),
    }
}

/// The effective password of a request.
pub fn resolve_password(config: &RequestConfig, env: &Environment) -> (r: Option<String>)
    ensures
        text_of(r) == resolved_password(*config, env@),
{
    match &config.password {
        Some(p) => Some(p.clone()),
        None => env.get("RUSTCURL_PASSWORD"),
    }
}

/// The effective proxy URL of a request.
pub fn resolve_proxy(config: &RequestConfig, env: &Environment) -> (r: Option<String>)
    ensures
        text_of(r) == resolved_proxy(*config, env@),
{
    if let Some(p) = &config.proxy {
        return Some(p.clone());
    }
    let names: [&str; 6] = ["HTTPS_PROXY", "HTTP_PROXY", "ALL_PROXY", "https_proxy", "http_proxy", "all_proxy"];
    proof {
        assert(names@.map_values(|s: &str| s@) =~= proxy_vars());
        reveal_with_fuel(first_set_from, 7);
    }
    let mut k: usize = 0;
    while k < 6
        invariant
            names@.map_values(|s: &str| s@) == proxy_vars(),
            k <= 6,
            resolved_proxy(*config, env@) == first_set_from(env@, proxy_vars(), k as int),
        decreases 6 - k,
    {
        let v = env.get_nonempty(names[k]);
        assert(names[k as int]@ == proxy_vars()[k as int]);
        if v.is_some() {
            return v;
        }
        k = k + 1;
    }
    None
}

/// The first non-empty value among `names[k..]`.
pub open spec fn first_set_from(env: Seq<(Seq<char>, Seq<char>)>, names: Seq<Seq<char>>, k: int) -> Option<Seq<char>>
    decreases names.len() - k,
{
    if k < 0 || k >= names.len() {
        None
    } else {
        or_else(nonempty_var(env, names[k]), first_set_from(env, names, k + 1))
    }
}

/// The effective no-proxy list of a request.
pub fn resolve_noproxy(config: &RequestConfig, env: &Environment) -> (r: Option<String>)
    ensures
        text_of(r) == resolved_noproxy(*config, env@),
{
    if let Some(n) = &config.noproxy {
        return Some(n.clone());
    }
    let upper = env.get_nonempty("NO_PROXY");
    if upper.is_some() {
        return upper;
    }
    env.get_nonempty("no_proxy")
}

/// An explicitly set user name, password, proxy URL or no-proxy list is the
/// resolved value, whatever the environment holds.
pub proof fn lemma_explicit_settings_win(c: RequestConfig, env: Seq<(Seq<char>, Seq<char>)>)
    ensures
        c.username matches Some(u) ==> resolved_username(c, env) == Some(u@),
        c.password matches Some(p) ==> resolved_password(c, env) == Some(p@),
        c.proxy matches Some(p) ==> resolved_proxy(c, env) == Some(p@),
        c.noproxy matches Some(n) ==> resolved_noproxy(c, env) == Some(n@),
{
}

/// With no explicit user name or password, a set credential variable is the
/// resolved value.
pub proof fn lemma_credentials_from_environment(c: RequestConfig, env: Seq<(Seq<char>, Seq<char>)>)
    ensures
        c.username is None && lookup(env, "RUSTCURL_USER"@) is Some ==> resolved_username(c, env)
            == lookup(env, "RUSTCURL_USER"@),
        c.password is None && lookup(env, "RUSTCURL_PASSWORD"@) is Some ==> resolved_password(
            c,
            env,
        ) == lookup(env, "RUSTCURL_PASSWORD"@),
{
}

/// With no explicit proxy URL, the resolved proxy is the value of the first
/// proxy variable, in the fixed order, that is set to a non-empty text; the
/// variables after it are not consulted.
pub proof fn lemma_proxy_precedence(c: RequestConfig, env: Seq<(Seq<char>, Seq<char>)>, k: int)
    requires
        c.proxy is None,
        0 <= k < proxy_vars().len(),
        nonempty_var(env, proxy_vars()[k]) is Some,
        forall|j: int| 0 <= j < k ==> nonempty_var(env, #[trigger] proxy_vars()[j]) is None,
    ensures
        resolved_proxy(c, env) == nonempty_var(env, proxy_vars()[k]),
{
    assert(forall|j: int| 0 <= j < k ==> nonempty_var(env, #[trigger] proxy_vars()[j]) is None);
    if k > 0 {
        assert(nonempty_var(env, proxy_vars()[0]) is None);
    }
    if k > 1 {
        assert(nonempty_var(env, proxy_vars()[1]) is None);
    }
    if k > 2 {
        assert(nonempty_var(env, proxy_vars()[2]) is None);
    }
    if k > 3 {
        assert(nonempty_var(env, proxy_vars()[3]) is None);
    }
    if k > 4 {
        assert(nonempty_var(env, proxy_vars()[4]) is None);
    }
}

/// With no explicit no-proxy list, the resolved list is the value of the
/// first no-proxy variable, upper case before lower case, that is set to a
/// non-empty text.
pub proof fn lemma_noproxy_precedence(c: RequestConfig, env: Seq<(Seq<char>, Seq<char>)>, k: int)
    requires
        c.noproxy is None,
        0 <= k < no_proxy_vars().len(),
        nonempty_var(env, no_proxy_vars()[k]) is Some,
        forall|j: int| 0 <= j < k ==> nonempty_var(env, #[trigger] no_proxy_vars()[j]) is None,
    ensures
        resolved_noproxy(c, env) == nonempty_var(env, no_proxy_vars()[k]),
{
    if k > 0 {
        assert(nonempty_var(env, no_proxy_vars()[0]) is None);
    }
}

/// The variables that resolution consults.
pub open spec fn consulted(name: Seq<char>) -> bool {
    ||| name == "RUSTCURL_USER"@
    ||| name == "RUSTCURL_PASSWORD"@
    ||| proxy_vars().contains(name)
    ||| no_proxy_vars().contains(name)
}

/// Resolution is a function of the descriptor and of the consulted
/// variables alone: two snapshots that agree on those variables (in
/// particular, one snapshot resolved twice) give identical results.
pub proof fn lemma_resolution_deterministic(
    c: RequestConfig,
    e1: Seq<(Seq<char>, Seq<char>)>,
    e2: Seq<(Seq<char>, Seq<char>)>,
)
    requires
        forall|n: Seq<char>| consulted(n) ==> lookup(e1, n) == lookup(e2, n),
    ensures
        resolved_username(c, e1) == resolved_username(c, e2),
        resolved_password(c, e1) == resolved_password(c, e2),
        resolved_proxy(c, e1) == resolved_proxy(c, e2),
        resolved_noproxy(c, e1) == resolved_noproxy(c, e2),
{
    assert(consulted("RUSTCURL_USER"@));
    assert(consulted("RUSTCURL_PASSWORD"@));
    assert forall|i: int| 0 <= i < proxy_vars().len() implies lookup(e1, proxy_vars()[i]) == lookup(
        e2,
        proxy_vars()[i],
    ) by {
        assert(proxy_vars().contains(proxy_vars()[i]));
        assert(consulted(proxy_vars()[i]));
    }
    assert forall|i: int| 0 <= i < no_proxy_vars().len() implies lookup(e1, no_proxy_vars()[i])
        == lookup(e2, no_proxy_vars()[i]) by {
        assert(no_proxy_vars().contains(no_proxy_vars()[i]));
        assert(consulted(no_proxy_vars()[i]));
    }
    assert(lookup(e1, proxy_vars()[0]) == lookup(e2, proxy_vars()[0]));
    assert(lookup(e1, proxy_vars()[1]) == lookup(e2, proxy_vars()[1]));
    assert(lookup(e1, proxy_vars()[2]) == lookup(e2, proxy_vars()[2]));
    assert(lookup(e1, proxy_vars()[3]) == lookup(e2, proxy_vars()[3]));
    assert(lookup(e1, proxy_vars()[4]) == lookup(e2, proxy_vars()[4]));
    assert(lookup(e1, proxy_vars()[5]) == lookup(e2, proxy_vars()[5]));
    assert(lookup(e1, no_proxy_vars()[0]) == lookup(e2, no_proxy_vars()[0]));
    assert(lookup(e1, no_proxy_vars()[1]) == lookup(e2, no_proxy_vars()[1]));
}

} // verus!
