//! The stand-in authorization server that the gateway's HTTP endpoint offers
//! to its own clients: where its endpoints are, the client it registers, the
//! redirect that grants access at once, and the token it hands out.

use vstd::prelude::*;

verus! {

/// Whether `a` begins with `b`.
pub open spec fn starts_with(a: Seq<char>, b: Seq<char>) -> bool {
    b.len() <= a.len() && a.take(b.len() as int) == b
}

/// Whether `b` occurs in `a`.
pub open spec fn contains_text(a: Seq<char>, b: Seq<char>) -> bool {
    exists|i: int| 0 <= i && i + b.len() <= a.len() && #[trigger] a.subrange(i, i + b.len()) == b
}

/// The part of `s` after its last `:`, all of it when there is none, as
/// `s.split(':').next_back()` gives it.
pub open spec fn last_piece(s: Seq<char>) -> Seq<char>
    decreases s.len(),
{
    if s.len() == 0 {
        s
    } else if s.last() == ':' {
        Seq::empty()
    } else {
        last_piece(s.drop_last()).push(s.last())
    }
}

/// The host a request names (its forwarded host, else its host), or
/// `localhost`.
pub open spec fn request_host(forwarded: Option<Seq<char>>, host: Option<Seq<char>>) -> Seq<char> {
    match forwarded {
        Some(f) => f,
        None => match host {
            Some(h) => h,
            None => "localhost"@,
        },
    }
}

/// The base address the endpoints are announced under: a local host is
/// reached from containers as `host.docker.internal` on the same port.
pub open spec fn base_for(host: Seq<char>) -> Seq<char> {
    if contains_text(host, "localhost"@) || starts_with(host, "127.0.0.1"@) {
        "http://host.docker.internal:"@ + last_piece(host)
    } else {
        "http://"@ + host
    }
}

/// The stand-in authorization server's metadata: where its endpoints are,
/// and what it supports.
#[derive(Debug, Clone, PartialEq, Eq)]
pub struct AuthEndpoints {
    pub issuer: String,
    pub authorization_endpoint: String,
    pub token_endpoint: String,
    pub registration_endpoint: String,
    pub response_types_supported: Vec<String>,
    pub grant_types_supported: Vec<String>,
    pub token_endpoint_auth_methods_supported: Vec<String>,
    pub code_challenge_methods_supported: Vec<String>,
}

/// The texts of a list of strings.
pub open spec fn texts(v: Seq<String>) -> Seq<Seq<char>> {
    v.map_values(|s: String| s@)
}

fn starts_with_str(a: &str, b: &str) -> (r: bool)
    ensures
        r == starts_with(a@, b@),
{
    let n = b.unicode_len();
    if n > a.unicode_len() {
        return false;
    }
    let mut i: usize = 0;
    while i < n
        invariant
            i <= n,
            n == b@.len(),
            n <= a@.len(),
            forall|k: int| 0 <= k < i ==> a@[k] == b@[k],
        decreases n - i,
    {
        if a.get_char(i) != b.get_char(i) {
            assert(a@.take(n as int)[i as int] != b@[i as int]);
            return false;
        }
        i = i + 1;
    }
    assert(a@.take(n as int) =~= b@);
    true
}

fn contains_str(a: &str, b: &str) -> (r: bool)
    ensures
        r == contains_text(a@, b@),
{
    let n = a.unicode_len();
    let m = b.unicode_len();
    if m > n {
        assert forall|i: int| 0 <= i && i + b@.len() <= a@.len() implies #[trigger] a@.subrange(i, i + b@.len()) != b@ by {}
        return false;
    }
    if m == 0 {
        assert(a@.subrange(0, 0 + b@.len() as int) =~= b@);
        assert(0 + b@.len() <= a@.len());
        return true;
    }
    let count = n - m + 1;
    let mut i: usize = 0;
    while i < count
        invariant
            1 <= m <= n,
            n == a@.len(),
            m == b@.len(),
            count == n - m + 1,
            i <= count,
            forall|j: int| 0 <= j < i ==> #[trigger] a@.subrange(j, j + m as int) != b@,
        decreases count - i,
    {
        let piece = a.substring_char(i, i + m);
        if starts_with_str(piece, b) {
            assert(piece@.take(m as int) =~= piece@);
            assert(a@.subrange(i as int, i + m) == b@);
            return true;
        }
        assert(piece@.take(m as int) =~= piece@);
        i = i + 1;
    }
    false
}

fn last_piece_of(s: &str) -> (r: String)
    ensures
        r@ == last_piece(s@),
{
    let n = s.unicode_len();
    let mut i: usize = n;
    assert(s@.take(n as int) =~= s@);
    assert(s@.skip(n as int) =~= Seq::<char>::empty());
    assert(s@ + Seq::<char>::empty() =~= s@);
    while i > 0 && s.get_char(i - 1) != ':'
        invariant
            i <= n,
            n == s@.len(),
            last_piece(s@) == last_piece(s@.take(i as int)) + s@.skip(i as int),
        decreases i,
    {
        let ghost t = s@.take(i as int);
        assert(t.drop_last() =~= s@.take(i - 1));
        assert(s@.skip(i - 1) =~= seq![t.last()] + s@.skip(i as int));
        assert(last_piece(t) == last_piece(s@.take(i - 1)).push(t.last()));
        assert(last_piece(s@.take(i - 1)).push(t.last()) + s@.skip(i as int)
            =~= last_piece(s@.take(i - 1)) + s@.skip(i - 1));
        i = i - 1;
    }
    if i > 0 {
        assert(s@.take(i as int).last() == ':');
    }
    let rest = s.substring_char(i, n);
    assert(rest@ =~= s@.skip(i as int));
    assert(last_piece(s@.take(i as int)) + s@.skip(i as int) =~= s@.skip(i as int));
    String::from_str(rest)
}

/// The host text that a request's headers give, read as the metadata handler
/// reads them: the forwarded-host header when the request carries one, else
/// the host header; each header is given as present or not, and when present
/// as its text if that is readable (visible ASCII) or `None`. A missing or
/// unreadable chosen header gives `None`, and the host is then `localhost`:
/// pass the result as `forwarded` to `base_url` or `oauth_endpoints`, with no
/// host.
pub fn chosen_host<'a>(forwarded: Option<Option<&'a str>>, host: Option<Option<&'a str>>) -> (r: Option<&'a str>)
    ensures
        r == match forwarded {
            Some(f) => f,
            None => match host {
                Some(h) => h,
                None => None,
            },
        },
{
    match forwarded {
        Some(f) => f,
        None => match host {
            Some(h) => h,
            None => None,
        },
    }
}

/// The base address for a request with the given host headers.
pub fn base_url(forwarded: Option<&str>, host: Option<&str>) -> (b: String)
    ensures
        b@ == base_for(request_host(
            match forwarded { Some(f) => Some(f@), None => None },
            match host { Some(h) => Some(h@), None => None },
        )),
{
    proof { reveal_strlit("localhost"); reveal_strlit("127.0.0.1"); }
    let h: &str = match forwarded {
        Some(f) => f,
        None => match host {
            Some(x) => x,
            None => "localhost",
        },
    };
    if contains_str(h, "localhost") || starts_with_str(h, "127.0.0.1") {
        let mut b = String::from_str("http://host.docker.internal:");
        let p = last_piece_of(h);
        b.append(p.as_str());
        b
    } else {
        let mut b = String::from_str("http://");
        b.append(h);
        b
    }
}

/// The announced metadata under `base`: the endpoints below it; the `code`
/// response type; the authorization-code and refresh-token grants; no client
/// authentication at the token endpoint; and `S256` code challenges.
pub open spec fn endpoints_under(e: AuthEndpoints, base: Seq<char>) -> bool {
    &&& e.issuer@ == base
    &&& e.authorization_endpoint@ == base + "/authorize"@
    &&& e.token_endpoint@ == base + "/token"@
    &&& e.registration_endpoint@ == base + "/register"@
    &&& texts(e.response_types_supported@) == seq!["code"@]
    &&& texts(e.grant_types_supported@) == seq!["authorization_code"@, "refresh_token"@]
    &&& texts(e.token_endpoint_auth_methods_supported@) == seq!["none"@]
    &&& texts(e.code_challenge_methods_supported@) == seq!["S256"@]
}

fn under(base: &str, path: &str) -> (s: String)
    ensures
        s@ == base@ + path@,
{
    let mut s = String::from_str(base);
    s.append(path);
    s
}

/// The endpoints announced to a request with the given host headers.
pub fn oauth_endpoints(forwarded: Option<&str>, host: Option<&str>) -> (e: AuthEndpoints)
    ensures
        endpoints_under(e, base_for(request_host(
            match forwarded { Some(f) => Some(f@), None => None },
            match host { Some(h) => Some(h@), None => None },
        ))),
{
    let base = base_url(forwarded, host);
    AuthEndpoints {
        issuer: String::from_str(base.as_str()),
        authorization_endpoint: under(base.as_str(), "/authorize"),
        token_endpoint: under(base.as_str(), "/token"),
        registration_endpoint: under(base.as_str(), "/register"),
        response_types_supported: one_text("code"),
        grant_types_supported: two_texts("authorization_code", "refresh_token"),
        token_endpoint_auth_methods_supported: one_text("none"),
        code_challenge_methods_supported: one_text("S256"),
    }
}

fn one_text(a: &str) -> (v: Vec<String>)
    ensures
        texts(v@) == seq![a@],
{
    let mut v: Vec<String> = Vec::new();
    v.push(String::from_str(a));
    assert(texts(v@) =~= seq![a@]);
    v
}

fn two_texts(a: &str, b: &str) -> (v: Vec<String>)
    ensures
        texts(v@) == seq![a@, b@],
{
    let mut v: Vec<String> = Vec::new();
    v.push(String::from_str(a));
    v.push(String::from_str(b));
    assert(texts(v@) =~= seq![a@, b@]);
    v
}

/// The client id given to a client that registers under `client_name`
/// (`mcp-client` when it gives none): the name with `-local` after it.
pub fn local_client_id(client_name: Option<&str>) -> (id: String)
    ensures
        id@ == (match client_name { Some(n) => n@, None => "mcp-client"@ }) + "-local"@,
{
    let mut id = match client_name {
        Some(n) => String::from_str(n),
        None => String::from_str("mcp-client"),
    };
    id.append("-local");
    id
}

/// The secret every registered client gets.
pub open spec fn local_client_secret() -> Seq<char> {
    "not-a-secret"@
}

/// Where the authorization request is sent back at once, granting access:
/// `<redirect_uri>?code=local-grant&state=<state>`, each missing one empty.
pub fn authorize_redirect(redirect_uri: Option<&str>, state: Option<&str>) -> (r: String)
    ensures
        r@ == (match redirect_uri { Some(u) => u@, None => Seq::<char>::empty() })
            + "?code=local-grant&state="@ + (match state { Some(s) => s@, None => Seq::<char>::empty() }),
{
    let mut r = match redirect_uri {
        Some(u) => String::from_str(u),
        None => String::new(),
    };
    r.append("?code=local-grant&state=");
    match state {
        Some(s) => r.append(s),
        None => {},
    }
    r
}

/// The token every exchange gets: a bearer token valid for a day.
pub struct LocalToken {
    pub access_token: String,
    pub token_type: String,
    pub expires_in: u64,
}

/// Returns the token handed out for any code.
pub fn local_token() -> (t: LocalToken)
    ensures
        t.access_token@ == "mcp-gateway-local"@,
        t.token_type@ == "Bearer"@,
        t.expires_in == 86400,
{
    LocalToken {
        access_token: String::from_str("mcp-gateway-local"),
        token_type: String::from_str("Bearer"),
        expires_in: 86400,
    }
}

} // verus!
