//! What the HTTP transports to servers are built from: the configured
//! headers, checked and converted to `http` header names and values, and the
//! sign-in settings of a server that asks for OAuth.

use vstd::prelude::*;
use crate::configuration::model::{HttpConfig, OAuthConfig, spec_default_redirect_port, same_oauth};
use crate::proxy::error::ProxyError;
use crate::strmap::StrMap;

verus! {

/// A character that an HTTP header name may hold (a token character).
pub open spec fn token_char(c: char) -> bool {
    ||| ('a' <= c && c <= 'z')
    ||| ('A' <= c && c <= 'Z')
    ||| ('0' <= c && c <= '9')
    ||| c == '!' || c == '#' || c == '$' || c == '%' || c == '&' || c == '\''
    ||| c == '*' || c == '+' || c == '-' || c == '.' || c == '^' || c == '_'
    ||| c == '`' || c == '|' || c == '~'
}

/// Whether `name` is an HTTP header name: 1 to 65535 token characters.
pub open spec fn valid_header_name(name: Seq<char>) -> bool {
    &&& 1 <= name.len() <= 65535
    &&& forall|i: int| 0 <= i < name.len() ==> #[trigger] token_char(name[i])
}

/// Whether `value` is an HTTP header value: tabs, and no control character
/// or DEL otherwise (spaces and characters beyond ASCII are accepted).
pub open spec fn valid_header_value(value: Seq<char>) -> bool {
    forall|i: int| 0 <= i < value.len() ==> #[trigger] header_value_char(value[i])
}

/// A character that an HTTP header value may hold.
pub open spec fn header_value_char(c: char) -> bool {
    c == '\t' || (' ' <= c && c != '\x7f')
}

/// `c` in lower case, if it is an ASCII capital letter.
pub open spec fn lower_ascii(c: char) -> char {
    if 'A' <= c && c <= 'Z' { ((c as int) + 32) as char } else { c }
}

/// `s` with its ASCII capital letters in lower case.
pub open spec fn lowercase(s: Seq<char>) -> Seq<char> {
    s.map_values(|c: char| lower_ascii(c))
}

/// Calls `http::HeaderName::try_from` on a string slice and gives back the
/// name as the header holds it. Claims: it succeeds exactly on names of 1 to
/// 65535 token characters, the header holds the name in lower case, and the
/// failure reads `invalid HTTP header name`, as that error's `Display` writes.
#[verifier::external_body]
fn header_name(name: &str) -> (r: Result<String, String>)
    ensures
        r is Ok <==> valid_header_name(name@),
        r matches Ok(h) ==> h@ == lowercase(name@),
        r matches Err(m) ==> m@ == "invalid HTTP header name"@,
{
    match http::HeaderName::try_from(name) {
        Ok(h) => Ok(h.as_str().to_string()),
        Err(e) => Err(e.to_string()),
    }
}

/// Calls `http::HeaderValue::try_from` on a string slice. Claims: it succeeds
/// exactly when every character is a tab or neither a control character nor
/// DEL, and the failure reads `failed to parse header value`, as that error's
/// `Display` writes. An accepted value holds exactly the given bytes.
#[verifier::external_body]
fn header_value(value: &str) -> (r: Result<(), String>)
    ensures
        r is Ok <==> valid_header_value(value@),
        r matches Err(m) ==> m@ == "failed to parse header value"@,
{
    match http::HeaderValue::try_from(value) {
        Ok(_) => Ok(()),
        Err(e) => Err(e.to_string()),
    }
}

/// The headers as an HTTP request carries them: names in lower case, values
/// as configured.
pub open spec fn header_texts(ps: Seq<(Seq<char>, String)>) -> Seq<(Seq<char>, Seq<char>)> {
    ps.map_values(|p: (Seq<char>, String)| (lowercase(p.0), p.1@))
}

/// Pairs of strings as text.
pub open spec fn pair_texts(v: Seq<(String, String)>) -> Seq<(Seq<char>, Seq<char>)> {
    v.map_values(|p: (String, String)| (p.0@, p.1@))
}

/// The first header of `headers`, in key order, whose name or value is not
/// accepted, with whether its name is the culprit; the name is checked first.
pub open spec fn first_bad_header(headers: Seq<(Seq<char>, String)>) -> Option<(int, bool)>
    decreases headers.len(),
{
    if headers.len() == 0 {
        None
    } else {
        match first_bad_header(headers.drop_last()) {
            Some(found) => Some(found),
            None => {
                let (k, v) = headers.last();
                if !valid_header_name(k) {
                    Some((headers.len() - 1, true))
                } else if !valid_header_value(v@) {
                    Some((headers.len() - 1, false))
                } else {
                    None
                }
            },
        }
    }
}

/// The configured headers checked as HTTP headers, in key order, names in
/// lower case, or the failure for the first one that is not accepted.
pub fn custom_headers(headers: &StrMap<String>) -> (r: Result<Vec<(String, String)>, ProxyError>)
    ensures
        match first_bad_header(headers.pairs()) {
            None => r matches Ok(v) && pair_texts(v@) == header_texts(headers.pairs()),
            Some((_, true)) => r matches Err(ProxyError::HttpTransport { message }) && message@ == "invalid HTTP header name"@,
            Some((_, false)) => r matches Err(ProxyError::HttpTransport { message }) && message@ == "failed to parse header value"@,
        },
{
    let mut out: Vec<(String, String)> = Vec::new();
    let n = headers.len();
    let mut i: usize = 0;
    while i < n
        invariant
            i <= n,
            n == headers.pairs().len(),
            pair_texts(out@) == header_texts(headers.pairs().take(i as int)),
            first_bad_header(headers.pairs().take(i as int)) is None,
        decreases n - i,
    {
        let ghost ps = headers.pairs();
        proof {
            assert(ps.take(i + 1).drop_last() =~= ps.take(i as int));
        }
        let key = headers.key_at(i);
        let value = headers.value_at(i);
        let name = match header_name(key.as_str()) {
            Ok(h) => h,
            Err(m) => {
                proof { lemma_first_bad_prefix(ps, i as int + 1); }
                return Err(ProxyError::HttpTransport { message: m });
            },
        };
        match header_value(value.as_str()) {
            Ok(()) => {},
            Err(m) => {
                proof { lemma_first_bad_prefix(ps, i as int + 1); }
                return Err(ProxyError::HttpTransport { message: m });
            },
        }
        let ghost before = out@;
        out.push((name, value.clone()));
        proof {
            assert(pair_texts(out@) =~= pair_texts(before).push((out@[i as int].0@, out@[i as int].1@)));
            assert(header_texts(ps.take(i + 1)) =~= header_texts(ps.take(i as int)).push((lowercase(ps[i as int].0), ps[i as int].1@)));
        }
        i = i + 1;
    }
    proof {
        assert(headers.pairs().take(n as int) =~= headers.pairs());
    }
    Ok(out)
}

/// A bad header found in a prefix is the first bad header of the whole list.
proof fn lemma_first_bad_prefix(ps: Seq<(Seq<char>, String)>, k: int)
    requires
        0 <= k <= ps.len(),
        first_bad_header(ps.take(k)) is Some,
    ensures
        first_bad_header(ps) == first_bad_header(ps.take(k)),
    decreases ps.len() - k,
{
    if k < ps.len() {
        assert(ps.take(k + 1).drop_last() =~= ps.take(k));
        lemma_first_bad_prefix(ps, k + 1);
    } else {
        assert(ps.take(k) =~= ps);
    }
}

/// Returns the sign-in settings for a server: its own when configured, else
/// the defaults.
pub fn oauth_settings(config: &HttpConfig) -> (c: OAuthConfig)
    ensures
        match config.auth {
            Some(a) => same_oauth(c, a),
            None => c.client_id is None && c.client_secret is None && c.scopes@.len() == 0
                && c.redirect_port == spec_default_redirect_port() && c.credentials_file is None,
        },
{
    match &config.auth {
        Some(a) => a.clone(),
        None => OAuthConfig::default(),
    }
}

} // verus!
