//! The local endpoint to which the browser is redirected after sign-in: the
//! request it reads, the code and state it takes from the request's query,
//! and the page it answers with.

use vstd::prelude::*;
use crate::oauth::error::OAuthError;
use crate::text::{decimal, u64_to_decimal, first_index_of, find_char, is_white_space, is_space,
    without_cr, line_without_cr};

verus! {

/// The authorization code and the state that the redirect carried.
#[derive(Debug, PartialEq, Eq)]
pub struct CallbackParams {
    pub code: String,
    pub state: String,
}

/// How long the endpoint waits for the redirect, in seconds.
pub open spec fn callback_timeout_secs() -> u64 {
    120
}

/// The page sent when the redirect carried a code and a state.
pub open spec fn success_response() -> Seq<char> {
    "HTTP/1.1 200 OK\r\nContent-Type: text/html\r\nConnection: close\r\n\r\n<html><body><h1>Authorization successful</h1><p>You can close this tab.</p></body></html>"@
}

/// The page sent when it did not.
pub open spec fn bad_request_response() -> Seq<char> {
    "HTTP/1.1 400 Bad Request\r\nContent-Type: text/html\r\nConnection: close\r\n\r\n<html><body><h1>Bad Request</h1><p>Missing code or state parameter.</p></body></html>"@
}

/// The first line of `s`, as `str::lines` gives it: up to the first newline,
/// without a carriage return before it; none for empty text.
pub open spec fn first_line(s: Seq<char>) -> Option<Seq<char>> {
    if s.len() == 0 {
        None
    } else {
        match first_index_of(s, '\n') {
            Some(i) => Some(without_cr(s.take(i))),
            None => Some(s),
        }
    }
}

/// The words of `s` after the word `cur` begun before it, split at white
/// space as `str::split_whitespace` splits.
pub open spec fn words_from(s: Seq<char>, cur: Seq<char>) -> Seq<Seq<char>>
    decreases s.len(),
{
    if s.len() == 0 {
        if cur.len() > 0 { seq![cur] } else { Seq::empty() }
    } else if is_white_space(s[0]) {
        (if cur.len() > 0 { seq![cur] } else { Seq::empty() }) + words_from(s.drop_first(), Seq::empty())
    } else {
        words_from(s.drop_first(), cur.push(s[0]))
    }
}

/// The words of `s`.
pub open spec fn words(s: Seq<char>) -> Seq<Seq<char>> {
    words_from(s, Seq::empty())
}

/// The piece of `s` between its first and second `c` (or its end), as
/// `s.split(c).nth(1)` gives it.
pub open spec fn second_piece(s: Seq<char>, c: char) -> Option<Seq<char>> {
    match first_index_of(s, c) {
        Some(i) => {
            let rest = s.skip(i + 1);
            match first_index_of(rest, c) {
                Some(j) => Some(rest.take(j)),
                None => Some(rest),
            }
        },
        None => None,
    }
}

/// The query of a request: the part after `?` of the target, the second
/// word of the request line.
pub open spec fn request_query(request: Seq<char>) -> Option<Seq<char>> {
    match first_line(request) {
        Some(line) => if words(line).len() > 1 { second_piece(words(line)[1], '?') } else { None },
        None => None,
    }
}

/// The name-value pairs that `url::form_urlencoded::parse` decodes from a
/// query: pieces between `&`, split at their first `=`, with `+` and percent
/// escapes decoded.
pub uninterp spec fn form_pairs(query: Seq<char>) -> Seq<(Seq<char>, Seq<char>)>;

/// The text of a sequence of pairs of strings.
pub open spec fn pairs_text(v: Seq<(String, String)>) -> Seq<(Seq<char>, Seq<char>)> {
    v.map_values(|p: (String, String)| (p.0@, p.1@))
}

/// Calls `url::form_urlencoded::parse` on the query's bytes and collects the
/// decoded pairs; the contract only names the result.
#[verifier::external_body]
fn decode_query(query: &str) -> (v: Vec<(String, String)>)
    ensures
        pairs_text(v@) == form_pairs(query@),
{
    url::form_urlencoded::parse(query.as_bytes()).into_owned().collect()
}

/// The value of the last pair named `key`, which is the one that counts.
pub open spec fn last_value(pairs: Seq<(Seq<char>, Seq<char>)>, key: Seq<char>) -> Option<Seq<char>>
    decreases pairs.len(),
{
    if pairs.len() == 0 {
        None
    } else if pairs.last().0 == key {
        Some(pairs.last().1)
    } else {
        last_value(pairs.drop_last(), key)
    }
}

/// Whether `p` holds the code and the state that decoded pairs carry.
pub open spec fn carries(pairs: Seq<(Seq<char>, Seq<char>)>, p: Option<CallbackParams>) -> bool {
    match (last_value(pairs, "code"@), last_value(pairs, "state"@)) {
        (Some(code), Some(state)) => p matches Some(cp) && cp.code@ == code && cp.state@ == state,
        _ => p is None,
    }
}

fn is_key(s: &str, key: &str) -> (b: bool)
    ensures
        b == (s@ == key@),
{
    let n = s.unicode_len();
    if n != key.unicode_len() {
        return false;
    }
    let mut i: usize = 0;
    while i < n
        invariant
            i <= n,
            n == s@.len(),
            n == key@.len(),
            forall|k: int| 0 <= k < i ==> s@[k] == key@[k],
        decreases n - i,
    {
        if s.get_char(i) != key.get_char(i) {
            return false;
        }
        i = i + 1;
    }
    assert(s@ =~= key@);
    true
}

/// The code and state of decoded query pairs: the last value of each, when
/// both are there.
pub fn callback_params_from_pairs(pairs: &Vec<(String, String)>) -> (p: Option<CallbackParams>)
    ensures
        carries(pairs_text(pairs@), p),
{
    proof { reveal_strlit("code"); reveal_strlit("state"); }
    let ghost text = pairs_text(pairs@);
    let mut code: Option<String> = None;
    let mut state: Option<String> = None;
    let n = pairs.len();
    let mut i: usize = 0;
    while i < n
        invariant
            i <= n,
            n == pairs@.len(),
            text == pairs_text(pairs@),
            match code {
                Some(c) => last_value(text.take(i as int), "code"@) == Some(c@),
                None => last_value(text.take(i as int), "code"@) is None,
            },
            match state {
                Some(s) => last_value(text.take(i as int), "state"@) == Some(s@),
                None => last_value(text.take(i as int), "state"@) is None,
            },
        decreases n - i,
    {
        proof {
            reveal_strlit("code");
            reveal_strlit("state");
            assert(text.take(i + 1).drop_last() =~= text.take(i as int));
            assert(text.take(i + 1).last() == (pairs@[i as int].0@, pairs@[i as int].1@));
            assert("code"@.len() == 4);
            assert("state"@.len() == 5);
        }
        let (k, v) = &pairs[i];
        if is_key(k.as_str(), "code") {
            code = Some(v.clone());
        } else if is_key(k.as_str(), "state") {
            state = Some(v.clone());
        }
        i = i + 1;
    }
    assert(text.take(n as int) =~= text);
    match (code, state) {
        (Some(c), Some(s)) => Some(CallbackParams { code: c, state: s }),
        _ => None,
    }
}

/// The words of `s`.
fn words_of(s: &str) -> (w: Vec<String>)
    ensures
        w@.map_values(|x: String| x@) == words(s@),
{
    let n = s.unicode_len();
    let mut out: Vec<String> = Vec::new();
    let mut cur = String::new();
    let mut i: usize = 0;
    assert(s@.skip(0) =~= s@);
    while i < n
        invariant
            i <= n,
            n == s@.len(),
            words(s@) == out@.map_values(|x: String| x@) + words_from(s@.skip(i as int), cur@),
        decreases n - i,
    {
        let c = s.get_char(i);
        let ghost rest = s@.skip(i as int);
        let ghost next = s@.skip(i + 1);
        let ghost done = out@.map_values(|x: String| x@);
        assert(rest[0] == c);
        assert(rest.drop_first() =~= next);
        if is_space(c) {
            assert(words_from(rest, cur@) == (if cur@.len() > 0 { seq![cur@] } else { Seq::<Seq<char>>::empty() })
                + words_from(next, Seq::empty()));
            if cur.unicode_len() > 0 {
                let ghost cw = cur@;
                out.push(cur);
                assert(out@.map_values(|x: String| x@) =~= done + seq![cw]);
                assert(done + (seq![cw] + words_from(next, Seq::empty()))
                    =~= (done + seq![cw]) + words_from(next, Seq::empty()));
            } else {
                assert(Seq::<Seq<char>>::empty() + words_from(next, Seq::empty()) =~= words_from(next, Seq::empty()));
            }
            cur = String::new();
            assert(cur@ =~= Seq::<char>::empty());
        } else {
            assert(words_from(rest, cur@) == words_from(next, cur@.push(c)));
            let ghost before = cur@;
            cur.append(s.substring_char(i, i + 1));
            assert(cur@ =~= before.push(c));
        }
        i = i + 1;
    }
    if cur.unicode_len() > 0 {
        let ghost before = out@;
        out.push(cur);
        assert(out@.map_values(|x: String| x@) =~= before.map_values(|x: String| x@) + seq![cur@]);
    }
    assert(s@.skip(n as int).len() == 0);
    assert(out@.map_values(|x: String| x@) =~= words(s@));
    out
}

fn second_piece_of(s: &str, c: char) -> (r: Option<&str>)
    ensures
        match r {
            Some(p) => second_piece(s@, c) == Some(p@),
            None => second_piece(s@, c) is None,
        },
{
    match find_char(s, c) {
        Some(i) => {
            let n = s.unicode_len();
            let rest = s.substring_char(i + 1, n);
            assert(rest@ =~= s@.skip(i + 1));
            match find_char(rest, c) {
                Some(j) => {
                    let piece = rest.substring_char(0, j);
                    assert(piece@ =~= rest@.take(j as int));
                    Some(piece)
                },
                None => Some(rest),
            }
        },
        None => None,
    }
}

fn first_line_of(s: &str) -> (r: Option<&str>)
    ensures
        match r {
            Some(l) => first_line(s@) == Some(l@),
            None => first_line(s@) is None,
        },
{
    if s.unicode_len() == 0 {
        return None;
    }
    match find_char(s, '\n') {
        Some(i) => {
            let head = s.substring_char(0, i);
            assert(head@ =~= s@.take(i as int));
            Some(line_without_cr(head))
        },
        None => Some(s),
    }
}

/// The query of a request, if its request line has a target with one.
pub fn query_of_request(request: &str) -> (q: Option<String>)
    ensures
        match q {
            Some(t) => request_query(request@) == Some(t@),
            None => request_query(request@) is None,
        },
{
    match first_line_of(request) {
        Some(line) => {
            let w = words_of(line);
            if w.len() > 1 {
                assert(w@.map_values(|x: String| x@)[1] == w@[1]@);
                match second_piece_of(w[1].as_str(), '?') {
                    Some(p) => Some(String::from_str(p)),
                    None => None,
                }
            } else {
                None
            }
        },
        None => None,
    }
}

/// The code and state that a redirect request carries in its query.
pub fn parse_callback_params(request: &str) -> (p: Option<CallbackParams>)
    ensures
        match request_query(request@) {
            Some(q) => carries(form_pairs(q), p),
            None => p is None,
        },
{
    match query_of_request(request) {
        Some(q) => {
            let pairs = decode_query(q.as_str());
            callback_params_from_pairs(&pairs)
        },
        None => None,
    }
}

/// What the endpoint answers a request with, and what comes of it.
pub struct CallbackAnswer {
    pub response: String,
    pub outcome: Result<CallbackParams, OAuthError>,
}

/// The message of a redirect without code or state.
pub open spec fn missing_params_message() -> Seq<char> {
    "missing code or state parameter"@
}

/// Answers a redirect request: the success page and its code and state when
/// it carries both, else the bad-request page and a failure.
pub fn answer_callback(request: &str) -> (a: CallbackAnswer)
    ensures
        match request_query(request@) {
            Some(q) => carries(form_pairs(q), a.outcome.ok()),
            None => a.outcome is Err,
        },
        a.outcome is Ok ==> a.response@ == success_response(),
        a.outcome is Err ==> a.response@ == bad_request_response(),
        a.outcome is Err ==> (a.outcome matches Err(OAuthError::CallbackServer { message })
            && message@ == missing_params_message()),
{
    match parse_callback_params(request) {
        Some(p) => CallbackAnswer {
            response: String::from_str("HTTP/1.1 200 OK\r\nContent-Type: text/html\r\nConnection: close\r\n\r\n<html><body><h1>Authorization successful</h1><p>You can close this tab.</p></body></html>"),
            outcome: Ok(p),
        },
        None => CallbackAnswer {
            response: String::from_str("HTTP/1.1 400 Bad Request\r\nContent-Type: text/html\r\nConnection: close\r\n\r\n<html><body><h1>Bad Request</h1><p>Missing code or state parameter.</p></body></html>"),
            outcome: Err(OAuthError::CallbackServer { message: String::from_str("missing code or state parameter") }),
        },
    }
}

/// The failure of binding the endpoint to `port`.
pub fn bind_err(port: u16, reason: &str) -> (e: OAuthError)
    ensures
        e matches OAuthError::CallbackServer { message }
            && message@ == "bind to port "@ + decimal(port as nat) + ": "@ + reason@,
{
    let mut m = String::from_str("bind to port ");
    m.append(u64_to_decimal(port as u64).as_str());
    m.append(": ");
    m.append(reason);
    OAuthError::CallbackServer { message: m }
}

/// The failure of waiting longer than the timeout for the redirect.
pub fn timeout_err() -> (e: OAuthError)
    ensures
        e matches OAuthError::CallbackServer { message }
            && message@ == "timed out waiting for authorization callback"@,
{
    OAuthError::CallbackServer { message: String::from_str("timed out waiting for authorization callback") }
}

/// The failure of accepting the redirect's connection.
pub fn accept_err(reason: &str) -> (e: OAuthError)
    ensures
        e matches OAuthError::CallbackServer { message } && message@ == "accept connection: "@ + reason@,
{
    let mut m = String::from_str("accept connection: ");
    m.append(reason);
    OAuthError::CallbackServer { message: m }
}

/// The failure of reading the redirect request.
pub fn read_err(reason: &str) -> (e: OAuthError)
    ensures
        e matches OAuthError::CallbackServer { message } && message@ == "read request: "@ + reason@,
{
    let mut m = String::from_str("read request: ");
    m.append(reason);
    OAuthError::CallbackServer { message: m }
}

} // verus!
