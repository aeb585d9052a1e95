//! `{{name}}` placeholders in the argument templates of CLI tools: which names a
//! template mentions, and how the arguments read once values are filled in.

use vstd::prelude::*;
use crate::strmap::{StrMap, StrSet};
use crate::text::{is_ascii_letter, is_ascii_digit, is_letter, is_digit};

verus! {

/// An identifier: a letter or `_`, then letters, digits or `_`.
pub open spec fn valid_placeholder_name(name: Seq<char>) -> bool {
    &&& name.len() >= 1
    &&& (is_ascii_letter(name[0]) || name[0] == '_')
    &&& forall|i: int| 1 <= i < name.len() ==> is_ascii_letter(#[trigger] name[i]) || is_ascii_digit(name[i]) || name[i] == '_'
}

/// The first position at or after `from` where `a` is directly followed by `b`.
pub open spec fn find_pair(s: Seq<char>, a: char, b: char, from: int) -> Option<int>
    decreases s.len() - from,
{
    if from < 0 || from + 1 >= s.len() {
        None
    } else if s[from] == a && s[from + 1] == b {
        Some(from)
    } else {
        find_pair(s, a, b, from + 1)
    }
}

/// A pair found at or after `from` lies inside `s` and is the first such pair.
pub proof fn lemma_find_pair(s: Seq<char>, a: char, b: char, from: int)
    ensures
        match find_pair(s, a, b, from) {
            Some(i) => from <= i && i + 1 < s.len() && s[i] == a && s[i + 1] == b
                && forall|j: int| #![trigger s[j]] from <= j < i ==> !(s[j] == a && s[j + 1] == b),
            None => forall|j: int| #![trigger s[j]] 0 <= from <= j && j + 1 < s.len() ==> !(s[j] == a && s[j + 1] == b),
        },
    decreases s.len() - from,
{
    if from >= 0 && from + 1 < s.len() && !(s[from] == a && s[from + 1] == b) {
        lemma_find_pair(s, a, b, from + 1);
    }
}

/// The valid placeholder names of `s` from position `pos` on, in order: each
/// `{{`, up to the next `}}`, encloses a candidate; an unclosed `{{` ends the scan.
pub open spec fn names_from(s: Seq<char>, pos: int) -> Seq<Seq<char>>
    decreases s.len() - pos,
{
    if pos < 0 {
        Seq::empty()
    } else {
        match find_pair(s, '{', '{', pos) {
            None => Seq::empty(),
            Some(open) => match find_pair(s, '}', '}', open + 2) {
                None => Seq::empty(),
                Some(close) => {
                    proof {
                        lemma_find_pair(s, '{', '{', pos);
                        lemma_find_pair(s, '}', '}', open + 2);
                    }
                    let name = s.subrange(open + 2, close);
                    let rest = names_from(s, close + 2);
                    if valid_placeholder_name(name) {
                        seq![name] + rest
                    } else {
                        rest
                    }
                },
            },
        }
    }
}

/// The placeholder names that `arg` mentions.
pub open spec fn placeholder_names(arg: Seq<char>) -> Seq<Seq<char>> {
    names_from(arg, 0)
}

/// Whether `name` is a placeholder of one of `args`.
pub open spec fn mentioned(args: Seq<String>, name: Seq<char>) -> bool {
    exists|i: int| 0 <= i < args.len() && placeholder_names(args[i]@).contains(name)
}

/// Returns whether `name` is a valid placeholder name.
pub fn is_valid_placeholder_name(name: &str) -> (b: bool)
    ensures
        b == valid_placeholder_name(name@),
{
    let n = name.unicode_len();
    if n == 0 {
        return false;
    }
    let c0 = name.get_char(0);
    if !(is_letter(c0) || c0 == '_') {
        return false;
    }
    let mut i: usize = 1;
    while i < n
        invariant
            1 <= i <= n,
            n == name@.len(),
            forall|j: int| 1 <= j < i ==> is_ascii_letter(#[trigger] name@[j]) || is_ascii_digit(name@[j]) || name@[j] == '_',
        decreases n - i,
    {
        let c = name.get_char(i);
        if !(is_letter(c) || is_digit(c) || c == '_') {
            return false;
        }
        i = i + 1;
    }
    true
}

/// Returns the first position at or after `from` where `a` is followed by `b`.
fn find_pair_in(s: &str, len: usize, a: char, b: char, from: usize) -> (r: Option<usize>)
    requires
        len == s@.len(),
        from <= len,
    ensures
        match r {
            Some(i) => find_pair(s@, a, b, from as int) == Some(i as int),
            None => find_pair(s@, a, b, from as int) is None,
        },
{
    let mut i = from;
    while len > 0 && i < len - 1
        invariant
            from <= i <= len,
            len == s@.len(),
            find_pair(s@, a, b, from as int) == find_pair(s@, a, b, i as int),
        decreases len - i,
    {
        if s.get_char(i) == a && s.get_char(i + 1) == b {
            return Some(i);
        }
        i = i + 1;
    }
    None
}

/// Membership in a sequence with one more element in front.
proof fn lemma_contains_cons(x: Seq<char>, rest: Seq<Seq<char>>, y: Seq<char>)
    ensures
        (seq![x] + rest).contains(y) <==> (y == x || rest.contains(y)),
{
    let s = seq![x] + rest;
    if s.contains(y) {
        let i = choose|i: int| 0 <= i < s.len() && s[i] == y;
        if i > 0 {
            assert(rest[i - 1] == y);
        }
    }
    if y == x {
        assert(s[0] == y);
    }
    if rest.contains(y) {
        let i = choose|i: int| 0 <= i < rest.len() && rest[i] == y;
        assert(s[i + 1] == y);
    }
}

/// Adds the names that `s` mentions to `out`.
fn collect_names(s: &str, out: &mut StrSet)
    ensures
        forall|y: Seq<char>| #[trigger] final(out)@.contains(y) <==> (old(out)@.contains(y) || placeholder_names(s@).contains(y)),
{
    let len = s.unicode_len();
    let mut pos: usize = 0;
    let ghost start = out@;
    let ghost pn = placeholder_names(s@);
    let ghost mut cur = pn;
    loop
        invariant
            pos <= len + 2,
            len == s@.len(),
            start == old(out)@,
            pn == placeholder_names(s@),
            cur == names_from(s@, pos as int),
            forall|y: Seq<char>| (start.contains(y) || pn.contains(y)) <==> (#[trigger] out@.contains(y) || cur.contains(y)),
        decreases len + 2 - pos,
    {
        if pos > len {
            proof { lemma_find_pair(s@, '{', '{', pos as int); }
            assert(names_from(s@, pos as int) == Seq::<Seq<char>>::empty());
            return;
        }
        let open = match find_pair_in(s, len, '{', '{', pos) {
            None => {
                assert(names_from(s@, pos as int) == Seq::<Seq<char>>::empty());
                return;
            },
            Some(o) => o,
        };
        proof { lemma_find_pair(s@, '{', '{', pos as int); }
        let close = match find_pair_in(s, len, '}', '}', open + 2) {
            None => {
                assert(names_from(s@, pos as int) == Seq::<Seq<char>>::empty());
                return;
            },
            Some(c) => c,
        };
        proof { lemma_find_pair(s@, '}', '}', open + 2); }
        let name = s.substring_char(open + 2, close);
        let ghost rest = names_from(s@, close + 2);
        let ghost prev = out@;
        assert(forall|y: Seq<char>| (start.contains(y) || pn.contains(y)) <==> (#[trigger] prev.contains(y) || cur.contains(y)));
        if is_valid_placeholder_name(name) {
            out.insert(String::from_str(name));
            proof {
                assert(names_from(s@, pos as int) == seq![name@] + rest);
                assert forall|y: Seq<char>| (start.contains(y) || pn.contains(y)) <==> (#[trigger] out@.contains(y) || rest.contains(y)) by {
                    lemma_contains_cons(name@, rest, y);
                    assert(prev.contains(y) || cur.contains(y) <==> start.contains(y) || pn.contains(y));
                }
            }
        } else {
            assert(names_from(s@, pos as int) == rest);
            assert(out@ == prev);
            assert forall|y: Seq<char>| (start.contains(y) || pn.contains(y)) <==> (#[trigger] out@.contains(y) || rest.contains(y)) by {
                assert(prev.contains(y) <==> out@.contains(y));
            }
        }
        pos = close + 2;
        assert(names_from(s@, pos as int) == rest);
        proof { cur = rest; }
    }
}

/// The set of valid placeholder names that the arguments mention.
pub fn extract_placeholders(args: &[String]) -> (names: StrSet)
    ensures
        forall|y: Seq<char>| #[trigger] names@.contains(y) <==> mentioned(args@, y),
{
    let mut result = StrSet::new();
    let n = args.len();
    let mut i: usize = 0;
    while i < n
        invariant
            i <= n,
            n == args@.len(),
            forall|y: Seq<char>| #[trigger] result@.contains(y) <==> mentioned(args@.take(i as int), y),
        decreases n - i,
    {
        let ghost before = result@;
        collect_names(args[i].as_str(), &mut result);
        proof {
            assert forall|y: Seq<char>| #[trigger] result@.contains(y) <==> mentioned(args@.take(i + 1), y) by {
                let t = args@.take(i + 1);
                if mentioned(t, y) {
                    let j = choose|j: int| 0 <= j < t.len() && placeholder_names(t[j]@).contains(y);
                    if j < i {
                        assert(args@.take(i as int)[j] == t[j]);
                    }
                }
                if mentioned(args@.take(i as int), y) {
                    let j = choose|j: int| 0 <= j < i && placeholder_names(args@.take(i as int)[j]@).contains(y);
                    assert(t[j] == args@.take(i as int)[j]);
                }
                if placeholder_names(args@[i as int]@).contains(y) {
                    assert(t[i as int] == args@[i as int]);
                }
            }
        }
        i = i + 1;
    }
    assert(args@.take(n as int) =~= args@);
    result
}

/// The value of a template parameter: a JSON string, whose text is filled in
/// as it is, or any other JSON value, held as its JSON text.
#[derive(Debug, Clone, PartialEq, Eq)]
pub enum ParamValue {
    Str(String),
    Json(String),
}

/// The text that a parameter value fills in.
pub open spec fn value_text(v: ParamValue) -> Seq<char> {
    match v {
        ParamValue::Str(t) => t@,
        ParamValue::Json(t) => t@,
    }
}

/// The text of `s` from `pos` on with each valid placeholder replaced by its
/// parameter's text; other `{{...}}` groups and an unclosed `{{` stay as they are.
/// A valid placeholder without a parameter is an error that names it.
pub open spec fn render_from(s: Seq<char>, pos: int, params: Map<Seq<char>, ParamValue>) -> Result<Seq<char>, Seq<char>>
    decreases s.len() - pos,
{
    if pos < 0 || pos > s.len() {
        Ok(Seq::empty())
    } else {
        match find_pair(s, '{', '{', pos) {
            None => Ok(s.subrange(pos, s.len() as int)),
            Some(open) => match find_pair(s, '}', '}', open + 2) {
                None => Ok(s.subrange(pos, s.len() as int)),
                Some(close) => {
                    proof {
                        lemma_find_pair(s, '{', '{', pos);
                        lemma_find_pair(s, '}', '}', open + 2);
                    }
                    let name = s.subrange(open + 2, close);
                    let lit = s.subrange(pos, open);
                    if valid_placeholder_name(name) && !params.contains_key(name) {
                        Err(name)
                    } else {
                        let piece = if valid_placeholder_name(name) {
                            value_text(params[name])
                        } else {
                            seq!['{', '{'] + name + seq!['}', '}']
                        };
                        match render_from(s, close + 2, params) {
                            Ok(r) => Ok(lit + piece + r),
                            Err(e) => Err(e),
                        }
                    }
                },
            },
        }
    }
}

/// The rendering of a whole argument.
pub open spec fn render_arg(s: Seq<char>, params: Map<Seq<char>, ParamValue>) -> Result<Seq<char>, Seq<char>> {
    render_from(s, 0, params)
}

/// The renderings of all arguments, or the first missing name.
pub open spec fn render_all(args: Seq<Seq<char>>, params: Map<Seq<char>, ParamValue>) -> Result<Seq<Seq<char>>, Seq<char>>
    decreases args.len(),
{
    if args.len() == 0 {
        Ok(Seq::empty())
    } else {
        match render_arg(args[0], params) {
            Err(e) => Err(e),
            Ok(first) => match render_all(args.drop_first(), params) {
                Err(e) => Err(e),
                Ok(rest) => Ok(seq![first] + rest),
            },
        }
    }
}

/// The message for a placeholder without a parameter.
pub open spec fn missing_arg_message(name: Seq<char>) -> Seq<char> {
    "missing required argument: "@ + name
}

/// Renders one argument; on a missing parameter returns its name.
fn render_one(arg: &str, params: &StrMap<ParamValue>) -> (r: Result<String, String>)
    ensures
        match r {
            Ok(t) => render_arg(arg@, params@) == Ok::<Seq<char>, Seq<char>>(t@),
            Err(n) => render_arg(arg@, params@) == Err::<Seq<char>, Seq<char>>(n@),
        },
{
    let len = arg.unicode_len();
    let mut out = String::new();
    let mut pos: usize = 0;
    assert(out@ + Seq::<char>::empty() =~= out@);
    loop
        invariant
            pos <= len,
            len == arg@.len(),
            render_arg(arg@, params@) == match render_from(arg@, pos as int, params@) {
                Ok(t) => Ok::<Seq<char>, Seq<char>>(out@ + t),
                Err(e) => Err(e),
            },
        decreases len - pos,
    {
        let open = match find_pair_in(arg, len, '{', '{', pos) {
            None => {
                let tail = arg.substring_char(pos, len);
                out.append(tail);
                return Ok(out);
            },
            Some(o) => o,
        };
        proof { lemma_find_pair(arg@, '{', '{', pos as int); }
        let close = match find_pair_in(arg, len, '}', '}', open + 2) {
            None => {
                let tail = arg.substring_char(pos, len);
                out.append(tail);
                return Ok(out);
            },
            Some(c) => c,
        };
        proof { lemma_find_pair(arg@, '}', '}', open + 2); }
        let name = arg.substring_char(open + 2, close);
        let lit = arg.substring_char(pos, open);
        let ghost before = out@;
        proof { reveal_strlit("{{"); reveal_strlit("}}"); }
        let ghost piece = if valid_placeholder_name(name@) && params@.contains_key(name@) {
            value_text(params@[name@])
        } else {
            seq!['{', '{'] + name@ + seq!['}', '}']
        };
        assert(render_from(arg@, pos as int, params@) == if valid_placeholder_name(name@) && !params@.contains_key(name@) {
            Err::<Seq<char>, Seq<char>>(name@)
        } else {
            match render_from(arg@, close + 2, params@) {
                Ok(r) => Ok::<Seq<char>, Seq<char>>(lit@ + piece + r),
                Err(e) => Err(e),
            }
        });
        if is_valid_placeholder_name(name) {
            match params.get(name) {
                None => {
                    return Err(String::from_str(name));
                },
                Some(v) => {
                    out.append(lit);
                    match v {
                        ParamValue::Str(t) => out.append(t.as_str()),
                        ParamValue::Json(t) => out.append(t.as_str()),
                    }
                    assert(out@ == before + lit@ + piece);
                },
            }
        } else {
            out.append(lit);
            out.append("{{");
            out.append(name);
            out.append("}}");
            assert(out@ =~= before + lit@ + piece);
        }
        proof {
            match render_from(arg@, close + 2, params@) {
                Ok(r) => {
                    assert(before + (lit@ + piece + r) =~= out@ + r);
                },
                Err(e) => {},
            }
        }
        pos = close + 2;
    }
}

/// Fills the placeholders of each argument from `params`, as `render_args`
/// does for a CLI tool's argument template.
pub fn render_args(template_args: &[String], params: &StrMap<ParamValue>) -> (r: Result<Vec<String>, String>)
    ensures
        match r {
            Ok(v) => render_all(template_args@.map_values(|a: String| a@), params@) == Ok::<Seq<Seq<char>>, Seq<char>>(v@.map_values(|a: String| a@)),
            Err(m) => exists|name: Seq<char>| render_all(template_args@.map_values(|a: String| a@), params@) == Err::<Seq<Seq<char>>, Seq<char>>(name) && m@ == missing_arg_message(name),
        },
{
    let ghost all = template_args@.map_values(|a: String| a@);
    let n = template_args.len();
    let mut rendered: Vec<String> = Vec::new();
    let mut i: usize = 0;
    assert(all.skip(0) =~= all);
    assert(rendered@.map_values(|a: String| a@) =~= Seq::<Seq<char>>::empty());
    proof {
        match render_all(all, params@) {
            Ok(rest) => { assert(Seq::<Seq<char>>::empty() + rest =~= rest); },
            Err(e) => {},
        }
    }
    while i < n
        invariant
            i <= n,
            n == template_args@.len(),
            all == template_args@.map_values(|a: String| a@),
            rendered@.len() == i,
            render_all(all, params@) == match render_all(all.skip(i as int), params@) {
                Ok(rest) => Ok::<Seq<Seq<char>>, Seq<char>>(rendered@.map_values(|a: String| a@) + rest),
                Err(e) => Err(e),
            },
        decreases n - i,
    {
        assert(all.skip(i as int)[0] == template_args@[i as int]@);
        assert(all.skip(i as int).drop_first() =~= all.skip(i + 1));
        let ghost here = all.skip(i as int);
        match render_one(template_args[i].as_str(), params) {
            Err(name) => {
                assert(render_all(here, params@) == Err::<Seq<Seq<char>>, Seq<char>>(name@));
                let mut msg = String::from_str("missing required argument: ");
                proof { reveal_strlit("missing required argument: "); }
                msg.append(name.as_str());
                assert(render_all(all, params@) == Err::<Seq<Seq<char>>, Seq<char>>(name@));
                assert(msg@ == missing_arg_message(name@));
                return Err(msg);
            },
            Ok(t) => {
                let ghost before = rendered@.map_values(|a: String| a@);
                rendered.push(t);
                assert(rendered@.map_values(|a: String| a@) =~= before.push(t@));
                proof {
                    match render_all(all.skip(i + 1), params@) {
                        Ok(rest) => {
                            assert(render_all(here, params@) == Ok::<Seq<Seq<char>>, Seq<char>>(seq![t@] + rest));
                            assert(before + (seq![t@] + rest) =~= before.push(t@) + rest);
                        },
                        Err(e) => {},
                    }
                }
            },
        }
        i = i + 1;
    }
    assert(all.skip(n as int) =~= Seq::<Seq<char>>::empty());
    assert(rendered@.map_values(|a: String| a@) + Seq::<Seq<char>>::empty() =~= rendered@.map_values(|a: String| a@));
    Ok(rendered)
}

/// Rendering from `pos` fails exactly when a placeholder mentioned from
/// there on has no parameter, and it names such a placeholder.
pub proof fn lemma_render_from_fails(s: Seq<char>, pos: int, params: Map<Seq<char>, ParamValue>)
    ensures
        render_from(s, pos, params) is Err <==> exists|k: int| 0 <= k < names_from(s, pos).len()
            && !params.contains_key(#[trigger] names_from(s, pos)[k]),
        render_from(s, pos, params) matches Err(e) ==> names_from(s, pos).contains(e) && !params.contains_key(e),
    decreases s.len() - pos,
{
    if pos < 0 || pos > s.len() {
        if pos > s.len() {
            assert(find_pair(s, '{', '{', pos) is None);
        }
    } else {
        lemma_find_pair(s, '{', '{', pos);
        match find_pair(s, '{', '{', pos) {
            None => {},
            Some(open) => {
                lemma_find_pair(s, '}', '}', open + 2);
                match find_pair(s, '}', '}', open + 2) {
                    None => {},
                    Some(close) => {
                        let name = s.subrange(open + 2, close);
                        let rest = names_from(s, close + 2);
                        lemma_render_from_fails(s, close + 2, params);
                        let names = names_from(s, pos);
                        if valid_placeholder_name(name) {
                            assert(names == seq![name] + rest);
                            assert(names[0] == name);
                            assert forall|k: int| 0 <= k < rest.len() implies names[k + 1] == rest[k] by {}
                            if params.contains_key(name) {
                                if exists|k: int| 0 <= k < names.len() && !params.contains_key(#[trigger] names[k]) {
                                    let k = choose|k: int| 0 <= k < names.len() && !params.contains_key(#[trigger] names[k]);
                                    assert(k > 0);
                                    assert(rest[k - 1] == names[k]);
                                }
                                match render_from(s, close + 2, params) {
                                    Err(e) => {
                                        let j = choose|j: int| 0 <= j < rest.len() && rest[j] == e;
                                        assert(names[j + 1] == e);
                                    },
                                    Ok(_) => {},
                                }
                            } else {
                                assert(names.contains(name));
                            }
                        } else {
                            assert(names == rest);
                        }
                    },
                }
            },
        }
    }
}

/// A template renders exactly when every placeholder it mentions has a
/// parameter (the names that `extract_placeholders` lists), and a failure
/// names a mentioned placeholder without one.
pub proof fn law_render_needs_mentioned(args: Seq<String>, params: Map<Seq<char>, ParamValue>)
    ensures
        render_all(args.map_values(|a: String| a@), params) is Ok
            <==> (forall|name: Seq<char>| mentioned(args, name) ==> params.contains_key(name)),
        render_all(args.map_values(|a: String| a@), params) matches Err(e) ==> mentioned(args, e) && !params.contains_key(e),
    decreases args.len(),
{
    let all = args.map_values(|a: String| a@);
    if args.len() > 0 {
        let tail = args.drop_first();
        law_render_needs_mentioned(tail, params);
        assert(all.drop_first() =~= tail.map_values(|a: String| a@));
        assert(all[0] == args[0]@);
        lemma_render_from_fails(args[0]@, 0, params);
        let first = placeholder_names(args[0]@);
        assert forall|name: Seq<char>| mentioned(tail, name) implies mentioned(args, name) by {
            let i = choose|i: int| 0 <= i < tail.len() && placeholder_names(tail[i]@).contains(name);
            assert(args[i + 1] == tail[i]);
        }
        assert forall|name: Seq<char>| first.contains(name) implies mentioned(args, name) by {
            assert(0 < args.len() && placeholder_names(args[0]@).contains(name));
        }
        assert forall|name: Seq<char>| mentioned(args, name) implies first.contains(name) || mentioned(tail, name) by {
            let i = choose|i: int| 0 <= i < args.len() && placeholder_names(args[i]@).contains(name);
            if i > 0 {
                assert(tail[i - 1] == args[i]);
            }
        }
        match render_arg(args[0]@, params) {
            Err(e) => {},
            Ok(_) => {
                assert forall|name: Seq<char>| first.contains(name) implies params.contains_key(name) by {
                    let k = choose|k: int| 0 <= k < first.len() && first[k] == name;
                }
            },
        }
    } else {
        assert forall|name: Seq<char>| !mentioned(args, name) by {}
    }
}

/// Text from `pos` on that holds no valid placeholder renders as it is.
proof fn lemma_render_plain(s: Seq<char>, pos: int, params: Map<Seq<char>, ParamValue>)
    requires
        0 <= pos <= s.len(),
        names_from(s, pos).len() == 0,
    ensures
        render_from(s, pos, params) == Ok::<Seq<char>, Seq<char>>(s.subrange(pos, s.len() as int)),
    decreases s.len() - pos,
{
    lemma_find_pair(s, '{', '{', pos);
    match find_pair(s, '{', '{', pos) {
        None => {},
        Some(open) => {
            lemma_find_pair(s, '}', '}', open + 2);
            match find_pair(s, '}', '}', open + 2) {
                None => {},
                Some(close) => {
                    let name = s.subrange(open + 2, close);
                    assert(!valid_placeholder_name(name));
                    lemma_render_plain(s, close + 2, params);
                    let lit = s.subrange(pos, open);
                    let piece = seq!['{', '{'] + name + seq!['}', '}'];
                    assert(lit + piece + s.subrange(close + 2, s.len() as int) =~= s.subrange(pos, s.len() as int));
                },
            }
        },
    }
}

/// Arguments that mention no placeholder render unchanged, whatever the
/// parameters.
pub proof fn law_render_without_placeholders(args: Seq<String>, params: Map<Seq<char>, ParamValue>)
    requires
        forall|name: Seq<char>| !mentioned(args, name),
    ensures
        render_all(args.map_values(|a: String| a@), params)
            == Ok::<Seq<Seq<char>>, Seq<char>>(args.map_values(|a: String| a@)),
    decreases args.len(),
{
    let all = args.map_values(|a: String| a@);
    if args.len() > 0 {
        let tail = args.drop_first();
        assert forall|name: Seq<char>| !mentioned(tail, name) by {
            if mentioned(tail, name) {
                let i = choose|i: int| 0 <= i < tail.len() && placeholder_names(tail[i]@).contains(name);
                assert(args[i + 1] == tail[i]);
                assert(mentioned(args, name));
            }
        }
        law_render_without_placeholders(tail, params);
        assert(all.drop_first() =~= tail.map_values(|a: String| a@));
        let first = args[0]@;
        if placeholder_names(first).len() > 0 {
            assert(placeholder_names(args[0]@).contains(placeholder_names(first)[0]));
            assert(mentioned(args, placeholder_names(first)[0]));
        }
        lemma_render_plain(first, 0, params);
        assert(first.subrange(0, first.len() as int) =~= first);
        assert(all[0] == first);
        assert(render_arg(all[0], params) == Ok::<Seq<char>, Seq<char>>(first));
        assert(seq![all[0]] + tail.map_values(|a: String| a@) =~= all);
    } else {
        assert(all =~= Seq::<Seq<char>>::empty());
    }
}

/// The placeholders of two argument lists together are those of the one and
/// those of the other.
pub proof fn law_placeholders_of_concatenation(a: Seq<String>, b: Seq<String>, name: Seq<char>)
    ensures
        mentioned(a + b, name) <==> mentioned(a, name) || mentioned(b, name),
{
    let ab = a + b;
    if mentioned(ab, name) {
        let i = choose|i: int| 0 <= i < ab.len() && placeholder_names(ab[i]@).contains(name);
        if i < a.len() {
            assert(ab[i] == a[i]);
        } else {
            assert(ab[i] == b[i - a.len()]);
        }
    }
    if mentioned(a, name) {
        let i = choose|i: int| 0 <= i < a.len() && placeholder_names(a[i]@).contains(name);
        assert(ab[i] == a[i]);
    }
    if mentioned(b, name) {
        let i = choose|i: int| 0 <= i < b.len() && placeholder_names(b[i]@).contains(name);
        assert(ab[i + a.len()] == b[i]);
    }
}

/// The placeholder names of the arguments, in scanning order: argument by
/// argument, each left to right.
pub open spec fn all_placeholder_names(args: Seq<Seq<char>>) -> Seq<Seq<char>>
    decreases args.len(),
{
    if args.len() == 0 {
        Seq::empty()
    } else {
        placeholder_names(args[0]) + all_placeholder_names(args.drop_first())
    }
}

/// The first of `names` without a parameter.
pub open spec fn first_missing(names: Seq<Seq<char>>, params: Map<Seq<char>, ParamValue>) -> Option<Seq<char>>
    decreases names.len(),
{
    if names.len() == 0 {
        None
    } else if !params.contains_key(names[0]) {
        Some(names[0])
    } else {
        first_missing(names.drop_first(), params)
    }
}

/// The name a rendering fails on, if it fails.
pub open spec fn failed_on<T>(r: Result<T, Seq<char>>) -> Option<Seq<char>> {
    match r {
        Ok(_) => None,
        Err(e) => Some(e),
    }
}

proof fn lemma_first_missing_concat(a: Seq<Seq<char>>, b: Seq<Seq<char>>, params: Map<Seq<char>, ParamValue>)
    ensures
        first_missing(a + b, params) == match first_missing(a, params) {
            Some(x) => Some(x),
            None => first_missing(b, params),
        },
    decreases a.len(),
{
    if a.len() > 0 {
        assert((a + b)[0] == a[0]);
        assert((a + b).drop_first() =~= a.drop_first() + b);
        lemma_first_missing_concat(a.drop_first(), b, params);
    } else {
        assert(a + b =~= b);
    }
}

/// Rendering text from `pos` on fails exactly on its first placeholder
/// without a parameter.
proof fn lemma_render_from_first(s: Seq<char>, pos: int, params: Map<Seq<char>, ParamValue>)
    requires
        0 <= pos <= s.len(),
    ensures
        failed_on(render_from(s, pos, params)) == first_missing(names_from(s, pos), params),
    decreases s.len() - pos,
{
    lemma_find_pair(s, '{', '{', pos);
    match find_pair(s, '{', '{', pos) {
        None => {},
        Some(open) => {
            lemma_find_pair(s, '}', '}', open + 2);
            match find_pair(s, '}', '}', open + 2) {
                None => {},
                Some(close) => {
                    let name = s.subrange(open + 2, close);
                    let rest = names_from(s, close + 2);
                    lemma_render_from_first(s, close + 2, params);
                    if valid_placeholder_name(name) {
                        assert((seq![name] + rest)[0] == name);
                        assert((seq![name] + rest).drop_first() =~= rest);
                    }
                },
            }
        },
    }
}

/// Rendering fails exactly when a placeholder lacks a parameter, and then it
/// names the first such placeholder met, scanning the arguments in order and
/// each from left to right.
pub proof fn law_render_names_first_missing(args: Seq<String>, params: Map<Seq<char>, ParamValue>)
    ensures
        failed_on(render_all(args.map_values(|a: String| a@), params))
            == first_missing(all_placeholder_names(args.map_values(|a: String| a@)), params),
    decreases args.len(),
{
    let all = args.map_values(|a: String| a@);
    if args.len() > 0 {
        let tail = args.drop_first();
        assert(all.drop_first() =~= tail.map_values(|a: String| a@));
        law_render_names_first_missing(tail, params);
        lemma_render_from_first(all[0], 0, params);
        lemma_first_missing_concat(placeholder_names(all[0]), all_placeholder_names(all.drop_first()), params);
    } else {
        assert(all =~= Seq::<Seq<char>>::empty());
    }
}

/// Whether `s` holds no `{{` anywhere.
pub open spec fn no_open_pair(s: Seq<char>) -> bool {
    forall|j: int| 0 <= j && j + 1 < s.len() ==> !(#[trigger] s[j] == '{' && s[j + 1] == '{')
}

proof fn lemma_find_pair_at(s: Seq<char>, a: char, b: char, from: int, k: int)
    requires
        0 <= from <= k,
        k + 1 < s.len(),
        s[k] == a && s[k + 1] == b,
        forall|j: int| from <= j < k ==> !(#[trigger] s[j] == a && s[j + 1] == b),
    ensures
        find_pair(s, a, b, from) == Some(k),
    decreases k - from,
{
    if from < k {
        lemma_find_pair_at(s, a, b, from + 1, k);
    }
}

proof fn lemma_find_pair_none(s: Seq<char>, a: char, b: char, from: int)
    requires
        0 <= from,
        forall|j: int| from <= j && j + 1 < s.len() ==> !(#[trigger] s[j] == a && s[j + 1] == b),
    ensures
        find_pair(s, a, b, from) is None,
    decreases s.len() - from,
{
    if from + 1 < s.len() {
        lemma_find_pair_none(s, a, b, from + 1);
    }
}

proof fn lemma_find_pair_shift(p: Seq<char>, r: Seq<char>, a: char, b: char, j: int)
    requires
        0 <= j,
    ensures
        find_pair(p + r, a, b, p.len() + j) == match find_pair(r, a, b, j) {
            Some(i) => Some(i + p.len()),
            None => None::<int>,
        },
    decreases r.len() - j,
{
    let t = p + r;
    if j + 1 < r.len() {
        assert(t[p.len() + j] == r[j]);
        assert(t[p.len() + j + 1] == r[j + 1]);
        lemma_find_pair_shift(p, r, a, b, j + 1);
    }
}

/// Rendering text after a prefix is rendering the text alone.
proof fn lemma_render_shift(p: Seq<char>, r: Seq<char>, j: int, params: Map<Seq<char>, ParamValue>)
    requires
        0 <= j <= r.len(),
    ensures
        render_from(p + r, p.len() + j, params) == render_from(r, j, params),
    decreases r.len() - j,
{
    let t = p + r;
    let k = p.len() as int;
    lemma_find_pair_shift(p, r, '{', '{', j);
    lemma_find_pair(r, '{', '{', j);
    match find_pair(r, '{', '{', j) {
        None => {
            assert(t.subrange(k + j, t.len() as int) =~= r.subrange(j, r.len() as int));
        },
        Some(open) => {
            lemma_find_pair_shift(p, r, '}', '}', open + 2);
            lemma_find_pair(r, '}', '}', open + 2);
            assert(k + (open + 2) == (k + open) + 2);
            match find_pair(r, '}', '}', open + 2) {
                None => {
                    assert(t.subrange(k + j, t.len() as int) =~= r.subrange(j, r.len() as int));
                },
                Some(close) => {
                    assert(t.subrange(k + open + 2, k + close) =~= r.subrange(open + 2, close));
                    assert(t.subrange(k + j, k + open) =~= r.subrange(j, open));
                    lemma_render_shift(p, r, close + 2, params);
                    assert(k + (close + 2) == (k + close) + 2);
                },
            }
        },
    }
}

/// A placeholder that has a parameter is replaced by the parameter's text,
/// and the text before it is kept as it is: an argument made of literal text
/// (holding no `{{` and not ending in `{`), the placeholder, and any rest
/// renders as the literal text, the value, then the rendering of the rest.
pub proof fn law_render_replaces_placeholder(
    lit: Seq<char>,
    name: Seq<char>,
    rest: Seq<char>,
    params: Map<Seq<char>, ParamValue>,
)
    requires
        no_open_pair(lit),
        lit.len() > 0 ==> lit.last() != '{',
        valid_placeholder_name(name),
        params.contains_key(name),
    ensures
        render_arg(lit + seq!['{', '{'] + name + seq!['}', '}'] + rest, params) == match render_arg(rest, params) {
            Ok(r) => Ok::<Seq<char>, Seq<char>>(lit + value_text(params[name]) + r),
            Err(e) => Err(e),
        },
{
    let pre = lit + seq!['{', '{'] + name + seq!['}', '}'];
    let s = pre + rest;
    let open = lit.len() as int;
    let close = open + 2 + name.len();
    assert(pre.len() == close + 2);
    assert forall|j: int| 0 <= j < open implies !(#[trigger] s[j] == '{' && s[j + 1] == '{') by {
        assert(s[j] == lit[j]);
        if j + 1 < open {
            assert(s[j + 1] == lit[j + 1]);
        }
    }
    assert(s[open] == '{' && s[open + 1] == '{');
    lemma_find_pair_at(s, '{', '{', 0, open);
    assert forall|j: int| open + 2 <= j < close implies !(#[trigger] s[j] == '}' && s[j + 1] == '}') by {
        assert(s[j] == name[j - open - 2]);
    }
    assert(s[close] == '}' && s[close + 1] == '}');
    lemma_find_pair_at(s, '}', '}', open + 2, close);
    assert(s.subrange(open + 2, close) =~= name);
    assert(s.subrange(0, open) =~= lit);
    lemma_render_shift(pre, rest, 0, params);
    assert(render_from(s, close + 2, params) == render_from(rest, 0, params));
    lemma_find_pair(s, '{', '{', 0);
    lemma_find_pair(s, '}', '}', open + 2);
}

/// Arguments render one by one: a rendering that succeeds has one argument
/// for each template argument, each the rendering of that argument alone.
pub proof fn law_render_argumentwise(args: Seq<Seq<char>>, params: Map<Seq<char>, ParamValue>)
    ensures
        render_all(args, params) matches Ok(v) ==> v.len() == args.len()
            && forall|i: int| 0 <= i < args.len() ==> render_arg(#[trigger] args[i], params) == Ok::<Seq<char>, Seq<char>>(v[i]),
        render_all(args, params) is Ok <==> forall|i: int| 0 <= i < args.len() ==> (#[trigger] render_arg(args[i], params)) is Ok,
    decreases args.len(),
{
    if args.len() > 0 {
        let tail = args.drop_first();
        law_render_argumentwise(tail, params);
        assert forall|i: int| 0 < i < args.len() implies #[trigger] args[i] == tail[i - 1] by {}
        if render_all(args, params) is Ok {
            let v = render_all(args, params)->Ok_0;
            assert forall|i: int| 0 <= i < args.len() implies render_arg(#[trigger] args[i], params) == Ok::<Seq<char>, Seq<char>>(v[i]) by {
                if i > 0 {
                    assert(args[i] == tail[i - 1]);
                }
            }
        }
        if forall|i: int| 0 <= i < args.len() ==> (#[trigger] render_arg(args[i], params)) is Ok {
            assert forall|i: int| 0 <= i < tail.len() implies (#[trigger] render_arg(tail[i], params)) is Ok by {
                assert(tail[i] == args[i + 1]);
            }
            assert(render_arg(args[0], params) is Ok);
        }
    }
}

} // verus!
