//! What the reading of a server description is for: which transport and which endpoint come
//! out of a text that is put together from a transport, keys and values.

use vstd::prelude::*;

use crate::text;
use crate::text::CharClass;
use crate::transport;

verus! {

/// A key and its value.
pub type Pair = (Seq<char>, Seq<char>);

/// Whether a character can stand in a value: it is no white space and none of the characters
/// that divide a description into its parts.
pub open spec fn in_value(c: char) -> bool {
    !text::is_space(c) && c != ',' && c != '=' && c != '{' && c != '}' && c != '(' && c != ')'
}

pub open spec fn is_value(s: Seq<char>) -> bool {
    s.len() > 0 && forall|i: int| 0 <= i < s.len() ==> in_value(#[trigger] s[i])
}

/// A value that also holds no colon.
pub open spec fn is_word(s: Seq<char>) -> bool {
    is_value(s) && forall|i: int| 0 <= i < s.len() ==> (#[trigger] s[i]) != ':'
}

/// Pairs as a description spells them: `key=value,key=value`.
pub open spec fn pairs_text(pairs: Seq<Pair>) -> Seq<char>
    decreases pairs.len(),
{
    if pairs.len() == 0 {
        Seq::empty()
    } else if pairs.len() == 1 {
        pairs[0].0 + seq!['='] + pairs[0].1
    } else {
        pairs[0].0 + seq!['='] + pairs[0].1 + (seq![','] + pairs_text(pairs.drop_first()))
    }
}

/// The value of the first pair with this key, in any case.
pub open spec fn value_of(pairs: Seq<Pair>, name: Seq<char>) -> Option<Seq<char>>
    decreases pairs.len(),
{
    if pairs.len() == 0 {
        None
    } else if text::equal_ignoring_case(pairs[0].0, name) {
        Some(pairs[0].1)
    } else {
        value_of(pairs.drop_first(), name)
    }
}

/// No other key ends as this one does.
pub open spec fn tells_apart(pairs: Seq<Pair>, name: Seq<char>) -> bool {
    forall|i: int|
        0 <= i < pairs.len() ==> (text::ends_with(
            text::lower_all((#[trigger] pairs[i]).0),
            text::lower_all(name),
        ) ==> text::equal_ignoring_case(pairs[i].0, name))
}

pub open spec fn are_pairs(pairs: Seq<Pair>) -> bool {
    pairs.len() > 0 && forall|i: int|
        0 <= i < pairs.len() ==> is_word((#[trigger] pairs[i]).0) && is_value(pairs[i].1)
}

proof fn lemma_key_place(k: Seq<char>, v: Seq<char>, rest: Seq<char>, name: Seq<char>, i: int)
    requires
        is_word(k),
        is_value(v),
        is_word(name),
        rest.len() > 0 ==> rest[0] == ',',
        0 <= i <= k.len() + 1 + v.len(),
        text::occurs_at(
            text::lower_all(k + seq!['='] + v + rest),
            text::lower_all(name + seq!['=']),
            i,
        ),
    ensures
        text::ends_with(text::lower_all(k), text::lower_all(name)),
        i == k.len() - name.len(),
{
    let s = k + seq!['='] + v + rest;
    let low = text::lower_all(s);
    let pat = text::lower_all(name + seq!['=']);
    let n = name.len() as int;
    let e = i + n;
    let c: int = k.len() + 1 + v.len() as int;
    assert(low.subrange(i, i + pat.len())[n] == pat[n]);
    assert(pat[n] == '=');
    assert(low[e] == '=');
    assert(text::lower(s[e]) == '=');
    assert(s[e] == '=');
    if e < k.len() {
        assert(s[e] == k[e]);
        assert(false);
    }
    if k.len() < e < c {
        assert(s[e] == v[e - k.len() - 1]);
        assert(false);
    }
    if e == c {
        assert(s[e] == rest[0]);
        assert(false);
    }
    if e > c {
        assert(s[c] == rest[0]);
        assert(low.subrange(i, i + pat.len())[c - i] == pat[c - i]);
        assert(pat[c - i] == text::lower(name[c - i]));
        assert(low[c] == ',');
        assert(name[c - i] == ',');
        assert(in_value(name[c - i]));
        assert(false);
    }
    assert(e == k.len());
    let tail = text::lower_all(k).subrange(i, k.len() as int);
    assert forall|j: int| 0 <= j < n implies tail[j] == text::lower_all(name)[j] by {
        assert(low.subrange(i, i + pat.len())[j] == pat[j]);
        assert(s[i + j] == k[i + j]);
    }
    assert(tail =~= text::lower_all(name));
}

proof fn lemma_value(pairs: Seq<Pair>, name: Seq<char>)
    requires
        are_pairs(pairs),
        is_word(name),
        tells_apart(pairs, name),
    ensures
        transport::transport_value(pairs_text(pairs), name + seq!['=']) == value_of(pairs, name),
    decreases pairs.len(),
{
    let t = pairs_text(pairs);
    let k = pairs[0].0;
    let v = pairs[0].1;
    let key = name + seq!['='];
    let pat = text::lower_all(key);
    let low = text::lower_all(t);
    let more = pairs.len() > 1;
    let tail = pairs.drop_first();
    let rest = if more {
        seq![','] + pairs_text(tail)
    } else {
        Seq::empty()
    };
    assert(is_word(pairs[0].0) && is_value(pairs[0].1));
    assert(t =~= k + seq!['='] + v + rest);
    let off: int = k.len() + v.len() as int + 2;
    if text::equal_ignoring_case(k, name) {
        assert(k.len() == text::lower_all(k).len() && name.len() == text::lower_all(name).len());
        assert forall|j: int| 0 <= j < pat.len() implies low.subrange(0, pat.len() as int)[j]
            == pat[j] by {
            if j < name.len() {
                assert(text::lower_all(k)[j] == text::lower_all(name)[j]);
                assert(t[j] == k[j]);
            }
        }
        assert(low.subrange(0, pat.len() as int) =~= pat);
        text::lemma_match_at(low, pat, 0, 0);
        let after = t.skip(key.len() as int);
        assert(after =~= v + rest);
        let k2 = CharClass::Either(',', '}');
        text::lemma_first_in_bounds(after, k2, 0);
        let end = text::first_in(after, k2, 0);
        if end < v.len() {
            assert(after[end] == v[end]);
            assert(in_value(v[end]));
        }
        if more {
            assert(after[v.len() as int] == ',');
        }
        assert(end == v.len());
        assert(after.take(end) =~= v);
        assert(in_value(v[0]) && in_value(v[v.len() - 1]));
        text::lemma_stripped_stays(v, CharClass::Space);
    } else {
        assert forall|i: int| 0 <= i < off implies !text::occurs_at(low, pat, i) by {
            if text::occurs_at(low, pat, i) {
                lemma_key_place(k, v, rest, name, i);
                assert(text::equal_ignoring_case(pairs[0].0, name));
            }
        }
        if more {
            let t2 = pairs_text(tail);
            let low2 = text::lower_all(t2);
            assert forall|i: int| 0 <= i < tail.len() implies (text::ends_with(
                text::lower_all((#[trigger] tail[i]).0),
                text::lower_all(name),
            ) ==> text::equal_ignoring_case(tail[i].0, name)) && is_word(tail[i].0) && is_value(
                tail[i].1,
            ) by {
                assert(tail[i] == pairs[i + 1]);
            }
            lemma_value(tail, name);
            text::a_match_is_the_first(low2, pat, 0);
            assert forall|i: int| off <= i implies text::occurs_at(low, pat, i) == text::occurs_at(
                low2,
                pat,
                i - off,
            ) by {
                if i + pat.len() <= low.len() {
                    assert(low.subrange(i, i + pat.len()) =~= low2.subrange(
                        i - off,
                        i - off + pat.len(),
                    ));
                }
            }
            match text::first_match(low2, pat, 0) {
                Some(j) => {
                    assert(text::occurs_at(low2, pat, j));
                    assert(text::occurs_at(low, pat, off + j));
                    assert forall|i: int| 0 <= i < off + j implies !text::occurs_at(
                        low,
                        pat,
                        i,
                    ) by {
                        if i >= off {
                            assert(!text::occurs_at(low2, pat, i - off));
                        }
                    }
                    text::lemma_match_at(low, pat, 0, off + j);
                    assert(t.skip(off + j + key.len()) =~= t2.skip(j + key.len()));
                },
                None => {
                    assert forall|i: int| 0 <= i implies !text::occurs_at(low, pat, i) by {
                        if i >= off {
                            assert(!text::occurs_at(low2, pat, i - off));
                        }
                    }
                    text::lemma_no_match(low, pat, 0);
                },
            }
        } else {
            assert forall|i: int| 0 <= i implies !text::occurs_at(low, pat, i) by {
                if i >= off {
                    assert(low.len() == t.len());
                }
            }
            text::lemma_no_match(low, pat, 0);
            assert(value_of(tail, name) is None);
        }
    }
}

/// Whether a character can stand in the text of pairs.
pub open spec fn in_pairs(c: char) -> bool {
    !text::is_space(c) && c != '{' && c != '}' && c != '(' && c != ')'
}

proof fn lemma_pairs_text(pairs: Seq<Pair>)
    requires
        are_pairs(pairs),
    ensures
        pairs_text(pairs).len() > 0,
        pairs_text(pairs)[0] != ':',
        forall|i: int| 0 <= i < pairs_text(pairs).len() ==> in_pairs(#[trigger] pairs_text(pairs)[i]),
        text::has_any(pairs_text(pairs), CharClass::Only('=')),
    decreases pairs.len(),
{
    let t = pairs_text(pairs);
    let k = pairs[0].0;
    let v = pairs[0].1;
    assert(is_word(pairs[0].0) && is_value(pairs[0].1));
    assert(t[0] == k[0]);
    assert(t[k.len() as int] == '=');
    assert(CharClass::Only('=').has(t[k.len() as int]));
    let tail = pairs.drop_first();
    if pairs.len() > 1 {
        assert forall|i: int| 0 <= i < tail.len() implies is_word((#[trigger] tail[i]).0)
            && is_value(tail[i].1) by {
            assert(tail[i] == pairs[i + 1]);
        }
        lemma_pairs_text(tail);
    }
    let c: int = k.len() + 1 + v.len() as int;
    assert forall|i: int| 0 <= i < t.len() implies in_pairs(#[trigger] t[i]) by {
        if i < k.len() {
            assert(t[i] == k[i]);
            assert(in_value(k[i]));
        } else if i == k.len() {
            assert(t[i] == '=');
        } else if i < c {
            assert(t[i] == v[i - k.len() - 1]);
            assert(in_value(v[i - k.len() - 1]));
        } else if i == c {
            assert(t[i] == ',');
        } else {
            assert(t[i] == pairs_text(tail)[i - c - 1]);
        }
    }
}

/// An endpoint that is no address in brackets is told as it stands, without the space around
/// it.
pub proof fn other_endpoints_are_told_as_they_stand(endpoint: Seq<char>)
    requires
        text::trimmed(endpoint).len() > 0 ==> text::trimmed(endpoint)[0] != '[',
    ensures
        transport::plain_endpoint(endpoint) == text::trimmed(endpoint),
{
    reveal_strlit("[::ffff:");
    let t = text::trimmed(endpoint);
    if text::starts_with(t, "[::ffff:"@) {
        assert(t.subrange(0, 8)[0] == t[0]);
    }
}

proof fn lemma_value_endpoint(value: Seq<char>)
    requires
        value.len() > 0,
        value[0] != '[',
        !text::is_space(value[0]),
        !text::is_space(value.last()),
    ensures
        transport::plain_endpoint(value) == value,
{
    text::lemma_stripped_stays(value, CharClass::Space);
    other_endpoints_are_told_as_they_stand(value);
}

/// Text in which nothing stands that could be taken off, or for a local session.
proof fn lemma_bare(clause: Seq<char>)
    requires
        clause.len() > 0,
        !text::is_space(clause[0]) && clause[0] != '{' && clause[0] != '}' && clause[0] != '<',
        !text::is_space(clause.last()) && clause.last() != '{' && clause.last() != '}',
    ensures
        transport::bare_clause(clause) == clause,
        !text::equal_ignoring_case(clause, "<Local>"@),
        text::trimmed(clause) == clause,
{
    text::lemma_stripped_stays(clause, CharClass::Space);
    text::lemma_stripped_stays(clause, CharClass::Only('{'));
    text::lemma_stripped_stays(clause, CharClass::Only('}'));
    reveal_strlit("<Local>");
    if text::equal_ignoring_case(clause, "<Local>"@) {
        assert(text::lower_all(clause)[0] == text::lower_all("<Local>"@)[0]);
        assert(text::lower(clause[0]) == '<');
    }
}

proof fn lemma_transport_first_char(name: Seq<char>)
    requires
        transport::names_transport(name),
        is_word(name),
    ensures
        name[0] != '<',
        text::trimmed(name) == name,
{
    assert(in_value(name[0]) && in_value(name[name.len() - 1]));
    text::lemma_stripped_stays(name, CharClass::Space);
    reveal_strlit("tcp");
    reveal_strlit("tcp6");
    reveal_strlit("npipe");
    reveal_strlit("pipe");
    reveal_strlit("spipe");
    reveal_strlit("ssl");
    reveal_strlit("sslpipe");
    reveal_strlit("com");
    reveal_strlit("net");
    reveal_strlit("usb");
    reveal_strlit("1394");
    reveal_strlit("exdi");
    reveal_strlit("serial");
    assert(text::lower_all(name)[0] == text::lower(name[0]));
    assert(text::lower('<') == '<');
}

/// The parts of a clause that holds no space: a transport, a colon and a rest.
proof fn lemma_colon_clause(name: Seq<char>, rest: Seq<char>)
    requires
        transport::names_transport(name),
        is_word(name),
        rest.len() > 0,
        rest[0] != ':',
        forall|i: int| 0 <= i < rest.len() ==> in_pairs(#[trigger] rest[i]),
    ensures
        ({
            let clause = name + seq![':'] + rest;
            &&& transport::bare_clause(clause) == clause
            &&& !text::equal_ignoring_case(clause, "<Local>"@)
            &&& transport::clause_parts(clause) == (Some(name), rest)
            &&& transport::debug_transport(clause) == transport::transport_clause(clause)
        }),
{
    let clause = name + seq![':'] + rest;
    lemma_transport_first_char(name);
    assert forall|i: int| 0 <= i < clause.len() implies in_pairs(#[trigger] clause[i]) by {
        if i < name.len() {
            assert(clause[i] == name[i]);
            assert(in_value(name[i]));
        } else if i > name.len() {
            assert(clause[i] == rest[i - name.len() - 1]);
        }
    }
    assert(clause[0] == name[0]);
    assert(in_pairs(clause[clause.len() - 1]) && in_pairs(clause[0]));
    lemma_bare(clause);
    text::lemma_first_in_bounds(clause, CharClass::Space, 0);
    let space = text::first_in(clause, CharClass::Space, 0);
    if space < clause.len() {
        assert(in_pairs(clause[space]));
    }
    text::lemma_first_in_bounds(clause, CharClass::Only(':'), 0);
    let colon = text::first_in(clause, CharClass::Only(':'), 0);
    assert(clause[name.len() as int] == ':');
    if colon < name.len() {
        assert(clause[colon] == name[colon]);
    }
    assert(colon == name.len());
    assert(clause.take(colon) =~= name);
    assert(clause.skip(colon + 1) =~= rest);
    assert(rest.skip(0) =~= rest);
    assert(text::without_leading(rest, CharClass::Only(':')) =~= rest);
    assert(in_pairs(rest[0]) && in_pairs(rest[rest.len() - 1]));
    text::lemma_stripped_stays(rest, CharClass::Space);
    lemma_no_mark(clause);
    lemma_no_parentheses(clause);
}

proof fn lemma_no_mark(s: Seq<char>)
    requires
        forall|i: int| 0 <= i < s.len() ==> (#[trigger] s[i]) != '{',
    ensures
        transport::after_marker(s, "Trans=@{"@) is None,
{
    reveal_strlit("Trans=@{");
    assert forall|i: int| 0 <= i implies !text::occurs_at(s, "Trans=@{"@, i) by {
        if text::occurs_at(s, "Trans=@{"@, i) {
            assert(s.subrange(i, i + 8)[7] == s[i + 7]);
        }
    }
    text::lemma_no_match(s, "Trans=@{"@, 0);
}

proof fn lemma_no_parentheses(s: Seq<char>)
    requires
        (forall|i: int| 0 <= i < s.len() ==> (#[trigger] s[i]) != ')') || (forall|i: int|
            0 <= i < s.len() ==> (#[trigger] s[i]) != '('),
    ensures
        transport::in_last_parentheses(s) is None,
{
    let end = text::last_in(s, CharClass::Only(')'), s.len() as int);
    text::lemma_last_in_bounds(s, CharClass::Only(')'), s.len() as int);
    if 0 <= end {
        text::lemma_last_in_bounds(s, CharClass::Only('('), end);
    }
}

/// A description that is a transport, a colon and pairs tells that transport. Its endpoint is
/// server and port where both are named; the port where no server is; the pipe where no port
/// is, whether a server is named or not; and nothing where only other keys are.
pub proof fn pairs_tell_the_endpoint(name: Seq<char>, pairs: Seq<Pair>)
    requires
        transport::names_transport(name),
        is_word(name),
        are_pairs(pairs),
        tells_apart(pairs, "Server"@),
        tells_apart(pairs, "Port"@),
        tells_apart(pairs, "Pipe"@),
        forall|i: int| 0 <= i < pairs.len() ==> (#[trigger] pairs[i]).1[0] != '[',
    ensures
        ({
            let told = transport::debug_transport(name + seq![':'] + pairs_text(pairs));
            let server = value_of(pairs, "Server"@);
            let port = value_of(pairs, "Port"@);
            let pipe = value_of(pairs, "Pipe"@);
            &&& told == transport::transport_clause(name + seq![':'] + pairs_text(pairs))
            &&& told.0 == Some(name)
            &&& server is Some && port is Some ==> told.1 == Some(server->0 + seq![':'] + port->0)
            &&& server is None && port is Some ==> told.1 == port
            &&& port is None && pipe is Some ==> told.1 == pipe
            &&& port is None && pipe is None ==> told.1 is None
        }),
{
    let rest = pairs_text(pairs);
    lemma_pairs_text(pairs);
    lemma_colon_clause(name, rest);
    lemma_pairs_endpoint(pairs);
    lemma_no_bracket(pairs, "Server"@);
    lemma_no_bracket(pairs, "Port"@);
    lemma_no_bracket(pairs, "Pipe"@);
}

/// Pairs without a transport in front of them tell the same endpoint, and no transport.
pub proof fn pairs_alone_tell_an_endpoint(pairs: Seq<Pair>)
    requires
        are_pairs(pairs),
        forall|i: int| 0 <= i < pairs.len() ==> is_word((#[trigger] pairs[i]).1),
        pairs[0].0[0] != '<',
        tells_apart(pairs, "Server"@),
        tells_apart(pairs, "Port"@),
        tells_apart(pairs, "Pipe"@),
        forall|i: int| 0 <= i < pairs.len() ==> (#[trigger] pairs[i]).1[0] != '[',
    ensures
        ({
            let told = transport::transport_clause(pairs_text(pairs));
            let server = value_of(pairs, "Server"@);
            let port = value_of(pairs, "Port"@);
            let pipe = value_of(pairs, "Pipe"@);
            &&& told.0 is None
            &&& server is Some && port is Some ==> told.1 == Some(server->0 + seq![':'] + port->0)
            &&& server is None && port is Some ==> told.1 == port
            &&& port is None && pipe is Some ==> told.1 == pipe
            &&& port is None && pipe is None ==> told.1 is None
        }),
{
    let rest = pairs_text(pairs);
    lemma_pairs_text(pairs);
    lemma_pairs_without_colon(pairs);
    assert(rest[0] == pairs[0].0[0]) by {
        assert(is_word(pairs[0].0));
    }
    assert(in_pairs(rest[0]) && in_pairs(rest[rest.len() - 1]));
    lemma_bare(rest);
    lemma_no_front(rest);
    lemma_pairs_endpoint(pairs);
    lemma_no_bracket(pairs, "Server"@);
    lemma_no_bracket(pairs, "Port"@);
    lemma_no_bracket(pairs, "Pipe"@);
}

proof fn lemma_pairs_without_colon(pairs: Seq<Pair>)
    requires
        are_pairs(pairs),
        forall|i: int| 0 <= i < pairs.len() ==> is_word((#[trigger] pairs[i]).1),
    ensures
        forall|i: int| 0 <= i < pairs_text(pairs).len() ==> (#[trigger] pairs_text(pairs)[i]) != ':',
    decreases pairs.len(),
{
    let t = pairs_text(pairs);
    let k = pairs[0].0;
    let v = pairs[0].1;
    assert(is_word(pairs[0].0) && is_word(pairs[0].1));
    let tail = pairs.drop_first();
    if pairs.len() > 1 {
        assert forall|i: int| 0 <= i < tail.len() implies is_word((#[trigger] tail[i]).0)
            && is_word(tail[i].1) by {
            assert(tail[i] == pairs[i + 1]);
        }
        lemma_pairs_without_colon(tail);
    }
    let c: int = k.len() + 1 + v.len() as int;
    assert forall|i: int| 0 <= i < t.len() implies (#[trigger] t[i]) != ':' by {
        if i < k.len() {
            assert(t[i] == k[i]);
        } else if i == k.len() {
            assert(t[i] == '=');
        } else if i < c {
            assert(t[i] == v[i - k.len() - 1]);
        } else if i == c {
            assert(t[i] == ',');
        } else {
            assert(t[i] == pairs_text(tail)[i - c - 1]);
        }
    }
}

proof fn lemma_no_front(clause: Seq<char>)
    requires
        forall|i: int|
            0 <= i < clause.len() ==> !text::is_space(#[trigger] clause[i]) && clause[i] != ':',
    ensures
        transport::clause_parts(clause) == (None::<Seq<char>>, clause),
{
    text::lemma_first_in_bounds(clause, CharClass::Space, 0);
    text::lemma_first_in_bounds(clause, CharClass::Only(':'), 0);
}

/// An address without a transport in front of it is an endpoint.
pub proof fn an_address_alone_is_an_endpoint(address: Seq<char>)
    requires
        is_word(address),
        address[0] != '<',
        address[0] != '[',
    ensures
        transport::transport_clause(address) == (None::<Seq<char>>, Some(address)),
{
    assert forall|i: int| 0 <= i < address.len() implies !text::is_space(#[trigger] address[i])
        && address[i] != ':' by {
        assert(in_value(address[i]));
    }
    assert(in_value(address[0]) && in_value(address[address.len() - 1]));
    lemma_bare(address);
    lemma_no_front(address);
    lemma_address_endpoint(address);
}

proof fn lemma_pairs_endpoint(pairs: Seq<Pair>)
    requires
        are_pairs(pairs),
        tells_apart(pairs, "Server"@),
        tells_apart(pairs, "Port"@),
        tells_apart(pairs, "Pipe"@),
    ensures
        ({
            let endpoint = transport::clause_endpoint(pairs_text(pairs));
            let server = value_of(pairs, "Server"@);
            let port = value_of(pairs, "Port"@);
            let pipe = value_of(pairs, "Pipe"@);
            let both = server->0 + seq![':'] + port->0;
            &&& server is Some && port is Some ==> endpoint == Some(
                transport::plain_endpoint(both),
            )
            &&& server is Some && port is Some && server->0[0] != '[' ==> endpoint == Some(both)
            &&& server is None && port is Some && port->0[0] != '[' ==> endpoint == port
            &&& port is None && pipe is Some && pipe->0[0] != '[' ==> endpoint == pipe
            &&& port is None && pipe is None ==> endpoint is None
        }),
{
    lemma_pairs_text(pairs);
    reveal_strlit("Server=");
    reveal_strlit("Server");
    reveal_strlit("Port=");
    reveal_strlit("Port");
    reveal_strlit("Pipe=");
    reveal_strlit("Pipe");
    reveal_strlit(":");
    assert("Server="@ =~= "Server"@ + seq!['=']);
    assert("Port="@ =~= "Port"@ + seq!['=']);
    assert("Pipe="@ =~= "Pipe"@ + seq!['=']);
    assert(":"@ =~= seq![':']);
    lemma_value(pairs, "Server"@);
    lemma_value(pairs, "Port"@);
    lemma_value(pairs, "Pipe"@);
    lemma_value_is_one(pairs, "Server"@);
    lemma_value_is_one(pairs, "Port"@);
    lemma_value_is_one(pairs, "Pipe"@);
    let server = value_of(pairs, "Server"@);
    let port = value_of(pairs, "Port"@);
    let pipe = value_of(pairs, "Pipe"@);
    if server is Some && port is Some && server->0[0] != '[' {
        let both = server->0 + seq![':'] + port->0;
        assert(in_value(server->0[0]) && in_value(port->0[port->0.len() - 1]));
        assert(both[0] == server->0[0]);
        assert(both.last() == port->0.last());
        lemma_value_endpoint(both);
    }
    if port is Some && port->0[0] != '[' {
        assert(in_value(port->0[0]) && in_value(port->0[port->0.len() - 1]));
        lemma_value_endpoint(port->0);
    }
    if pipe is Some && pipe->0[0] != '[' {
        assert(in_value(pipe->0[0]) && in_value(pipe->0[pipe->0.len() - 1]));
        lemma_value_endpoint(pipe->0);
    }
}

proof fn lemma_value_is_one(pairs: Seq<Pair>, name: Seq<char>)
    requires
        forall|i: int| 0 <= i < pairs.len() ==> is_value((#[trigger] pairs[i]).1),
    ensures
        value_of(pairs, name) is Some ==> is_value(value_of(pairs, name)->0),
    decreases pairs.len(),
{
    if pairs.len() > 0 {
        assert(is_value(pairs[0].1));
        let tail = pairs.drop_first();
        assert forall|i: int| 0 <= i < tail.len() implies is_value((#[trigger] tail[i]).1) by {
            assert(tail[i] == pairs[i + 1]);
        }
        lemma_value_is_one(tail, name);
    }
}

/// A description that is a transport, a colon and an address tells both.
pub proof fn an_address_behind_a_transport_is_its_endpoint(name: Seq<char>, address: Seq<char>)
    requires
        transport::names_transport(name),
        is_word(name),
        is_value(address),
        address[0] != ':',
        address[0] != '[',
    ensures
        transport::debug_transport(name + seq![':'] + address) == (Some(name), Some(address)),
{
    assert forall|i: int| 0 <= i < address.len() implies in_pairs(#[trigger] address[i]) by {
        assert(in_value(address[i]));
    }
    lemma_colon_clause(name, address);
    lemma_address_endpoint(address);
}

proof fn lemma_address_endpoint(address: Seq<char>)
    requires
        is_value(address),
    ensures
        transport::clause_endpoint(address) == Some(transport::plain_endpoint(address)),
        address[0] != '[' ==> transport::clause_endpoint(address) == Some(address),
{
    assert forall|i: int| 0 <= i < address.len() implies (#[trigger] address[i]) != '=' by {
        assert(in_value(address[i]));
    }
    reveal_strlit("Server=");
    reveal_strlit("Port=");
    reveal_strlit("Pipe=");
    lemma_no_key(address, "Server="@);
    lemma_no_key(address, "Port="@);
    lemma_no_key(address, "Pipe="@);
    assert(in_value(address[0]) && in_value(address[address.len() - 1]));
    if address[0] != '[' {
        lemma_value_endpoint(address);
    }
    assert(!text::has_any(address, CharClass::Only('=')));
}

proof fn lemma_no_key(rest: Seq<char>, key: Seq<char>)
    requires
        key.len() > 0,
        key.last() == '=',
        forall|i: int| 0 <= i < rest.len() ==> (#[trigger] rest[i]) != '=',
    ensures
        transport::transport_value(rest, key) is None,
{
    let low = text::lower_all(rest);
    let pat = text::lower_all(key);
    let n = key.len() - 1;
    assert forall|i: int| 0 <= i implies !text::occurs_at(low, pat, i) by {
        if text::occurs_at(low, pat, i) {
            assert(low.subrange(i, i + pat.len())[n] == pat[n]);
            assert(low[i + n] == text::lower(rest[i + n]));
            assert(rest[i + n] == '=');
        }
    }
    text::lemma_no_match(low, pat, 0);
}

/// A transport and an address with a space between them tell both, and so they do in the last
/// parentheses of a description, whatever stands before them.
pub proof fn an_address_after_a_space_is_told(name: Seq<char>, address: Seq<char>)
    requires
        transport::names_transport(name),
        is_word(name),
        is_value(address),
        address[0] != '[',
    ensures
        transport::transport_clause(name + seq![' '] + address) == (Some(name), Some(address)),
{
    let clause = name + seq![' '] + address;
    lemma_transport_first_char(name);
    assert(clause[0] == name[0]);
    assert(clause.last() == address.last());
    assert(in_value(name[0]) && in_value(address[address.len() - 1]) && in_value(address[0]));
    lemma_bare(clause);
    text::lemma_first_in_bounds(clause, CharClass::Space, 0);
    let space = text::first_in(clause, CharClass::Space, 0);
    assert(clause[name.len() as int] == ' ');
    assert(text::is_space(' '));
    if space < name.len() {
        assert(clause[space] == name[space]);
        assert(in_value(name[space]));
    }
    assert(space == name.len());
    assert(clause.take(space) =~= name);
    assert(clause.skip(space) =~= seq![' '] + address + Seq::empty());
    text::stripping_takes_off_what_stands_around(
        seq![' '],
        address,
        Seq::empty(),
        CharClass::Space,
    );
    lemma_address_endpoint(address);
}

/// What stands in the last parentheses of a description is its clause, where the description
/// holds no mark of a transport.
pub proof fn the_last_parentheses_hold_the_clause(
    before: Seq<char>,
    clause: Seq<char>,
    after: Seq<char>,
)
    requires
        forall|i: int| 0 <= i < clause.len() ==> (#[trigger] clause[i]) != '(' && clause[i] != ')',
        forall|i: int| 0 <= i < after.len() ==> (#[trigger] after[i]) != ')',
        forall|i: int|
            0 <= i ==> !(#[trigger] text::occurs_at(
                before + seq!['('] + clause + seq![')'] + after,
                "Trans=@{"@,
                i,
            )),
    ensures
        transport::debug_transport(before + seq!['('] + clause + seq![')'] + after)
            == transport::transport_clause(clause),
{
    text::lemma_no_match(before + seq!['('] + clause + seq![')'] + after, "Trans=@{"@, 0);
    let s = before + seq!['('] + clause + seq![')'] + after;
    let close: int = before.len() + 1 + clause.len() as int;
    text::lemma_last_in_bounds(s, CharClass::Only(')'), s.len() as int);
    let end = text::last_in(s, CharClass::Only(')'), s.len() as int);
    assert(s[close] == ')');
    if end > close {
        assert(s[end] == after[end - close - 1]);
    }
    assert(end == close);
    text::lemma_last_in_bounds(s, CharClass::Only('('), end);
    let start = text::last_in(s, CharClass::Only('('), end);
    assert(s[before.len() as int] == '(');
    if start > before.len() {
        assert(s[start] == clause[start - before.len() - 1]);
    }
    assert(start == before.len());
    assert(s.subrange(start + 1, end) =~= clause);
    text::stripping_twice_changes_nothing(clause, CharClass::Space);
}

/// The part `Trans=@{..}` of a description is its clause, whatever stands around it, where it
/// is the first such part.
pub proof fn the_marked_part_holds_the_clause(
    before: Seq<char>,
    clause: Seq<char>,
    after: Seq<char>,
)
    requires
        forall|i: int| 0 <= i < clause.len() ==> (#[trigger] clause[i]) != '}',
        forall|i: int|
            0 <= i < before.len() ==> !text::occurs_at(
                before + "Trans=@{"@ + clause + seq!['}'] + after,
                "Trans=@{"@,
                i,
            ),
    ensures
        transport::debug_transport(before + "Trans=@{"@ + clause + seq!['}'] + after)
            == transport::transport_clause(clause),
{
    let mark = "Trans=@{"@;
    let s = before + mark + clause + seq!['}'] + after;
    let at = before.len() as int;
    assert(s.subrange(at, at + mark.len()) =~= mark);
    text::lemma_match_at(s, mark, 0, at);
    let rest = s.skip(at + mark.len());
    assert(rest =~= clause + seq!['}'] + after);
    text::lemma_first_in_bounds(rest, CharClass::Only('}'), 0);
    let end = text::first_in(rest, CharClass::Only('}'), 0);
    assert(rest[clause.len() as int] == '}');
    if end < clause.len() {
        assert(rest[end] == clause[end]);
    }
    assert(rest.take(end) =~= clause);
}

/// A local session has neither a transport nor an endpoint, in braces or not, and in any case.
pub proof fn a_local_session_has_no_transport(clause: Seq<char>)
    requires
        text::equal_ignoring_case(clause, "<Local>"@) || clause.len() == 0,
    ensures
        transport::transport_clause(clause) == (None::<Seq<char>>, None::<Seq<char>>),
        transport::transport_clause(seq!['{'] + clause + seq!['}']) == (
            None::<Seq<char>>,
            None::<Seq<char>>,
        ),
{
    reveal_strlit("<Local>");
    let braced = seq!['{'] + clause + seq!['}'];
    if clause.len() > 0 {
        assert(clause.len() == text::lower_all(clause).len());
        assert("<Local>"@.len() == text::lower_all("<Local>"@).len());
        assert(text::lower_all(clause)[0] == text::lower_all("<Local>"@)[0]);
        assert(text::lower_all(clause)[6] == text::lower_all("<Local>"@)[6]);
        assert(clause[0] == '<' && clause[6] == '>');
        text::lemma_stripped_stays(clause, CharClass::Space);
        text::lemma_stripped_stays(clause, CharClass::Only('{'));
        text::lemma_stripped_stays(clause, CharClass::Only('}'));
        text::lemma_stripped_stays(braced, CharClass::Space);
        text::stripping_takes_off_what_stands_around(
            seq!['{'],
            clause + seq!['}'],
            Seq::empty(),
            CharClass::Only('{'),
        );
        assert(seq!['{'] + (clause + seq!['}']) + Seq::empty() =~= braced);
        text::stripping_takes_off_what_stands_around(
            Seq::empty(),
            clause,
            seq!['}'],
            CharClass::Only('}'),
        );
        assert(Seq::empty() + clause + seq!['}'] =~= clause + seq!['}']);
    } else {
        text::lemma_stripped_stays(clause, CharClass::Space);
        text::lemma_stripped_stays(clause, CharClass::Only('{'));
        text::lemma_stripped_stays(clause, CharClass::Only('}'));
        text::lemma_stripped_stays(braced, CharClass::Space);
        text::stripping_takes_off_what_stands_around(
            seq!['{'],
            seq!['}'],
            Seq::empty(),
            CharClass::Only('{'),
        );
        assert(seq!['{'] + seq!['}'] + Seq::empty() =~= braced);
        text::stripping_takes_off_what_stands_around(
            Seq::empty(),
            clause,
            seq!['}'],
            CharClass::Only('}'),
        );
        assert(Seq::empty() + clause + seq!['}'] =~= seq!['}']);
    }
}

/// A description without a mark, without parentheses and without a transport in front of its
/// first colon, or of its first space where it has no colon, tells nothing.
pub proof fn other_descriptions_tell_nothing(summary: Seq<char>, front: Seq<char>, rest: Seq<char>)
    requires
        forall|i: int| 0 <= i ==> !(#[trigger] text::occurs_at(summary, "Trans=@{"@, i)),
        (forall|i: int| 0 <= i < summary.len() ==> (#[trigger] summary[i]) != ')') || (forall|
            i: int,
        |
            0 <= i < summary.len() ==> (#[trigger] summary[i]) != '('),
        !transport::names_transport(front),
        forall|i: int| 0 <= i < front.len() ==> (#[trigger] front[i]) != ':',
        text::trimmed(summary) == front + seq![':'] + rest || text::trimmed(summary) == front && (
        forall|i: int| 0 <= i < front.len() ==> !text::is_space(#[trigger] front[i])),
    ensures
        transport::debug_transport(summary) == (None::<Seq<char>>, None::<Seq<char>>),
{
    text::lemma_no_match(summary, "Trans=@{"@, 0);
    lemma_no_parentheses(summary);
    let t = text::trimmed(summary);
    text::lemma_first_in_bounds(t, CharClass::Only(':'), 0);
    text::lemma_first_in_bounds(t, CharClass::Space, 0);
    let colon = text::first_in(t, CharClass::Only(':'), 0);
    if t == front + seq![':'] + rest {
        assert(t[front.len() as int] == ':');
        if colon < front.len() {
            assert(t[colon] == front[colon]);
        }
        assert(t.take(colon) =~= front);
    }
}

/// The transports of the debugger: these names, in any case and with any space around them,
/// and no others.
pub proof fn the_transports_are_known_by_name(name: Seq<char>)
    ensures
        transport::names_transport(name) <==> seq![
            "tcp"@,
            "tcp6"@,
            "npipe"@,
            "pipe"@,
            "spipe"@,
            "ssl"@,
            "sslpipe"@,
            "com"@,
            "net"@,
            "usb"@,
            "1394"@,
            "exdi"@,
            "serial"@,
        ].contains(text::lower_all(text::trimmed(name))),
{
    let names = seq![
        "tcp"@,
        "tcp6"@,
        "npipe"@,
        "pipe"@,
        "spipe"@,
        "ssl"@,
        "sslpipe"@,
        "com"@,
        "net"@,
        "usb"@,
        "1394"@,
        "exdi"@,
        "serial"@,
    ];
    let n = text::lower_all(text::trimmed(name));
    assert(names[0] == "tcp"@ && names[1] == "tcp6"@ && names[2] == "npipe"@ && names[3]
        == "pipe"@ && names[4] == "spipe"@ && names[5] == "ssl"@ && names[6] == "sslpipe"@
        && names[7] == "com"@ && names[8] == "net"@ && names[9] == "usb"@ && names[10] == "1394"@
        && names[11] == "exdi"@ && names[12] == "serial"@);
    if names.contains(n) {
        let i = choose|i: int| 0 <= i < names.len() && names[i] == n;
        assert(0 <= i < 13);
    }
}

proof fn lemma_no_bracket(pairs: Seq<Pair>, name: Seq<char>)
    requires
        forall|i: int| 0 <= i < pairs.len() ==> (#[trigger] pairs[i]).1[0] != '[',
    ensures
        value_of(pairs, name) is Some ==> value_of(pairs, name)->0[0] != '[',
    decreases pairs.len(),
{
    if pairs.len() > 0 {
        assert(pairs[0].1[0] != '[');
        let tail = pairs.drop_first();
        assert forall|i: int| 0 <= i < tail.len() implies (#[trigger] tail[i]).1[0] != '[' by {
            assert(tail[i] == pairs[i + 1]);
        }
        lemma_no_bracket(tail, name);
    }
}

/// An IPv4 address that is mapped into IPv6 is told plain wherever a description names it: as
/// its server beside a port, or as an address behind its transport.
pub proof fn a_mapped_address_in_a_description_is_told_plain(
    name: Seq<char>,
    pairs: Seq<Pair>,
    address: Seq<char>,
    port: Seq<char>,
)
    requires
        transport::names_transport(name),
        is_word(name),
        is_value(address),
        !text::has_any(address, CharClass::Only(']')),
        is_value(port),
        are_pairs(pairs),
        tells_apart(pairs, "Server"@),
        tells_apart(pairs, "Port"@),
        tells_apart(pairs, "Pipe"@),
        value_of(pairs, "Server"@) == Some("[::ffff:"@ + address + "]"@),
        value_of(pairs, "Port"@) == Some(port),
    ensures
        transport::debug_transport(name + seq![':'] + pairs_text(pairs)) == (
            Some(name),
            Some(address + ":"@ + port),
        ),
        transport::debug_transport(name + seq![':'] + ("[::ffff:"@ + address + "]:"@ + port)) == (
            Some(name),
            Some(address + ":"@ + port),
        ),
{
    reveal_strlit("[::ffff:");
    reveal_strlit("]:");
    reveal_strlit("]");
    lemma_pairs_text(pairs);
    lemma_colon_clause(name, pairs_text(pairs));
    lemma_pairs_endpoint(pairs);
    let whole = "[::ffff:"@ + address + "]:"@ + port;
    assert("[::ffff:"@ + address + "]"@ + seq![':'] + port =~= whole);
    assert(in_value(port[port.len() - 1]));
    transport::a_mapped_address_is_told_plain(address, port);
    assert forall|i: int| 0 <= i < whole.len() implies in_value(#[trigger] whole[i]) by {
        let n = address.len() as int;
        if 8 <= i < 8 + n {
            assert(whole[i] == address[i - 8]);
        } else if i >= 10 + n {
            assert(whole[i] == port[i - 10 - n]);
        }
    }
    assert(is_value(whole));
    assert forall|i: int| 0 <= i < whole.len() implies in_pairs(#[trigger] whole[i]) by {
        assert(in_value(whole[i]));
    }
    lemma_colon_clause(name, whole);
    lemma_address_endpoint(whole);
}

/// What holds no closing bracket is no mapped address, and is told as it stands.
pub proof fn an_open_bracket_is_told_as_it_stands(endpoint: Seq<char>)
    requires
        !text::has_any(endpoint, CharClass::Only(']')),
    ensures
        transport::plain_endpoint(endpoint) == text::trimmed(endpoint),
{
    reveal_strlit("[::ffff:");
    reveal_strlit("]:");
    let t = text::trimmed(endpoint);
    let (start, end) = text::lemma_stripped_bounds(endpoint, CharClass::Space);
    let rest = t.skip(8);
    if text::starts_with(t, "[::ffff:"@) {
        assert forall|i: int| 0 <= i implies !text::occurs_at(rest, "]:"@, i) by {
            if text::occurs_at(rest, "]:"@, i) {
                assert(rest.subrange(i, i + 2)[0] == rest[i]);
                assert(t[i + 8] == ']');
                assert(endpoint[start + i + 8] == t[i + 8]);
                assert(CharClass::Only(']').has(endpoint[start + i + 8]));
            }
        }
        text::lemma_no_match(rest, "]:"@, 0);
    }
}

/// Braces around a clause, and space around them, do not matter.
pub proof fn braces_around_a_clause_do_not_matter(
    before: Seq<char>,
    clause: Seq<char>,
    after: Seq<char>,
)
    requires
        forall|i: int| 0 <= i < before.len() ==> text::is_space(#[trigger] before[i]),
        forall|i: int| 0 <= i < after.len() ==> text::is_space(#[trigger] after[i]),
        clause.len() > 0,
        !text::is_space(clause[0]) && clause[0] != '{' && clause[0] != '}',
        !text::is_space(clause.last()) && clause.last() != '{' && clause.last() != '}',
    ensures
        transport::transport_clause(before + (seq!['{'] + clause + seq!['}']) + after)
            == transport::transport_clause(clause),
        transport::transport_clause(before + clause + after) == transport::transport_clause(
            clause,
        ),
{
    let braced = seq!['{'] + clause + seq!['}'];
    let open = CharClass::Only('{');
    let shut = CharClass::Only('}');
    text::stripping_takes_off_what_stands_around(before, braced, after, CharClass::Space);
    text::stripping_takes_off_what_stands_around(before, clause, after, CharClass::Space);
    text::lemma_stripped_stays(clause, CharClass::Space);
    text::lemma_stripped_stays(clause, open);
    text::lemma_stripped_stays(clause, shut);
    let ended = clause + seq!['}'];
    assert(ended.last() == '}');
    text::stripping_takes_off_what_stands_around(seq!['{'], ended, Seq::empty(), open);
    assert(seq!['{'] + ended + Seq::empty() =~= braced);
    text::stripping_takes_off_what_stands_around(Seq::empty(), clause, seq!['}'], shut);
    assert(Seq::empty() + clause + seq!['}'] =~= ended);
}

/// The value of a key stands behind it, in any case, up to a comma or a closing brace or the
/// end, without the space around it; where nothing stands there, the key has no value.
pub proof fn a_value_stands_behind_its_key(
    before: Seq<char>,
    key: Seq<char>,
    written: Seq<char>,
    left: Seq<char>,
    value: Seq<char>,
    right: Seq<char>,
    after: Seq<char>,
)
    requires
        forall|i: int| 0 <= i < before.len() ==> (#[trigger] before[i]) != '=',
        key.len() > 0,
        key.last() == '=',
        forall|i: int| 0 <= i < key.len() - 1 ==> (#[trigger] key[i]) != '=',
        text::equal_ignoring_case(written, key),
        forall|i: int| 0 <= i < left.len() ==> text::is_space(#[trigger] left[i]),
        forall|i: int| 0 <= i < right.len() ==> text::is_space(#[trigger] right[i]),
        value.len() > 0 ==> !text::is_space(value[0]) && !text::is_space(value.last()),
        forall|i: int| 0 <= i < value.len() ==> (#[trigger] value[i]) != ',' && value[i] != '}',
        after.len() > 0 ==> after[0] == ',' || after[0] == '}',
    ensures
        transport::transport_value(before + written + (left + value + right) + after, key) == (
        if value.len() == 0 {
            None
        } else {
            Some(value)
        }),
{
    let s = before + written + (left + value + right) + after;
    let low = text::lower_all(s);
    let pat = text::lower_all(key);
    let at = before.len() as int;
    let n = key.len() - 1;
    assert(text::lower_all(written).len() == pat.len());
    assert(low.subrange(at, at + pat.len()) =~= text::lower_all(written));
    assert forall|i: int| 0 <= i < at implies !text::occurs_at(low, pat, i) by {
        if text::occurs_at(low, pat, i) {
            assert(low.subrange(i, i + pat.len())[n] == pat[n]);
            assert(low[i + n] == text::lower(s[i + n]));
            assert(s[i + n] == '=');
            if i + n < at {
                assert(before[i + n] == '=');
            } else {
                let j = i + n - at;
                assert(written[j] == '=');
                assert(text::lower_all(written)[j] == pat[j]);
                assert(text::lower(key[j]) == '=');
                assert(key[j] == '=');
            }
        }
    }
    text::lemma_match_at(low, pat, 0, at);
    let core = left + value + right;
    let rest = s.skip(at + key.len());
    assert(rest =~= core + after);
    let k = CharClass::Either(',', '}');
    text::lemma_first_in_bounds(rest, k, 0);
    let end = text::first_in(rest, k, 0);
    if end < core.len() {
        assert(rest[end] == core[end]);
        if end < left.len() {
            assert(text::is_space(left[end]));
        } else if end < left.len() + value.len() {
            assert(core[end] == value[end - left.len()]);
        } else {
            assert(core[end] == right[end - left.len() - value.len()]);
        }
        assert(false);
    }
    if after.len() > 0 {
        assert(rest[core.len() as int] == after[0]);
        assert(k.has(rest[core.len() as int]));
    }
    assert(end == core.len());
    assert(rest.take(end) =~= core);
    text::stripping_takes_off_what_stands_around(left, value, right, CharClass::Space);
}

/// A description that is a transport, a space and an address without a colon tells both.
pub proof fn a_description_may_name_its_address_after_a_space(name: Seq<char>, address: Seq<char>)
    requires
        transport::names_transport(name),
        is_word(name),
        is_word(address),
        address[0] != '[',
    ensures
        transport::debug_transport(name + seq![' '] + address) == (Some(name), Some(address)),
{
    let clause = name + seq![' '] + address;
    an_address_after_a_space_is_told(name, address);
    lemma_transport_first_char(name);
    assert forall|i: int| 0 <= i < clause.len() implies (#[trigger] clause[i]) != '{' && clause[i]
        != ')' && clause[i] != ':' by {
        if i < name.len() {
            assert(clause[i] == name[i]);
            assert(in_value(name[i]));
        } else if i > name.len() {
            assert(clause[i] == address[i - name.len() - 1]);
            assert(in_value(address[i - name.len() - 1]));
        }
    }
    lemma_no_mark(clause);
    lemma_no_parentheses(clause);
    assert(in_value(name[0]) && in_value(address[address.len() - 1]));
    assert(clause[0] == name[0] && clause.last() == address.last());
    text::lemma_stripped_stays(clause, CharClass::Space);
    text::lemma_first_in_bounds(clause, CharClass::Only(':'), 0);
    text::lemma_first_in_bounds(clause, CharClass::Space, 0);
    let space = text::first_in(clause, CharClass::Space, 0);
    assert(clause[name.len() as int] == ' ');
    assert(text::is_space(' '));
    if space < name.len() {
        assert(clause[space] == name[space]);
        assert(in_value(name[space]));
    }
    assert(clause.take(space) =~= name);
}

/// Where what stands before the first space of a clause is no transport, the clause names none,
/// though a colon may stand behind one: what is left of it is all of it.
pub proof fn a_space_keeps_a_colon_from_ending_a_transport(front: Seq<char>, rest: Seq<char>)
    requires
        front.len() > 0,
        forall|i: int| 0 <= i < front.len() ==> !text::is_space(#[trigger] front[i]),
        front[0] != '{' && front[0] != '}' && front[0] != '<',
        rest.len() > 0,
        !text::is_space(rest.last()) && rest.last() != '{' && rest.last() != '}',
        !transport::names_transport(front),
    ensures
        ({
            let clause = front + seq![' '] + rest;
            &&& transport::transport_clause(clause).0 is None
            &&& transport::transport_clause(clause).1 == transport::clause_endpoint(clause)
        }),
{
    let clause = front + seq![' '] + rest;
    assert(!text::is_space(front[0]));
    assert(clause[0] == front[0] && clause.last() == rest.last());
    lemma_bare(clause);
    text::lemma_first_in_bounds(clause, CharClass::Space, 0);
    let space = text::first_in(clause, CharClass::Space, 0);
    assert(clause[front.len() as int] == ' ');
    assert(text::is_space(' '));
    if space < front.len() {
        assert(clause[space] == front[space]);
    }
    assert(clause.take(space) =~= front);
}

/// More than one colon behind a transport counts as one.
pub proof fn colons_behind_a_transport_count_as_one(
    name: Seq<char>,
    colons: Seq<char>,
    address: Seq<char>,
)
    requires
        transport::names_transport(name),
        is_word(name),
        forall|i: int| 0 <= i < colons.len() ==> (#[trigger] colons[i]) == ':',
        is_value(address),
        address[0] != ':',
        address[0] != '[',
    ensures
        transport::transport_clause(name + seq![':'] + (colons + address)) == (
            Some(name),
            Some(address),
        ),
{
    let rest = colons + address;
    let clause = name + seq![':'] + rest;
    lemma_transport_first_char(name);
    assert forall|i: int| 0 <= i < clause.len() implies !text::is_space(#[trigger] clause[i])
        && clause[i] != '{' && clause[i] != '}' by {
        if i < name.len() {
            assert(clause[i] == name[i]);
            assert(in_value(name[i]));
        } else if i > name.len() + colons.len() {
            assert(clause[i] == address[i - name.len() - 1 - colons.len()]);
            assert(in_value(address[i - name.len() - 1 - colons.len()]));
        }
    }
    assert(clause[0] == name[0]);
    lemma_bare(clause);
    text::lemma_first_in_bounds(clause, CharClass::Space, 0);
    let space = text::first_in(clause, CharClass::Space, 0);
    text::lemma_first_in_bounds(clause, CharClass::Only(':'), 0);
    let colon = text::first_in(clause, CharClass::Only(':'), 0);
    assert(clause[name.len() as int] == ':');
    if colon < name.len() {
        assert(clause[colon] == name[colon]);
    }
    assert(clause.take(colon) =~= name);
    assert(clause.skip(colon + 1) =~= rest);
    lemma_leading_colons(colons, address);
    assert(in_value(address[0]) && in_value(address[address.len() - 1]));
    text::lemma_stripped_stays(address, CharClass::Space);
    lemma_address_endpoint(address);
}

proof fn lemma_leading_colons(colons: Seq<char>, address: Seq<char>)
    requires
        forall|i: int| 0 <= i < colons.len() ==> (#[trigger] colons[i]) == ':',
        address.len() > 0,
        address[0] != ':',
    ensures
        text::without_leading(colons + address, CharClass::Only(':')) == address,
{
    let s = colons + address;
    let k = CharClass::Only(':');
    text::lemma_first_outside(s, k, 0);
    let start = text::first_outside(s, k, 0);
    if start < colons.len() {
        assert(s[start] == colons[start]);
    }
    if start > colons.len() {
        assert(s[colons.len() as int] == address[0]);
        assert(k.has(s[colons.len() as int]));
    }
    assert(s.skip(start) =~= address);
}

} // verus!
