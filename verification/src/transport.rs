//! Reads the transport and the endpoint out of the text with which the debugger engine
//! describes the server of a session.

use vstd::prelude::*;

use crate::text;
use crate::text::{
    chars_of, concat3, contains_any, find_in, find_last_in, find_pattern, lower_chars,
    same_ignoring_case, spells, strip, take_before, trim, trim_leading, without_prefix,
    CharClass,
};

verus! {

/// A transport and an endpoint, each as far as the text names one.
pub type TransportView = (Option<Seq<char>>, Option<Seq<char>>);

/// `v` names a debugger transport, whatever its case and the space around it.
pub open spec fn names_transport(v: Seq<char>) -> bool {
    let n = text::lower_all(text::trimmed(v));
    ||| n == "tcp"@
    ||| n == "tcp6"@
    ||| n == "npipe"@
    ||| n == "pipe"@
    ||| n == "spipe"@
    ||| n == "ssl"@
    ||| n == "sslpipe"@
    ||| n == "com"@
    ||| n == "net"@
    ||| n == "usb"@
    ||| n == "1394"@
    ||| n == "exdi"@
    ||| n == "serial"@
}

/// What follows the first `marker` in `text`.
pub open spec fn after_marker(text: Seq<char>, marker: Seq<char>) -> Option<Seq<char>> {
    match text::first_match(text, marker, 0) {
        Some(i) => Some(text.skip(i + marker.len())),
        None => None,
    }
}

/// What follows the first `marker` in `text`, ASCII case aside.
pub open spec fn after_marker_ignoring_case(text: Seq<char>, marker: Seq<char>) -> Option<
    Seq<char>,
> {
    match text::first_match(
        text::lower_all(text),
        text::lower_all(marker),
        0,
    ) {
        Some(i) => Some(text.skip(i + marker.len())),
        None => None,
    }
}

/// The value of `key` in a comma separated clause: what follows the key, up to a comma or a
/// closing brace, without the space around it, unless that is empty.
pub open spec fn transport_value(text: Seq<char>, key: Seq<char>) -> Option<Seq<char>> {
    match after_marker_ignoring_case(text, key) {
        Some(v) => {
            let t = text::trimmed(
                text::before_first(v, CharClass::Either(',', '}')),
            );
            if t.len() == 0 {
                None
            } else {
                Some(t)
            }
        },
        None => None,
    }
}

/// The text in the last pair of parentheses, without the space around it: the last `)`, and
/// the last `(` before it.
pub open spec fn in_last_parentheses(text: Seq<char>) -> Option<Seq<char>> {
    let end = text::last_in(text, CharClass::Only(')'), text.len() as int);
    let start = text::last_in(text, CharClass::Only('('), end);
    if end < 0 || start < 0 {
        None
    } else {
        Some(text::trimmed(text.subrange(start + 1, end)))
    }
}

/// An endpoint without the space around it, and an IPv4 address mapped into IPv6, as in
/// `[::ffff:a.b.c.d]:port`, as the plain `a.b.c.d:port`.
pub open spec fn plain_endpoint(endpoint: Seq<char>) -> Seq<char> {
    let t = text::trimmed(endpoint);
    let rest = t.skip("[::ffff:"@.len() as int);
    if text::starts_with(t, "[::ffff:"@) {
        match text::first_match(rest, "]:"@, 0) {
            Some(i) => rest.take(i) + ":"@ + rest.skip(i + "]:"@.len()),
            None => t,
        }
    } else {
        t
    }
}

/// Splits a clause into the transport it starts with, where it starts with one, and the rest.
/// The first white space ends the transport; only where there is none does a colon.
pub open spec fn clause_parts(text: Seq<char>) -> (Option<Seq<char>>, Seq<char>) {
    let space = text::first_in(text, CharClass::Space, 0);
    let colon = text::first_in(text, CharClass::Only(':'), 0);
    if space < text.len() {
        if names_transport(text.take(space)) {
            (
                Some(text::trimmed(text.take(space))),
                text::trimmed(text.skip(space)),
            )
        } else {
            (None, text)
        }
    } else if colon < text.len() && names_transport(text.take(colon)) {
        (
            Some(text::trimmed(text.take(colon))),
            text::trimmed(
                text::without_leading(text.skip(colon + 1), CharClass::Only(':')),
            ),
        )
    } else {
        (None, text)
    }
}

/// The endpoint that the rest of a clause names: server and port, a port, a pipe, or the rest
/// itself where it holds no `=`.
pub open spec fn clause_endpoint(rest: Seq<char>) -> Option<Seq<char>> {
    let server = transport_value(rest, "Server="@);
    let port = transport_value(rest, "Port="@);
    let pipe = transport_value(rest, "Pipe="@);
    if server is Some && port is Some {
        Some(plain_endpoint(server->0 + ":"@ + port->0))
    } else if port is Some {
        Some(plain_endpoint(port->0))
    } else if pipe is Some {
        Some(plain_endpoint(pipe->0))
    } else if rest.len() > 0 && !text::has_any(rest, CharClass::Only('=')) {
        Some(plain_endpoint(rest))
    } else {
        None
    }
}

/// A clause without the space and the braces around it.
pub open spec fn bare_clause(text: Seq<char>) -> Seq<char> {
    text::stripped(
        text::stripped(text::trimmed(text), CharClass::Only('{')),
        CharClass::Only('}'),
    )
}

/// The transport and the endpoint of one clause. A local session has neither.
pub open spec fn transport_clause(text: Seq<char>) -> TransportView {
    let t = bare_clause(text);
    if t.len() == 0 || text::equal_ignoring_case(t, "<Local>"@) {
        (None, None)
    } else {
        (clause_parts(t).0, clause_endpoint(clause_parts(t).1))
    }
}

/// Whether `text` starts with a transport that a colon ends, or, where it holds no colon, that
/// white space ends.
pub open spec fn is_transport_clause(text: Seq<char>) -> bool {
    let t = text::trimmed(text);
    let colon = text::first_in(t, CharClass::Only(':'), 0);
    let space = text::first_in(t, CharClass::Space, 0);
    if colon < t.len() {
        names_transport(t.take(colon))
    } else {
        space < t.len() && names_transport(t.take(space))
    }
}

/// The transport and the endpoint of a server description: those of its `Trans=@{..}` part,
/// else of its last parentheses, else its own where it is a clause.
pub open spec fn debug_transport(summary: Seq<char>) -> TransportView {
    if after_marker(summary, "Trans=@{"@) is Some {
        transport_clause(
            text::before_first(
                after_marker(summary, "Trans=@{"@)->0,
                CharClass::Only('}'),
            ),
        )
    } else if in_last_parentheses(summary) is Some {
        transport_clause(in_last_parentheses(summary)->0)
    } else if is_transport_clause(summary) {
        transport_clause(summary)
    } else {
        (None, None)
    }
}

pub open spec fn transport_view(r: (Option<String>, Option<String>)) -> TransportView {
    (text::text_of(r.0), text::text_of(r.1))
}

/// Whether `value` names a debugger transport, whatever its case and the space around it.
pub fn is_transport_name(value: &str) -> (r: bool)
    ensures
        r == names_transport(value@),
{
    let n = lower_chars(trim(value));
    spells(&n, "tcp") || spells(&n, "tcp6") || spells(&n, "npipe") || spells(&n, "pipe") || spells(
        &n,
        "spipe",
    ) || spells(&n, "ssl") || spells(&n, "sslpipe") || spells(&n, "com") || spells(&n, "net")
        || spells(&n, "usb") || spells(&n, "1394") || spells(&n, "exdi") || spells(&n, "serial")
}

/// What follows the first `marker` in `text`.
pub fn extract_after<'a>(text: &'a str, marker: &str) -> (r: Option<&'a str>)
    ensures
        text::text_ref(r) == after_marker(text@, marker@),
{
    let cs = chars_of(text);
    let ms = chars_of(marker);
    match find_pattern(&cs, &ms) {
        Some(i) => Some(text.substring_char(i + ms.len(), cs.len())),
        None => None,
    }
}

/// What follows the first `marker` in `text`, ASCII case aside.
pub fn extract_after_ignore_case<'a>(text: &'a str, marker: &str) -> (r: Option<&'a str>)
    ensures
        text::text_ref(r) == after_marker_ignoring_case(text@, marker@),
{
    let cs = lower_chars(text);
    let ms = lower_chars(marker);
    match find_pattern(&cs, &ms) {
        Some(i) => Some(text.substring_char(i + ms.len(), cs.len())),
        None => None,
    }
}

/// The value of `key` in a comma separated clause.
pub fn extract_transport_value(text: &str, key: &str) -> (r: Option<String>)
    ensures
        text::text_of(r) == transport_value(text@, key@),
{
    match extract_after_ignore_case(text, key) {
        Some(value) => {
            let t = trim(take_before(value, CharClass::Either(',', '}')));
            if t.is_empty() {
                None
            } else {
                Some(t.to_owned())
            }
        },
        None => None,
    }
}

/// The text in the last pair of parentheses, without the space around it.
pub fn extract_parenthesized_transport(text: &str) -> (r: Option<&str>)
    ensures
        text::text_ref(r) == in_last_parentheses(text@),
{
    let cs = chars_of(text);
    match find_last_in(&cs, CharClass::Only(')'), cs.len()) {
        Some(end) => match find_last_in(&cs, CharClass::Only('('), end) {
            Some(start) => Some(trim(text.substring_char(start + 1, end))),
            None => None,
        },
        None => None,
    }
}

/// An endpoint without the space around it, and a mapped IPv4 address as a plain one.
pub fn normalize_observed_endpoint(endpoint: String) -> (r: String)
    ensures
        r@ == plain_endpoint(endpoint@),
{
    let endpoint = trim(endpoint.as_str());
    if let Some(rest) = without_prefix(endpoint, "[::ffff:") {
        let cs = chars_of(rest);
        let close = chars_of("]:");
        if let Some(i) = find_pattern(&cs, &close) {
            return concat3(
                rest.substring_char(0, i),
                ":",
                rest.substring_char(i + close.len(), cs.len()),
            );
        }
    }
    endpoint.to_owned()
}

/// Splits a clause into its transport and the rest.
fn split_clause(text: &str) -> (r: (Option<String>, &str))
    ensures
        text::text_of(r.0) == clause_parts(text@).0,
        r.1@ == clause_parts(text@).1,
{
    let cs = chars_of(text);
    let space = find_in(&cs, CharClass::Space);
    if space < cs.len() {
        let prefix = text.substring_char(0, space);
        if is_transport_name(prefix) {
            (Some(trim(prefix).to_owned()), trim(text.substring_char(space, cs.len())))
        } else {
            (None, text)
        }
    } else {
        let colon = find_in(&cs, CharClass::Only(':'));
        if colon < cs.len() {
            let prefix = text.substring_char(0, colon);
            if is_transport_name(prefix) {
                let suffix = text.substring_char(colon + 1, cs.len());
                (
                    Some(trim(prefix).to_owned()),
                    trim(trim_leading(suffix, CharClass::Only(':'))),
                )
            } else {
                (None, text)
            }
        } else {
            (None, text)
        }
    }
}

/// The transport and the endpoint of one clause.
pub fn parse_transport_clause(text: &str) -> (r: (Option<String>, Option<String>))
    ensures
        transport_view(r) == transport_clause(text@),
{
    let text = strip(strip(trim(text), CharClass::Only('{')), CharClass::Only('}'));
    if text.is_empty() || same_ignoring_case(text, "<Local>") {
        return (None, None);
    }
    let (transport, rest) = split_clause(text);
    let server = extract_transport_value(rest, "Server=");
    let port = extract_transport_value(rest, "Port=");
    let pipe = extract_transport_value(rest, "Pipe=");
    let endpoint = match (server, port, pipe) {
        (Some(server), Some(port), _) => Some(concat3(server.as_str(), ":", port.as_str())),
        (_, Some(port), _) => Some(port),
        (_, _, Some(pipe)) => Some(pipe),
        _ => if !rest.is_empty() && !contains_any(rest, CharClass::Only('=')) {
            Some(rest.to_owned())
        } else {
            None
        },
    };
    let endpoint = match endpoint {
        Some(endpoint) => Some(normalize_observed_endpoint(endpoint)),
        None => None,
    };
    (transport, endpoint)
}

/// Whether `text` is a clause that starts with a transport.
pub fn looks_like_transport_clause(text: &str) -> (r: bool)
    ensures
        r == is_transport_clause(text@),
{
    let text = trim(text);
    let cs = chars_of(text);
    let colon = find_in(&cs, CharClass::Only(':'));
    if colon < cs.len() {
        return is_transport_name(text.substring_char(0, colon));
    }
    let space = find_in(&cs, CharClass::Space);
    if space < cs.len() {
        return is_transport_name(text.substring_char(0, space));
    }
    false
}

/// The transport and the endpoint of a server description.
pub fn parse_debug_transport(summary: &str) -> (r: (Option<String>, Option<String>))
    ensures
        transport_view(r) == debug_transport(summary@),
{
    if let Some(value) = extract_after(summary, "Trans=@{") {
        return parse_transport_clause(take_before(value, CharClass::Only('}')));
    }
    if let Some(clause) = extract_parenthesized_transport(summary) {
        return parse_transport_clause(clause);
    }
    if looks_like_transport_clause(summary) {
        return parse_transport_clause(summary);
    }
    (None, None)
}

/// A transport that is found is one that the debugger knows, without space around it.
pub proof fn a_found_transport_is_known(summary: Seq<char>)
    ensures
        debug_transport(summary).0 is Some ==> names_transport(debug_transport(summary).0->0)
            && text::trimmed(debug_transport(summary).0->0) == debug_transport(summary).0->0,
{
    if after_marker(summary, "Trans=@{"@) is Some {
        lemma_clause_transport(
            text::before_first(after_marker(summary, "Trans=@{"@)->0, CharClass::Only('}')),
        );
    } else if in_last_parentheses(summary) is Some {
        lemma_clause_transport(in_last_parentheses(summary)->0);
    } else {
        lemma_clause_transport(summary);
    }
}

proof fn lemma_clause_transport(clause: Seq<char>)
    ensures
        transport_clause(clause).0 is Some ==> names_transport(transport_clause(clause).0->0)
            && text::trimmed(transport_clause(clause).0->0) == transport_clause(clause).0->0,
{
    let t = bare_clause(clause);
    let space = text::first_in(t, CharClass::Space, 0);
    let colon = text::first_in(t, CharClass::Only(':'), 0);
    text::stripping_twice_changes_nothing(t.take(space), CharClass::Space);
    text::stripping_twice_changes_nothing(t.take(colon), CharClass::Space);
}

/// An IPv4 address that is mapped into IPv6 is told as the plain address, with its port.
pub proof fn a_mapped_address_is_told_plain(address: Seq<char>, port: Seq<char>)
    requires
        !text::has_any(address, CharClass::Only(']')),
        port.len() > 0,
        !text::is_space(port.last()),
    ensures
        plain_endpoint("[::ffff:"@ + address + "]:"@ + port) == address + ":"@ + port,
{
    reveal_strlit("[::ffff:");
    reveal_strlit("]:");
    let prefix = "[::ffff:"@;
    let mark = "]:"@;
    let endpoint = prefix + address + mark + port;
    assert(endpoint[0] == '[');
    assert(endpoint.last() == port.last());
    assert(!text::is_space('['));
    text::lemma_stripped_stays(endpoint, CharClass::Space);
    assert(text::trimmed(endpoint) == endpoint);
    assert(endpoint.subrange(0, prefix.len() as int) =~= prefix);
    let rest = endpoint.skip(prefix.len() as int);
    assert(rest =~= address + mark + port);
    let at = address.len() as int;
    assert(rest.subrange(at, at + mark.len()) =~= mark);
    assert forall|i: int| 0 <= i < at implies (#[trigger] rest[i]) != ']' by {
        assert(!CharClass::Only(']').has(address[i]));
    }
    lemma_first_mark(rest, at, 0);
    assert(rest.take(at) =~= address);
    assert(rest.skip(at + mark.len()) =~= port);
}

proof fn lemma_first_mark(rest: Seq<char>, at: int, from: int)
    requires
        0 <= from <= at,
        text::occurs_at(rest, "]:"@, at),
        forall|i: int| 0 <= i < at ==> (#[trigger] rest[i]) != ']',
    ensures
        text::first_match(rest, "]:"@, from) == Some(at),
    decreases at - from,
{
    reveal_strlit("]:");
    if from < at {
        assert(rest.subrange(from, from + 2)[0] == rest[from]);
        lemma_first_mark(rest, at, from + 1);
    }
}

} // verus!
