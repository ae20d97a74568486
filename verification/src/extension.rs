//! The `!mcp` command of the debugger: what a user asks for, and what they are told.

use vstd::prelude::*;

use crate::dbgeng::{DEBUG_OUTPUT_ERROR, DEBUG_OUTPUT_NORMAL};
use crate::output;
use crate::plugin_server;
use crate::plugin_server::{PluginServerStatus, StatusView};
use crate::text;
use crate::text::{concat3, same_ignoring_case, trim, without_prefix, CharClass};

verus! {

pub const EXTENSION_MAJOR: u32 = 0;

pub const EXTENSION_MINOR: u32 = 1;

/// How many topics of the catalog a user is shown at most.
pub const CATALOG_LIMIT: usize = 25;

pub const HELP_TEXT: &'static str =
    "windbg-mcp commands:\n\n  !mcp help\n      Show this help text.\n\n  !mcp serve [host:port]\n      Start the MCP Streamable HTTP server inside the WinDbg plugin. Default bind tries 127.0.0.1:50051 through 127.0.0.1:50070, endpoint: /mcp\n\n  !mcp status\n      Show whether the in-process MCP server is running.\n\n  !mcp stop\n      Stop the in-process MCP server.\n\n  !mcp catalog [query]\n      List catalog entries or search the extracted debugger command catalog.\n\n  !mcp doc <token-or-id>\n      Show the static documentation for one extracted command topic.";

/// The version of the extension, its major number in the upper half.
pub fn extension_version() -> (r: u32)
    ensures
        r == EXTENSION_MAJOR * 0x1_0000 + EXTENSION_MINOR,
        r == 1,
{
    let version: u32 = (EXTENSION_MAJOR << 16) | EXTENSION_MINOR;
    assert((0u32 << 16) | 1 == 1) by (bit_vector);
    version
}

/// What a user asks for.
pub enum McpCommand {
    Help,
    Doc(String),
    Catalog(String),
    Serve(Option<String>),
    Status,
    Stop,
    Unknown(String),
}

/// What a [`McpCommand`] holds.
pub enum McpCommandView {
    Help,
    Doc(Seq<char>),
    Catalog(Seq<char>),
    Serve(Option<Seq<char>>),
    Status,
    Stop,
    Unknown(Seq<char>),
}

impl View for McpCommand {
    type V = McpCommandView;

    open spec fn view(&self) -> McpCommandView {
        match *self {
            McpCommand::Help => McpCommandView::Help,
            McpCommand::Doc(query) => McpCommandView::Doc(query@),
            McpCommand::Catalog(query) => McpCommandView::Catalog(query@),
            McpCommand::Serve(address) => McpCommandView::Serve(text::text_of(address)),
            McpCommand::Status => McpCommandView::Status,
            McpCommand::Stop => McpCommandView::Stop,
            McpCommand::Unknown(command) => McpCommandView::Unknown(command@),
        }
    }
}

/// What follows a word at the start of a command, without the space around it.
pub open spec fn argument(command: Seq<char>, word: Seq<char>) -> Seq<char> {
    text::trimmed(command.skip(word.len() as int))
}

/// What a user asks for with the text behind `!mcp`. The words `help`, `status` and `stop`
/// stand alone, in any case; the others stand at the start.
pub open spec fn command_of(args: Seq<char>) -> McpCommandView {
    let command = text::trimmed(args);
    if command.len() == 0 || text::equal_ignoring_case(command, "help"@) {
        McpCommandView::Help
    } else if text::starts_with(command, "doc "@) {
        McpCommandView::Doc(argument(command, "doc "@))
    } else if text::starts_with(command, "catalog"@) {
        McpCommandView::Catalog(argument(command, "catalog"@))
    } else if text::starts_with(command, "serve"@) {
        let address = argument(command, "serve"@);
        McpCommandView::Serve(
            if address.len() == 0 {
                None
            } else {
                Some(address)
            },
        )
    } else if text::equal_ignoring_case(command, "status"@) {
        McpCommandView::Status
    } else if text::equal_ignoring_case(command, "stop"@) {
        McpCommandView::Stop
    } else {
        McpCommandView::Unknown(command)
    }
}

/// What a user asks for with the text behind `!mcp`.
pub fn parse_mcp_command(args: &str) -> (r: McpCommand)
    ensures
        r@ == command_of(args@),
{
    let command = trim(args);
    if command.is_empty() || same_ignoring_case(command, "help") {
        return McpCommand::Help;
    }
    if let Some(rest) = without_prefix(command, "doc ") {
        return McpCommand::Doc(trim(rest).to_owned());
    }
    if let Some(rest) = without_prefix(command, "catalog") {
        return McpCommand::Catalog(trim(rest).to_owned());
    }
    if let Some(rest) = without_prefix(command, "serve") {
        let address = trim(rest);
        if address.is_empty() {
            return McpCommand::Serve(None);
        }
        return McpCommand::Serve(Some(address.to_owned()));
    }
    if same_ignoring_case(command, "status") {
        return McpCommand::Status;
    }
    if same_ignoring_case(command, "stop") {
        return McpCommand::Stop;
    }
    McpCommand::Unknown(command.to_owned())
}

/// What a user is told, and the kind of output that it is.
pub struct Reply {
    pub text: String,
    pub mask: u32,
}

/// What a [`Reply`] holds.
pub struct ReplyView {
    pub text: Seq<char>,
    pub mask: u32,
}

impl View for Reply {
    type V = ReplyView;

    open spec fn view(&self) -> ReplyView {
        ReplyView { text: self.text@, mask: self.mask }
    }
}

pub open spec fn normal(text: Seq<char>) -> ReplyView {
    ReplyView { text, mask: DEBUG_OUTPUT_NORMAL }
}

pub open spec fn error(text: Seq<char>) -> ReplyView {
    ReplyView { text, mask: DEBUG_OUTPUT_ERROR }
}

/// A reply, or the error with which the command fails.
pub open spec fn reply_of(r: Result<Reply, String>) -> Result<ReplyView, Seq<char>> {
    match r {
        Ok(reply) => Ok(reply@),
        Err(error) => Err(error@),
    }
}

/// What is told of a server that runs.
pub open spec fn status_text(status: StatusView) -> Seq<char> {
    let running = "WinDbg MCP server is running at "@ + status.mcp_url + "\n"@;
    match status.registry_path {
        Some(path) => running + "Instance registry: "@ + path + "\n"@,
        None => running,
    }
}

/// What is told of a server that runs.
pub fn format_status(status: &PluginServerStatus) -> (r: String)
    ensures
        r@ == status_text(status@),
{
    let running = concat3("WinDbg MCP server is running at ", &status.mcp_url, "\n");
    match &status.registry_path {
        Some(path) => running.concat("Instance registry: ").concat(path).concat("\n"),
        None => running,
    }
}

/// The reply to `!mcp help`.
pub fn help_text() -> (r: Reply)
    ensures
        r@ == normal(HELP_TEXT@),
{
    Reply { text: HELP_TEXT.to_owned(), mask: DEBUG_OUTPUT_NORMAL }
}

/// The reply to a command that is none.
pub fn command_unknown(command: &str) -> (r: Reply)
    ensures
        r@ == error(
            "Unknown !mcp subcommand `"@ + command@
                + "`. Run `!mcp help` to list supported commands.\n"@,
        ),
{
    Reply {
        text: concat3(
            "Unknown !mcp subcommand `",
            command,
            "`. Run `!mcp help` to list supported commands.\n",
        ),
        mask: DEBUG_OUTPUT_ERROR,
    }
}

/// The reply to `!mcp serve`, from what the start gave.
pub fn command_serve(started: Result<PluginServerStatus, String>) -> (r: Reply)
    ensures
        r@ == (match plugin_server::status_outcome(started) {
            Ok(status) => normal(status_text(status)),
            Err(reason) => error("Failed to start WinDbg MCP server: "@ + reason + "\n"@),
        }),
        r.mask == 1 <==> started is Ok,
        r.mask == 2 <==> started is Err,
{
    match started {
        Ok(status) => Reply { text: format_status(&status), mask: DEBUG_OUTPUT_NORMAL },
        Err(reason) => Reply {
            text: concat3("Failed to start WinDbg MCP server: ", &reason, "\n"),
            mask: DEBUG_OUTPUT_ERROR,
        },
    }
}

/// The reply to `!mcp status`, from what [`PluginServerControl::status`] gave.
///
/// [`PluginServerControl::status`]: crate::plugin_server::PluginServerControl::status
pub fn command_status(status: Result<Option<PluginServerStatus>, String>) -> (r: Result<
    Reply,
    String,
>)
    ensures
        reply_of(r) == (match plugin_server::stop_outcome(status) {
            Ok(Some(status)) => Ok(normal(status_text(status))),
            Ok(None) => Ok(normal("WinDbg MCP server is not running.\n"@)),
            Err(reason) => Err(reason),
        }),
        r is Ok <==> status is Ok,
        r is Ok ==> r->Ok_0.mask == 1,
{
    match status {
        Ok(Some(status)) => Ok(
            Reply { text: format_status(&status), mask: DEBUG_OUTPUT_NORMAL },
        ),
        Ok(None) => Ok(
            Reply {
                text: "WinDbg MCP server is not running.\n".to_owned(),
                mask: DEBUG_OUTPUT_NORMAL,
            },
        ),
        Err(reason) => Err(reason),
    }
}

/// The reply to `!mcp stop`, from what the stop gave.
pub fn command_stop(stopped: Result<Option<PluginServerStatus>, String>) -> (r: Result<
    Reply,
    String,
>)
    ensures
        reply_of(r) == (match plugin_server::stop_outcome(stopped) {
            Ok(Some(status)) => Ok(
                normal("Stopped WinDbg MCP server at "@ + status.mcp_url + "\n"@),
            ),
            Ok(None) => Ok(normal("WinDbg MCP server was not running.\n"@)),
            Err(reason) => Err(reason),
        }),
        r is Ok <==> stopped is Ok,
        r is Ok ==> r->Ok_0.mask == 1,
{
    match stopped {
        Ok(Some(status)) => Ok(
            Reply {
                text: concat3("Stopped WinDbg MCP server at ", &status.mcp_url, "\n"),
                mask: DEBUG_OUTPUT_NORMAL,
            },
        ),
        Ok(None) => Ok(
            Reply {
                text: "WinDbg MCP server was not running.\n".to_owned(),
                mask: DEBUG_OUTPUT_NORMAL,
            },
        ),
        Err(reason) => Err(reason),
    }
}

/// A topic of the catalog of debugger commands.
pub struct CatalogEntry {
    pub id: String,
    pub title: String,
    pub tokens: Vec<String>,
    pub summary: String,
    pub documentation: String,
}

/// What a [`CatalogEntry`] holds.
pub struct EntryView {
    pub id: Seq<char>,
    pub title: Seq<char>,
    pub tokens: Seq<Seq<char>>,
    pub summary: Seq<char>,
    pub documentation: Seq<char>,
}

impl View for CatalogEntry {
    type V = EntryView;

    open spec fn view(&self) -> EntryView {
        EntryView {
            id: self.id@,
            title: self.title@,
            tokens: text::texts(self.tokens@),
            summary: self.summary@,
            documentation: self.documentation@,
        }
    }
}

/// The topics that a number of entries hold.
pub open spec fn entries(v: Seq<CatalogEntry>) -> Seq<EntryView> {
    v.map_values(|entry: CatalogEntry| entry@)
}

/// Texts in a row, with a separator between each two.
pub open spec fn joined(parts: Seq<Seq<char>>, separator: Seq<char>) -> Seq<char>
    decreases parts.len(),
{
    if parts.len() == 0 {
        Seq::empty()
    } else if parts.len() == 1 {
        parts[0]
    } else {
        joined(parts.drop_last(), separator) + separator + parts.last()
    }
}

/// `parts` in a row, with `separator` between each two.
pub fn join(parts: &Vec<String>, separator: &str) -> (r: String)
    ensures
        r@ == joined(text::texts(parts@), separator@),
{
    let mut r = String::new();
    let ghost all = text::texts(parts@);
    let mut i: usize = 0;
    assert(all.take(0) =~= Seq::empty());
    while i < parts.len()
        invariant
            i <= parts@.len(),
            all == text::texts(parts@),
            r@ == joined(all.take(i as int), separator@),
        decreases parts@.len() - i,
    {
        assert(all.take(i + 1).drop_last() =~= all.take(i as int));
        assert(all.take(i + 1).last() == parts@[i as int]@);
        if i > 0 {
            r = r.concat(separator);
        }
        let ghost before = r@;
        r = r.concat(parts[i].as_str());
        assert(i == 0 ==> before + parts@[i as int]@ =~= parts@[i as int]@);
        i = i + 1;
    }
    assert(all.take(i as int) =~= all);
    r
}

/// The topic that `!mcp doc` shows: the one that is looked up, or else the first that is
/// found.
pub open spec fn documented(looked_up: Option<EntryView>, found: Seq<EntryView>) -> Option<
    EntryView,
> {
    match looked_up {
        Some(entry) => Some(entry),
        None => if found.len() > 0 {
            Some(found[0])
        } else {
            None
        },
    }
}

pub open spec fn documentation_of(entry: EntryView) -> Seq<char> {
    entry.title + "\n\n"@ + "tokens: "@ + joined(entry.tokens, ", "@) + "\n"@ + "id: "@ + entry.id
        + "\n\n"@ + entry.documentation
}

fn entry_documentation(entry: &CatalogEntry) -> (r: Reply)
    ensures
        r@ == normal(documentation_of(entry@)),
{
    let tokens = join(&entry.tokens, ", ");
    Reply {
        text: concat3(&entry.title, "\n\n", "tokens: ").concat(&tokens).concat("\n").concat(
            "id: ",
        ).concat(&entry.id).concat("\n\n").concat(&entry.documentation),
        mask: DEBUG_OUTPUT_NORMAL,
    }
}

/// The reply to `!mcp doc`, from the topic that has the name that was asked for, if one has
/// it, and those that a search found.
pub fn command_doc(query: &str, looked_up: Option<CatalogEntry>, found: Vec<CatalogEntry>) -> (r:
    Reply)
    ensures
        r@ == (match documented(
            match looked_up {
                Some(entry) => Some(entry@),
                None => None,
            },
            entries(found@),
        ) {
            Some(entry) => normal(documentation_of(entry)),
            None => error("No catalog entry matched `"@ + query@ + "`.\n"@),
        }),
        r.mask == 2 <==> looked_up is None && found@.len() == 0,
{
    if let Some(entry) = &looked_up {
        return entry_documentation(entry);
    }
    if found.len() > 0 {
        return entry_documentation(&found[0]);
    }
    Reply {
        text: concat3("No catalog entry matched `", query, "`.\n"),
        mask: DEBUG_OUTPUT_ERROR,
    }
}

/// What is told of one topic in a list.
pub open spec fn listed(entry: EntryView) -> Seq<char> {
    "- "@ + entry.title + " | id="@ + entry.id + " | tokens="@ + joined(entry.tokens, ", "@)
        + "\n  "@ + entry.summary + "\n\n"@
}

/// What is told of a number of topics.
pub open spec fn list_of(found: Seq<EntryView>) -> Seq<char>
    decreases found.len(),
{
    if found.len() == 0 {
        Seq::empty()
    } else {
        list_of(found.drop_last()) + listed(found.last())
    }
}

pub open spec fn list_heading(query: Seq<char>) -> Seq<char> {
    if query.len() == 0 {
        "First 25 extracted debugger command topics:\n\n"@
    } else {
        "Catalog matches for `"@ + query + "`:\n\n"@
    }
}

/// The reply to `!mcp catalog`, from the topics that a search found.
pub fn command_catalog(query: &str, found: &Vec<CatalogEntry>) -> (r: Reply)
    ensures
        r@ == normal(list_heading(query@) + list_of(entries(found@))),
{
    let heading = if query.is_empty() {
        "First 25 extracted debugger command topics:\n\n".to_owned()
    } else {
        concat3("Catalog matches for `", query, "`:\n\n")
    };
    let mut list = String::new();
    let ghost all = entries(found@);
    let mut i: usize = 0;
    assert(all.take(0) =~= Seq::empty());
    while i < found.len()
        invariant
            i <= found@.len(),
            all == entries(found@),
            list@ == list_of(all.take(i as int)),
        decreases found@.len() - i,
    {
        let entry = &found[i];
        assert(all.take(i + 1).drop_last() =~= all.take(i as int));
        assert(all.take(i + 1).last() == entry@);
        let tokens = join(&entry.tokens, ", ");
        let item = concat3("- ", &entry.title, " | id=").concat(&entry.id).concat(
            " | tokens=",
        ).concat(&tokens).concat("\n  ").concat(&entry.summary).concat("\n\n");
        list = list.concat(&item);
        i = i + 1;
    }
    assert(all.take(i as int) =~= all);
    Reply { text: heading.concat(&list), mask: DEBUG_OUTPUT_NORMAL }
}

/// The space around a command does not matter.
pub proof fn space_around_a_command_does_not_matter(args: Seq<char>)
    ensures
        command_of(text::trimmed(args)) == command_of(args),
{
    text::stripping_twice_changes_nothing(args, CharClass::Space);
}

pub open spec fn all_space(s: Seq<char>) -> bool {
    forall|i: int| 0 <= i < s.len() ==> text::is_space(#[trigger] s[i])
}

/// A text with no space at its ends.
pub open spec fn is_trim(s: Seq<char>) -> bool {
    s.len() > 0 ==> !text::is_space(s[0]) && !text::is_space(s.last())
}

proof fn lemma_trimmed(before: Seq<char>, core: Seq<char>, after: Seq<char>)
    requires
        all_space(before),
        all_space(after),
        is_trim(core),
    ensures
        text::trimmed(before + core + after) == core,
        text::trimmed(before + core) == core,
        text::trimmed(core) == core,
{
    let k = CharClass::Space;
    assert forall|i: int| 0 <= i < before.len() implies k.has(#[trigger] before[i]) by {
        assert(text::is_space(before[i]));
    }
    assert forall|i: int| 0 <= i < after.len() implies k.has(#[trigger] after[i]) by {
        assert(text::is_space(after[i]));
    }
    text::stripping_takes_off_what_stands_around(before, core, after, k);
    text::stripping_takes_off_what_stands_around(before, core, Seq::empty(), k);
    text::stripping_takes_off_what_stands_around(Seq::empty(), core, Seq::empty(), k);
    assert(before + core + Seq::empty() =~= before + core);
    assert(Seq::empty() + core + Seq::empty() =~= core);
}

/// A text that starts with another has its first characters.
proof fn lemma_starts(s: Seq<char>, pat: Seq<char>, i: int)
    requires
        text::starts_with(s, pat),
        0 <= i < pat.len(),
    ensures
        s[i] == pat[i],
        s.len() >= pat.len(),
{
    assert(s.subrange(0, pat.len() as int)[i] == s[i]);
}

proof fn lemma_same_letters(a: Seq<char>, b: Seq<char>, i: int)
    requires
        text::equal_ignoring_case(a, b),
        0 <= i < b.len(),
    ensures
        a.len() == b.len(),
        text::lower(a[i]) == text::lower(b[i]),
{
    assert(text::lower_all(a).len() == text::lower_all(b).len());
    assert(text::lower_all(a)[i] == text::lower_all(b)[i]);
}

proof fn lemma_words()
    ensures
        "help"@ == seq!['h', 'e', 'l', 'p'],
        "doc "@ == seq!['d', 'o', 'c', ' '],
        "catalog"@ == seq!['c', 'a', 't', 'a', 'l', 'o', 'g'],
        "serve"@ == seq!['s', 'e', 'r', 'v', 'e'],
        "status"@ == seq!['s', 't', 'a', 't', 'u', 's'],
        "stop"@ == seq!['s', 't', 'o', 'p'],
        "doc"@ == seq!['d', 'o', 'c'],
{
    reveal_strlit("help");
    reveal_strlit("doc ");
    reveal_strlit("catalog");
    reveal_strlit("serve");
    reveal_strlit("status");
    reveal_strlit("stop");
    reveal_strlit("doc");
    assert("help"@ =~= seq!['h', 'e', 'l', 'p']);
    assert("doc "@ =~= seq!['d', 'o', 'c', ' ']);
    assert("catalog"@ =~= seq!['c', 'a', 't', 'a', 'l', 'o', 'g']);
    assert("serve"@ =~= seq!['s', 'e', 'r', 'v', 'e']);
    assert("status"@ =~= seq!['s', 't', 'a', 't', 'u', 's']);
    assert("stop"@ =~= seq!['s', 't', 'o', 'p']);
    assert("doc"@ =~= seq!['d', 'o', 'c']);
}

/// The commands that take an argument get all of it, without the space around it, whatever
/// space stands around the command; `serve` without one has no address, and `catalog` without
/// one an empty query.
pub proof fn a_command_gets_its_argument(
    before: Seq<char>,
    between: Seq<char>,
    given: Seq<char>,
    after: Seq<char>,
)
    requires
        all_space(before),
        all_space(between),
        all_space(after),
        is_trim(given),
    ensures
        given.len() > 0 ==> {
            &&& command_of(before + ("doc "@ + between + given) + after) == McpCommandView::Doc(
                given,
            )
            &&& command_of(before + ("catalog"@ + between + given) + after)
                == McpCommandView::Catalog(given)
            &&& command_of(before + ("serve"@ + between + given) + after)
                == McpCommandView::Serve(Some(given))
        },
        command_of(before + "catalog"@ + after) == McpCommandView::Catalog(Seq::empty()),
        command_of(before + "serve"@ + after) == McpCommandView::Serve(None),
{
    lemma_words();
    if given.len() > 0 {
        lemma_word_and_argument(before, "doc "@, between, given, after);
        lemma_word_and_argument(before, "catalog"@, between, given, after);
        lemma_word_and_argument(before, "serve"@, between, given, after);
    }
    lemma_word_alone(before, "catalog"@, after);
    lemma_word_alone(before, "serve"@, after);
}

proof fn lemma_word_and_argument(
    before: Seq<char>,
    word: Seq<char>,
    between: Seq<char>,
    given: Seq<char>,
    after: Seq<char>,
)
    requires
        all_space(before),
        all_space(between),
        all_space(after),
        is_trim(given),
        given.len() > 0,
        word == "doc "@ || word == "catalog"@ || word == "serve"@,
    ensures
        ({
            let read = command_of(before + (word + between + given) + after);
            &&& word == "doc "@ ==> read == McpCommandView::Doc(given)
            &&& word == "catalog"@ ==> read == McpCommandView::Catalog(given)
            &&& word == "serve"@ ==> read == McpCommandView::Serve(Some(given))
        }),
{
    lemma_words();
    let command = word + between + given;
    assert(command[0] == word[0]);
    assert(command.last() == given.last());
    lemma_trimmed(before, command, after);
    assert(command.subrange(0, word.len() as int) =~= word);
    assert(command.skip(word.len() as int) =~= between + given);
    lemma_trimmed(between, given, Seq::empty());
    if text::equal_ignoring_case(command, "help"@) {
        lemma_same_letters(command, "help"@, 0);
    }
    if text::starts_with(command, "doc "@) {
        lemma_starts(command, "doc "@, 0);
    }
    if text::starts_with(command, "catalog"@) {
        lemma_starts(command, "catalog"@, 0);
    }
}

proof fn lemma_word_alone(before: Seq<char>, word: Seq<char>, after: Seq<char>)
    requires
        all_space(before),
        all_space(after),
        word == "catalog"@ || word == "serve"@,
    ensures
        ({
            let read = command_of(before + word + after);
            &&& word == "catalog"@ ==> read == McpCommandView::Catalog(Seq::empty())
            &&& word == "serve"@ ==> read == McpCommandView::Serve(None)
        }),
{
    lemma_words();
    lemma_trimmed(before, word, after);
    assert(word.subrange(0, word.len() as int) =~= word);
    assert(word.skip(word.len() as int) =~= Seq::empty());
    lemma_trimmed(Seq::empty(), Seq::empty(), Seq::empty());
    if text::equal_ignoring_case(word, "help"@) {
        lemma_same_letters(word, "help"@, 0);
    }
    if text::starts_with(word, "doc "@) {
        lemma_starts(word, "doc "@, 0);
    }
    if text::starts_with(word, "catalog"@) {
        lemma_starts(word, "catalog"@, 0);
    }
}

/// A word in any mixture of upper and lower case.
pub open spec fn in_any_case(s: Seq<char>, lower: Seq<char>, upper: Seq<char>) -> bool {
    &&& s.len() == lower.len() == upper.len()
    &&& forall|i: int| 0 <= i < s.len() ==> #[trigger] s[i] == lower[i] || s[i] == upper[i]
}

/// The words that stand alone are known in any case, with any space around them; nothing at
/// all asks for help.
pub proof fn a_word_alone_is_known_in_any_case(before: Seq<char>, word: Seq<char>, after: Seq<char>)
    requires
        all_space(before),
        all_space(after),
    ensures
        in_any_case(word, "help"@, "HELP"@) ==> command_of(before + word + after)
            == McpCommandView::Help,
        in_any_case(word, "status"@, "STATUS"@) ==> command_of(before + word + after)
            == McpCommandView::Status,
        in_any_case(word, "stop"@, "STOP"@) ==> command_of(before + word + after)
            == McpCommandView::Stop,
        command_of(before) == McpCommandView::Help,
{
    lemma_words();
    reveal_strlit("HELP");
    reveal_strlit("STATUS");
    reveal_strlit("STOP");
    assert("HELP"@ =~= seq!['H', 'E', 'L', 'P']);
    assert("STATUS"@ =~= seq!['S', 'T', 'A', 'T', 'U', 'S']);
    assert("STOP"@ =~= seq!['S', 'T', 'O', 'P']);
    lemma_trimmed(before, Seq::empty(), Seq::empty());
    assert(before + Seq::empty() =~= before);
    if in_any_case(word, "help"@, "HELP"@) {
        lemma_any_case(word, "help"@, "HELP"@);
        lemma_trimmed(before, word, after);
    }
    if in_any_case(word, "status"@, "STATUS"@) {
        lemma_any_case(word, "status"@, "STATUS"@);
        lemma_trimmed(before, word, after);
        lemma_no_word_at_the_start(word);
    }
    if in_any_case(word, "stop"@, "STOP"@) {
        lemma_any_case(word, "stop"@, "STOP"@);
        lemma_trimmed(before, word, after);
        lemma_no_word_at_the_start(word);
        if text::equal_ignoring_case(word, "status"@) {
            lemma_same_letters(word, "status"@, 0);
        }
    }
}

proof fn lemma_any_case(s: Seq<char>, lower: Seq<char>, upper: Seq<char>)
    requires
        in_any_case(s, lower, upper),
        s.len() > 0,
        forall|i: int|
            0 <= i < lower.len() ==> 'a' <= #[trigger] lower[i] <= 'z' && upper[i] as u32
                == lower[i] as u32 - 32,
    ensures
        text::equal_ignoring_case(s, lower),
        is_trim(s),
{
    assert forall|i: int| 0 <= i < s.len() implies text::lower_all(s)[i] == text::lower_all(
        lower,
    )[i] by {
        assert(s[i] == lower[i] || s[i] == upper[i]);
        assert('a' <= lower[i] <= 'z');
        text::only_the_case_of_letters_is_ignored(s[i], lower[i]);
    }
    assert(text::lower_all(s) =~= text::lower_all(lower));
    assert(s[0] == lower[0] || s[0] == upper[0]);
    assert(s.last() == lower.last() || s.last() == upper.last());
    assert('a' <= lower[0] <= 'z');
    assert('a' <= lower[lower.len() - 1] <= 'z');
}

/// What starts with `st`, in any case, is none of the commands that take an argument.
proof fn lemma_no_word_at_the_start(s: Seq<char>)
    requires
        s.len() >= 2,
        text::lower(s[0]) == 's',
        text::lower(s[1]) == 't',
    ensures
        !text::equal_ignoring_case(s, "help"@),
        !text::starts_with(s, "doc "@),
        !text::starts_with(s, "catalog"@),
        !text::starts_with(s, "serve"@),
{
    lemma_words();
    if text::equal_ignoring_case(s, "help"@) {
        lemma_same_letters(s, "help"@, 0);
    }
    if text::starts_with(s, "doc "@) {
        lemma_starts(s, "doc "@, 0);
    }
    if text::starts_with(s, "catalog"@) {
        lemma_starts(s, "catalog"@, 0);
    }
    if text::starts_with(s, "serve"@) {
        lemma_starts(s, "serve"@, 1);
    }
}

/// What starts as no command does is no command, and is told as it stands: it begins with
/// another letter, or with `doc` and something other than a blank.
pub proof fn other_commands_are_unknown(before: Seq<char>, command: Seq<char>, after: Seq<char>)
    requires
        all_space(before),
        all_space(after),
        is_trim(command),
        command.len() > 0,
        ({
            let c = command[0];
            c != 'c' && c != 'd' && c != 'h' && c != 'H' && c != 's' && c != 'S'
        }) || (text::starts_with(command, "doc"@) && (command.len() == 3 || command[3] != ' ')),
    ensures
        command_of(before + command + after) == McpCommandView::Unknown(command),
{
    lemma_words();
    lemma_trimmed(before, command, after);
    if text::starts_with(command, "doc"@) {
        lemma_starts(command, "doc"@, 0);
    }
    if text::equal_ignoring_case(command, "help"@) {
        lemma_same_letters(command, "help"@, 0);
        text::only_the_case_of_letters_is_ignored(command[0], 'h');
    }
    if text::equal_ignoring_case(command, "status"@) {
        lemma_same_letters(command, "status"@, 0);
        text::only_the_case_of_letters_is_ignored(command[0], 's');
    }
    if text::equal_ignoring_case(command, "stop"@) {
        lemma_same_letters(command, "stop"@, 0);
        text::only_the_case_of_letters_is_ignored(command[0], 's');
    }
    if text::starts_with(command, "doc "@) {
        lemma_starts(command, "doc "@, 0);
        lemma_starts(command, "doc "@, 3);
    }
    if text::starts_with(command, "catalog"@) {
        lemma_starts(command, "catalog"@, 0);
    }
    if text::starts_with(command, "serve"@) {
        lemma_starts(command, "serve"@, 0);
    }
}

/// A row of texts is made of its parts: between two rows that are put together stands one more
/// separator, and a text alone has none.
pub proof fn a_separator_stands_between_each_two(
    one: Seq<Seq<char>>,
    other: Seq<Seq<char>>,
    part: Seq<char>,
    separator: Seq<char>,
)
    ensures
        joined(Seq::empty(), separator) == Seq::<char>::empty(),
        joined(seq![part], separator) == part,
        one.len() > 0 && other.len() > 0 ==> joined(one + other, separator) == joined(
            one,
            separator,
        ) + separator + joined(other, separator),
    decreases other.len(),
{
    if one.len() > 0 && other.len() > 0 {
        assert((one + other).drop_last() =~= one + other.drop_last());
        if other.len() == 1 {
            assert(one + other.drop_last() =~= one);
        } else {
            a_separator_stands_between_each_two(one, other.drop_last(), part, separator);
            assert(joined(one + other, separator) =~= joined(one, separator) + separator + joined(
                other,
                separator,
            ));
        }
    }
}

/// A list tells of each topic in its order, and of nothing else: of a topic by its title, its
/// id, its tokens and, below them, its summary.
pub proof fn a_list_tells_of_each_topic(
    one: Seq<EntryView>,
    other: Seq<EntryView>,
    entry: EntryView,
    first: Seq<char>,
    second: Seq<char>,
)
    ensures
        list_of(one + other) == list_of(one) + list_of(other),
        list_of(Seq::empty()) == Seq::<char>::empty(),
        entry.tokens == seq![first, second] ==> list_of(seq![entry]) == "- "@ + entry.title
            + " | id="@ + entry.id + " | tokens="@ + first + ", "@ + second + "\n  "@
            + entry.summary + "\n\n"@,
    decreases other.len(),
{
    if other.len() == 0 {
        assert(one + other =~= one);
        assert(list_of(one) + list_of(other) =~= list_of(one));
    } else {
        a_list_tells_of_each_topic(one, other.drop_last(), entry, first, second);
        assert((one + other).drop_last() =~= one + other.drop_last());
        assert(list_of(one + other) =~= list_of(one) + list_of(other));
    }
    if entry.tokens == seq![first, second] {
        lemma_two_tokens(first, second);
        let alone = seq![entry];
        assert(alone.drop_last() =~= Seq::empty());
        assert(list_of(alone.drop_last()) =~= Seq::empty());
        assert(list_of(alone) == list_of(alone.drop_last()) + listed(alone.last()));
        assert(list_of(alone) =~= listed(entry));
        assert(listed(entry) =~= "- "@ + entry.title + " | id="@ + entry.id + " | tokens="@ + first
            + ", "@ + second + "\n  "@ + entry.summary + "\n\n"@);
    }
}

proof fn lemma_two_tokens(first: Seq<char>, second: Seq<char>)
    ensures
        joined(seq![first, second], ", "@) == first + ", "@ + second,
{
    let both = seq![first, second];
    assert(both.drop_last() =~= seq![first]);
    reveal_with_fuel(joined, 2);
    assert(joined(both, ", "@) == joined(both.drop_last(), ", "@) + ", "@ + both.last());
}

/// A topic is shown by its title, its tokens, its id and its documentation, in that order.
pub proof fn a_topic_is_shown_whole(entry: EntryView, first: Seq<char>, second: Seq<char>)
    requires
        entry.tokens == seq![first, second],
    ensures
        documentation_of(entry) == entry.title + "\n\ntokens: "@ + first + ", "@ + second
            + "\nid: "@ + entry.id + "\n\n"@ + entry.documentation,
{
    lemma_two_tokens(first, second);
    reveal_strlit("\n\ntokens: ");
    reveal_strlit("\n\n");
    reveal_strlit("tokens: ");
    reveal_strlit("\nid: ");
    reveal_strlit("\n");
    reveal_strlit("id: ");
    assert("\n\ntokens: "@ =~= "\n\n"@ + "tokens: "@);
    assert("\nid: "@ =~= "\n"@ + "id: "@);
    assert(documentation_of(entry) =~= entry.title + ("\n\n"@ + "tokens: "@) + first + ", "@
        + second + ("\n"@ + "id: "@) + entry.id + "\n\n"@ + entry.documentation);
}

/// A topic that has the name comes before any that a search found, and of those the first is
/// shown; nothing is shown only where there is none.
pub proof fn the_topic_of_the_name_comes_first(entry: EntryView, found: Seq<EntryView>)
    ensures
        documented(Some(entry), found) == Some(entry),
        documented(None, seq![entry] + found) == Some(entry),
        documented(None, Seq::empty()) is None,
{
    assert((seq![entry] + found)[0] == entry);
}

/// A list is headed by what was asked for, or, where nothing was, by how many topics are shown.
pub proof fn a_list_is_headed_by_its_query(query: Seq<char>)
    ensures
        query.len() > 0 ==> list_heading(query) == "Catalog matches for `"@ + query + "`:\n\n"@,
        list_heading(Seq::empty()) == "First 25 extracted debugger command topics:\n\n"@,
        CATALOG_LIMIT == 25,
{
}

/// A status tells the URL on one line, and on a second the registry file where there is one.
pub proof fn a_status_is_told_by_lines(status: StatusView)
    requires
        !status.mcp_url.contains('\n'),
        status.mcp_url.len() > 0 ==> status.mcp_url.last() != '\r',
        status.registry_path is Some ==> !status.registry_path->0.contains('\n'),
        status.registry_path is Some && status.registry_path->0.len() > 0
            ==> status.registry_path->0.last() != '\r',
    ensures
        output::lines_of(status_text(status)) == (match status.registry_path {
            None => seq!["WinDbg MCP server is running at "@ + status.mcp_url],
            Some(path) => seq![
                "WinDbg MCP server is running at "@ + status.mcp_url,
                "Instance registry: "@ + path,
            ],
        }),
{
    reveal_strlit("WinDbg MCP server is running at ");
    reveal_strlit("Instance registry: ");
    reveal_strlit("\n");
    let ending = seq!['\n'];
    assert("\n"@ =~= ending);
    let running = "WinDbg MCP server is running at "@ + status.mcp_url;
    lemma_line("WinDbg MCP server is running at "@, status.mcp_url);
    reveal_with_fuel(output::ended, 3);
    match status.registry_path {
        None => {
            let lines = seq![running];
            output::lines_are_read_back(lines, Seq::empty(), ending);
            assert(lines.drop_first() =~= Seq::empty());
            assert(output::ended(lines, ending) + Seq::empty() =~= status_text(status));
        },
        Some(path) => {
            let registry = "Instance registry: "@ + path;
            lemma_line("Instance registry: "@, path);
            let lines = seq![running, registry];
            output::lines_are_read_back(lines, Seq::empty(), ending);
            assert(lines.drop_first() =~= seq![registry]);
            assert(seq![registry].drop_first() =~= Seq::empty());
            assert(output::ended(lines, ending) + Seq::empty() =~= status_text(status));
        },
    }
}

proof fn lemma_line(label: Seq<char>, value: Seq<char>)
    requires
        label.len() > 0,
        forall|i: int| 0 <= i < label.len() ==> #[trigger] label[i] != '\n',
        label.last() != '\r',
        !value.contains('\n'),
        value.len() > 0 ==> value.last() != '\r',
    ensures
        !(label + value).contains('\n'),
        (label + value).last() != '\r',
        (label + value).len() > 0,
{
    let line = label + value;
    assert forall|i: int| 0 <= i < line.len() implies line[i] != '\n' by {
        if i >= label.len() {
            assert(value.contains(value[i - label.len()]));
        } else {
            assert(label[i] != '\n');
        }
    }
}

/// A reply is ordinary output or an error, in the debugger's numbers, and holds its text.
pub proof fn a_reply_is_ordinary_or_an_error(text: Seq<char>)
    ensures
        normal(text).mask == 1,
        error(text).mask == 2,
        normal(text).text == text,
        error(text).text == text,
{
}

} // verus!
