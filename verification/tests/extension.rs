use windbg_mcp_rs::dbgeng::{
    DEBUG_NOTIFY_SESSION_ACCESSIBLE, DEBUG_NOTIFY_SESSION_ACTIVE,
    DEBUG_NOTIFY_SESSION_INACCESSIBLE, DEBUG_NOTIFY_SESSION_INACTIVE, DEBUG_OUTPUT_ERROR,
    DEBUG_OUTPUT_NORMAL,
};
use windbg_mcp_rs::extension::{
    command_catalog, command_doc, command_serve, command_status, command_stop, command_unknown,
    extension_version, format_status, help_text, join, parse_mcp_command, CatalogEntry,
    McpCommand,
};
use windbg_mcp_rs::notify::{
    failure_text, Failure, NotifyAction, NotifyOutcome, NotifySequence,
};
use windbg_mcp_rs::output::{escape_percent, output_of, text_lines};
use windbg_mcp_rs::plugin_server::PluginServerStatus;
use windbg_mcp_rs::session::SessionEvent;

fn status(path: Option<&str>) -> PluginServerStatus {
    PluginServerStatus {
        mcp_url: "http://127.0.0.1:50051/mcp".to_string(),
        registry_path: path.map(str::to_string),
    }
}

fn entry(id: &str) -> CatalogEntry {
    CatalogEntry {
        id: id.to_string(),
        title: format!("Title of {id}"),
        tokens: vec!["dt".to_string(), "ddt".to_string()],
        summary: "Shows types.".to_string(),
        documentation: "Long text.".to_string(),
    }
}

fn told(command: &str) -> &'static str {
    match parse_mcp_command(command) {
        McpCommand::Help => "help",
        McpCommand::Doc(_) => "doc",
        McpCommand::Catalog(_) => "catalog",
        McpCommand::Serve(_) => "serve",
        McpCommand::Status => "status",
        McpCommand::Stop => "stop",
        McpCommand::Unknown(_) => "unknown",
    }
}

#[test]
fn commands_are_told_apart() {
    assert_eq!(told(""), "help");
    assert_eq!(told(" \t "), "help");
    assert_eq!(told(" HELP "), "help");
    assert_eq!(told("status"), "status");
    assert_eq!(told("Status"), "status");
    assert_eq!(told("STOP\n"), "stop");
    assert_eq!(told("stop now"), "unknown");
    assert_eq!(told("doc"), "unknown");
    assert_eq!(told("DOC dt"), "unknown");
    match parse_mcp_command("doc   dt ") {
        McpCommand::Doc(query) => assert_eq!(query, "dt"),
        _ => panic!("doc"),
    }
    match parse_mcp_command("catalog") {
        McpCommand::Catalog(query) => assert_eq!(query, ""),
        _ => panic!("catalog"),
    }
    match parse_mcp_command("catalogs of") {
        McpCommand::Catalog(query) => assert_eq!(query, "s of"),
        _ => panic!("catalog"),
    }
    match parse_mcp_command(" serve  127.0.0.1:50051 ") {
        McpCommand::Serve(address) => assert_eq!(address.as_deref(), Some("127.0.0.1:50051")),
        _ => panic!("serve"),
    }
    match parse_mcp_command("serve") {
        McpCommand::Serve(address) => assert_eq!(address, None),
        _ => panic!("serve"),
    }
    match parse_mcp_command(" launch it ") {
        McpCommand::Unknown(command) => assert_eq!(command, "launch it"),
        _ => panic!("unknown"),
    }
}

#[test]
fn replies_say_what_happened() {
    assert_eq!(
        format_status(&status(None)),
        "WinDbg MCP server is running at http://127.0.0.1:50051/mcp\n"
    );
    assert_eq!(
        format_status(&status(Some("C:\\x.json"))),
        "WinDbg MCP server is running at http://127.0.0.1:50051/mcp\nInstance registry: C:\\x.json\n"
    );

    let reply = command_serve(Ok(status(None)));
    assert_eq!(reply.text, format_status(&status(None)));
    assert_eq!(reply.mask, DEBUG_OUTPUT_NORMAL);
    let reply = command_serve(Err("busy".to_string()));
    assert_eq!(reply.text, "Failed to start WinDbg MCP server: busy\n");
    assert_eq!(reply.mask, DEBUG_OUTPUT_ERROR);

    let reply = command_status(Ok(Some(status(None)))).ok().expect("reply");
    assert_eq!(reply.text, format_status(&status(None)));
    let reply = command_status(Ok(None)).ok().expect("reply");
    assert_eq!(reply.text, "WinDbg MCP server is not running.\n");
    assert_eq!(reply.mask, DEBUG_OUTPUT_NORMAL);
    assert_eq!(
        command_status(Err("poisoned".to_string())).err().as_deref(),
        Some("poisoned")
    );

    let reply = command_stop(Ok(Some(status(None)))).ok().expect("reply");
    assert_eq!(
        reply.text,
        "Stopped WinDbg MCP server at http://127.0.0.1:50051/mcp\n"
    );
    let reply = command_stop(Ok(None)).ok().expect("reply");
    assert_eq!(reply.text, "WinDbg MCP server was not running.\n");
    assert_eq!(
        command_stop(Err("busy".to_string())).err().as_deref(),
        Some("busy")
    );

    let reply = command_unknown("launch");
    assert_eq!(
        reply.text,
        "Unknown !mcp subcommand `launch`. Run `!mcp help` to list supported commands.\n"
    );
    assert_eq!(reply.mask, DEBUG_OUTPUT_ERROR);
}

#[test]
fn help_names_every_command() {
    let reply = help_text();
    assert_eq!(reply.mask, DEBUG_OUTPUT_NORMAL);
    for command in [
        "!mcp help",
        "!mcp serve [host:port]",
        "!mcp status",
        "!mcp stop",
        "!mcp catalog [query]",
        "!mcp doc <token-or-id>",
    ] {
        assert!(reply.text.contains(command));
    }
    assert!(reply.text.starts_with("windbg-mcp commands:\n\n"));
    assert!(reply
        .text
        .contains("127.0.0.1:50051 through 127.0.0.1:50070, endpoint: /mcp"));
}

#[test]
fn the_version_is_zero_one() {
    assert_eq!(extension_version(), 1);
}

#[test]
fn documentation_is_that_of_the_entry_looked_up_or_else_found() {
    let expected =
        "Title of a\n\ntokens: dt, ddt\nid: a\n\nLong text.";
    let reply = command_doc("q", Some(entry("a")), vec![entry("b")]);
    assert_eq!(reply.text, expected);
    assert_eq!(reply.mask, DEBUG_OUTPUT_NORMAL);
    let reply = command_doc("q", None, vec![entry("a"), entry("b")]);
    assert_eq!(reply.text, expected);
    let reply = command_doc("q", None, Vec::new());
    assert_eq!(reply.text, "No catalog entry matched `q`.\n");
    assert_eq!(reply.mask, DEBUG_OUTPUT_ERROR);
}

#[test]
fn a_catalog_lists_its_matches() {
    let reply = command_catalog("dt", &vec![entry("a"), entry("b")]);
    assert_eq!(
        reply.text,
        "Catalog matches for `dt`:\n\n- Title of a | id=a | tokens=dt, ddt\n  Shows types.\n\n- Title of b | id=b | tokens=dt, ddt\n  Shows types.\n\n"
    );
    assert_eq!(reply.mask, DEBUG_OUTPUT_NORMAL);
    let reply = command_catalog("", &Vec::new());
    assert_eq!(reply.text, "First 25 extracted debugger command topics:\n\n");
}

#[test]
fn parts_are_joined() {
    let parts = |texts: &[&str]| texts.iter().map(|text| text.to_string()).collect::<Vec<_>>();
    assert_eq!(join(&parts(&[]), ", "), "");
    assert_eq!(join(&parts(&["a"]), ", "), "a");
    assert_eq!(join(&parts(&["a", "", "c"]), ", "), "a, , c");
    assert_eq!(join(&parts(&["", ""]), "-"), "-");
}

#[test]
fn text_is_cut_into_lines_as_std_does() {
    for text in [
        "", "a", "a\n", "a\nb", "a\r\nb\r\n", "\n\n", "\r\n", "a\rb", "a\r", "a\n\r", "\r\r\n",
        "one\n\ntwo\n", "\u{e9}\n\u{1f600}",
    ] {
        let expected: Vec<&str> = text.lines().collect();
        assert_eq!(text_lines(text), expected);
    }
}

#[test]
fn percent_signs_are_doubled() {
    assert_eq!(escape_percent("100% of %s"), "100%% of %%s");
    assert_eq!(escape_percent("%%"), "%%%%");
    assert_eq!(escape_percent(""), "");
    for text in ["a%b", "%", "plain", "%d%%"] {
        assert_eq!(escape_percent(text), text.replace('%', "%%"));
    }
}

#[test]
fn output_stops_at_a_line_that_holds_nul() {
    let output = output_of("a\n5%\r\nlast");
    assert_eq!(output.lines, vec!["a\n", "5%%\n", "last\n"]);
    assert!(output.whole);
    let output = output_of("a\nb\0c\nd");
    assert_eq!(output.lines, vec!["a\n"]);
    assert!(!output.whole);
    let output = output_of("");
    assert!(output.lines.is_empty());
    assert!(output.whole);
}

#[test]
fn an_active_session_starts_the_server_and_tells_its_status() {
    let notify = NotifySequence::new(DEBUG_NOTIFY_SESSION_ACTIVE);
    assert_eq!(notify.action(), NotifyAction::StartServer);
    let (notify, messages) = notify.advance(NotifyOutcome::Started(Ok(status(None))));
    assert!(messages.is_empty());
    assert_eq!(notify.action(), NotifyAction::RegisterCallbacks);
    let (notify, messages) = notify.advance(NotifyOutcome::Registered(Err("no".to_string())));
    assert_eq!(
        messages,
        vec!["WinDbg MCP event callback registration failed: no\n"]
    );
    assert_eq!(
        notify.action(),
        NotifyAction::ApplySessionEvent(SessionEvent::Active)
    );
    let (notify, messages) = notify.advance(NotifyOutcome::Applied(Err("full".to_string())));
    assert_eq!(
        messages,
        vec![
            "WinDbg MCP active session transition failed: full\n".to_string(),
            format_status(&status(None)),
        ]
    );
    assert_eq!(notify.action(), NotifyAction::Nothing);

    let notify = NotifySequence::new(DEBUG_NOTIFY_SESSION_ACTIVE);
    let (notify, messages) = notify.advance(NotifyOutcome::Started(Err("busy".to_string())));
    assert_eq!(messages, vec!["WinDbg MCP server auto-start failed: busy\n"]);
    assert_eq!(notify.action(), NotifyAction::Nothing);
}

#[test]
fn an_accessible_session_starts_the_server_silently() {
    let notify = NotifySequence::new(DEBUG_NOTIFY_SESSION_ACCESSIBLE);
    let (notify, messages) = notify.advance(NotifyOutcome::Started(Ok(status(None))));
    assert!(messages.is_empty());
    let (notify, messages) = notify.advance(NotifyOutcome::Registered(Err("no".to_string())));
    assert_eq!(
        messages,
        vec!["WinDbg MCP event callback registration failed on accessible session: no\n"]
    );
    assert_eq!(
        notify.action(),
        NotifyAction::ApplySessionEvent(SessionEvent::Accessible)
    );
    let (_, messages) = notify.advance(NotifyOutcome::Applied(Ok(())));
    assert!(messages.is_empty());

    let notify = NotifySequence::new(DEBUG_NOTIFY_SESSION_ACCESSIBLE);
    let (notify, messages) = notify.advance(NotifyOutcome::Started(Err("busy".to_string())));
    assert_eq!(
        messages,
        vec!["WinDbg MCP server auto-start failed on accessible session: busy\n"]
    );
    assert_eq!(notify.action(), NotifyAction::Nothing);
}

#[test]
fn the_end_of_a_session_is_applied_without_a_start() {
    for (code, event, heading) in [
        (
            DEBUG_NOTIFY_SESSION_INACCESSIBLE,
            SessionEvent::Inaccessible,
            "WinDbg MCP inaccessible session transition failed: x\n",
        ),
        (
            DEBUG_NOTIFY_SESSION_INACTIVE,
            SessionEvent::Inactive,
            "WinDbg MCP inactive session transition failed: x\n",
        ),
    ] {
        let notify = NotifySequence::new(code);
        assert_eq!(notify.action(), NotifyAction::ApplySessionEvent(event));
        let (notify, messages) = notify.advance(NotifyOutcome::Applied(Err("x".to_string())));
        assert_eq!(messages, vec![heading]);
        assert_eq!(notify.action(), NotifyAction::Nothing);
    }
    assert_eq!(NotifySequence::new(77).action(), NotifyAction::Nothing);
}

#[test]
fn failures_are_told_with_their_reason() {
    assert_eq!(
        failure_text(Failure::PrimaryClient, "e"),
        "Failed to initialize WinDbg MCP primary client: e\n"
    );
    assert_eq!(
        failure_text(Failure::CallbackRemoval, "e"),
        "WinDbg MCP event callback unregistration failed: e\n"
    );
    assert_eq!(
        failure_text(Failure::UnloadCleanup, "e"),
        "WinDbg MCP server unload cleanup failed: e\n"
    );
    assert_eq!(
        failure_text(Failure::Transition(SessionEvent::Accessible), "e"),
        "WinDbg MCP accessible session transition failed: e\n"
    );
}
