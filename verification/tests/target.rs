use windbg_mcp_rs::clock::current_unix_ms;
use windbg_mcp_rs::dbgeng::{
    DEBUG_CLASS_IMAGE_FILE, DEBUG_CLASS_KERNEL, DEBUG_CLASS_USER_WINDOWS, DEBUG_DUMP_FILE_BASE,
    DEBUG_USER_WINDOWS_DUMP, DEBUG_USER_WINDOWS_SMALL_DUMP,
};
use windbg_mcp_rs::target_capture::{
    capture_current_target_snapshot, capture_dbgeng_api_target_info, dbgeng_string,
    dbgeng_wide_string, DbgEngTargetReads, DumpFileScan,
};
use windbg_mcp_rs::target_snapshot::{
    build_current_target_snapshot, choose_better_target_path, clean_dbgeng_path,
    infer_target_kind, kind_for_path, looks_like_absolute_path, CurrentTargetSnapshot,
    DbgEngApiTargetInfo,
};
use windbg_mcp_rs::transport::{
    extract_after, extract_after_ignore_case, extract_parenthesized_transport,
    extract_transport_value, is_transport_name, looks_like_transport_clause,
    normalize_observed_endpoint, parse_debug_transport, parse_transport_clause,
};

fn empty_info() -> DbgEngApiTargetInfo {
    DbgEngApiTargetInfo {
        debuggee_class: None,
        debuggee_qualifier: None,
        system_server_name: None,
        process_exe: None,
        process_exe_wide: None,
        module_image: None,
        dump_file_path: None,
    }
}

fn empty_reads() -> DbgEngTargetReads {
    DbgEngTargetReads {
        debuggee_type: None,
        system_server_name: None,
        process_exe: None,
        process_exe_wide: None,
        module_image: None,
        dump_files: None,
    }
}

#[test]
fn production_builder_builds_live_user_snapshot() {
    let snapshot = build_current_target_snapshot(
        DbgEngApiTargetInfo {
            debuggee_class: Some(DEBUG_CLASS_USER_WINDOWS),
            debuggee_qualifier: Some(0),
            process_exe: Some("target.exe".to_string()),
            process_exe_wide: Some("C:\\bin\\target.exe".to_string()),
            module_image: Some("target.exe".to_string()),
            ..empty_info()
        },
        456,
    )
    .expect("live snapshot");

    assert_eq!(snapshot.kind, "user");
    assert_eq!(snapshot.name.as_deref(), Some("C:\\bin\\target.exe"));
    assert_eq!(snapshot.source_path, None);
    assert_eq!(snapshot.updated_unix_ms, 456);
}

#[test]
fn production_builder_builds_remote_kernel_transport() {
    let snapshot = build_current_target_snapshot(
        DbgEngApiTargetInfo {
            debuggee_class: Some(DEBUG_CLASS_KERNEL),
            debuggee_qualifier: Some(0),
            system_server_name: Some("tcp:server=192.168.133.132,port=5005".to_string()),
            ..empty_info()
        },
        123,
    )
    .expect("kernel snapshot");

    assert_eq!(snapshot.kind, "kernel");
    assert_eq!(snapshot.transport.as_deref(), Some("tcp"));
    assert_eq!(snapshot.endpoint.as_deref(), Some("192.168.133.132:5005"));
    assert_eq!(snapshot.source_path, None);
}

#[test]
fn production_builder_prefers_enumerated_base_dump_path() {
    let snapshot = build_current_target_snapshot(
        DbgEngApiTargetInfo {
            debuggee_class: Some(DEBUG_CLASS_USER_WINDOWS),
            debuggee_qualifier: Some(DEBUG_USER_WINDOWS_DUMP),
            system_server_name: Some(
                "Time Travel Debugging: C:\\traces\\target.run".to_string(),
            ),
            process_exe_wide: Some("target.exe".to_string()),
            dump_file_path: Some("C:\\dumps\\target.dmp".to_string()),
            ..empty_info()
        },
        789,
    )
    .expect("dump snapshot");

    assert_eq!(snapshot.kind, "dump");
    assert_eq!(
        snapshot.source_path.as_deref(),
        Some("C:\\dumps\\target.dmp")
    );
    assert_eq!(snapshot.transport, None);
    assert_eq!(snapshot.endpoint, None);
}

#[test]
fn production_builder_never_uses_server_name_as_source_path() {
    let snapshot = build_current_target_snapshot(
        DbgEngApiTargetInfo {
            debuggee_class: Some(DEBUG_CLASS_USER_WINDOWS),
            debuggee_qualifier: Some(0),
            system_server_name: Some(
                "Time Travel Debugging: C:\\traces\\target.run".to_string(),
            ),
            ..empty_info()
        },
        654,
    )
    .expect("TTD snapshot");

    assert_eq!(snapshot.source_path, None);
    assert_eq!(snapshot.transport, None);
    assert_eq!(snapshot.endpoint, None);
}

#[test]
fn production_builder_returns_none_for_empty_input() {
    assert_eq!(build_current_target_snapshot(empty_info(), 1), None);
}

#[test]
fn transport_helpers_parse_observed_remote_forms() {
    let (transport, endpoint) = parse_debug_transport(
        ".  0 Live user mode: DESKTOP-1V1HKNI (tcp [::ffff:192.168.133.1]:11842)",
    );
    assert_eq!(transport.as_deref(), Some("tcp"));
    assert_eq!(endpoint.as_deref(), Some("192.168.133.1:11842"));

    let (transport, endpoint) = parse_debug_transport(
        "KdSrv:Server=@{<Local>},Trans=@{COM:Port=//./pipe/com_1,Baud=115200}",
    );
    assert_eq!(transport.as_deref(), Some("COM"));
    assert_eq!(endpoint.as_deref(), Some("//./pipe/com_1"));

    assert_eq!(
        parse_debug_transport("Live user mode: <Local>"),
        (None, None)
    );
}

#[test]
fn path_helper_preserves_more_specific_absolute_path() {
    assert_eq!(
        choose_better_target_path(Some("C:\\bin\\target.exe"), Some("target.exe")).as_deref(),
        Some("C:\\bin\\target.exe")
    );
}

#[test]
fn the_better_path_is_the_offered_one_unless_it_says_less() {
    assert_eq!(choose_better_target_path(Some("a.exe"), None), None);
    assert_eq!(
        choose_better_target_path(Some("a.exe"), Some("  ")).as_deref(),
        Some("a.exe")
    );
    assert_eq!(choose_better_target_path(None, Some("  ")), None);
    assert_eq!(
        choose_better_target_path(Some("a.exe"), Some(" C:\\b.exe ")).as_deref(),
        Some("C:\\b.exe")
    );
    assert_eq!(
        choose_better_target_path(Some("Target.EXE"), Some("target.exe")).as_deref(),
        Some("Target.EXE")
    );
    assert_eq!(
        choose_better_target_path(Some("one.exe"), Some("two.exe")).as_deref(),
        Some("two.exe")
    );
}

#[test]
fn absolute_paths_start_with_a_drive_or_a_share() {
    assert!(looks_like_absolute_path("C:\\x"));
    assert!(looks_like_absolute_path("c:/x"));
    assert!(looks_like_absolute_path("\\\\server\\share"));
    assert!(!looks_like_absolute_path("C:"));
    assert!(!looks_like_absolute_path("C:x"));
    assert!(!looks_like_absolute_path("x"));
    assert!(!looks_like_absolute_path(""));
    assert!(!looks_like_absolute_path("\u{e9}:\\x"));
}

#[test]
fn kinds_come_from_path_class_and_qualifier() {
    assert_eq!(kind_for_path("C:\\a.DMP"), "dump");
    assert_eq!(kind_for_path("a.mdmp"), "dump");
    assert_eq!(kind_for_path("a.exe"), "user");
    assert_eq!(infer_target_kind(Some(DEBUG_CLASS_KERNEL), None, None), "kernel");
    assert_eq!(
        infer_target_kind(Some(DEBUG_CLASS_KERNEL), None, Some("memory.dmp")),
        "dump"
    );
    assert_eq!(
        infer_target_kind(
            Some(DEBUG_CLASS_USER_WINDOWS),
            Some(DEBUG_USER_WINDOWS_SMALL_DUMP),
            Some("a.exe")
        ),
        "dump"
    );
    assert_eq!(
        infer_target_kind(Some(DEBUG_CLASS_USER_WINDOWS), None, Some("a.exe")),
        "user"
    );
    assert_eq!(
        infer_target_kind(Some(DEBUG_CLASS_IMAGE_FILE), Some(0), Some("a.exe")),
        "dump"
    );
    assert_eq!(infer_target_kind(Some(77), None, Some("a.exe")), "user");
    assert_eq!(infer_target_kind(None, Some(1), None), "unknown");
}

#[test]
fn paths_are_cleaned_of_space_and_quotes() {
    assert_eq!(
        clean_dbgeng_path("  \"C:\\a b.exe\" ".to_string()).as_deref(),
        Some("C:\\a b.exe")
    );
    assert_eq!(clean_dbgeng_path("\"\"".to_string()), None);
    assert_eq!(clean_dbgeng_path(" \t".to_string()), None);
    assert_eq!(clean_dbgeng_path("?NoImage?".to_string()), None);
    assert_eq!(clean_dbgeng_path("x\"y".to_string()).as_deref(), Some("x\"y"));
}

#[test]
fn transport_names_are_known_in_any_case() {
    for name in [
        "tcp", "tcp6", "npipe", "pipe", "spipe", "ssl", "sslpipe", "com", "net", "usb", "1394",
        "exdi", "serial", " TCP ", "Com",
    ] {
        assert!(is_transport_name(name));
    }
    assert!(!is_transport_name("http"));
    assert!(!is_transport_name(""));
}

#[test]
fn transport_parts_are_found() {
    assert_eq!(extract_after("a=b=c", "="), Some("b=c"));
    assert_eq!(extract_after("abc", "="), None);
    assert_eq!(
        extract_after_ignore_case("tcp:SERVER=host", "Server="),
        Some("host")
    );
    assert_eq!(
        extract_transport_value("Server= host ,Port=1", "server=").as_deref(),
        Some("host")
    );
    assert_eq!(extract_transport_value("Port=,Server=x", "Port="), None);
    assert_eq!(
        extract_parenthesized_transport("a (b) ( c ) d"),
        Some("c")
    );
    assert_eq!(extract_parenthesized_transport("a ) b ("), None);
    assert!(looks_like_transport_clause("npipe:server=x"));
    assert!(looks_like_transport_clause("com port"));
    assert!(!looks_like_transport_clause("Live user mode: <Local>"));
}

#[test]
fn mapped_addresses_are_told_plain() {
    assert_eq!(
        normalize_observed_endpoint(" [::ffff:10.0.0.1]:99 ".to_string()),
        "10.0.0.1:99"
    );
    assert_eq!(
        normalize_observed_endpoint("[fe80::1]:99".to_string()),
        "[fe80::1]:99"
    );
    assert_eq!(
        normalize_observed_endpoint("[::ffff:10.0.0.1".to_string()),
        "[::ffff:10.0.0.1"
    );
}

#[test]
fn clauses_name_a_transport_and_an_endpoint() {
    assert_eq!(parse_transport_clause("<local>"), (None, None));
    assert_eq!(parse_transport_clause(" {} "), (None, None));
    let (transport, endpoint) = parse_transport_clause("npipe:Pipe=debug");
    assert_eq!(transport.as_deref(), Some("npipe"));
    assert_eq!(endpoint.as_deref(), Some("debug"));
    let (transport, endpoint) = parse_transport_clause("net:Port=50000,Key=1.2.3.4");
    assert_eq!(transport.as_deref(), Some("net"));
    assert_eq!(endpoint.as_deref(), Some("50000"));
    let (transport, endpoint) = parse_transport_clause("somewhere");
    assert_eq!(transport, None);
    assert_eq!(endpoint.as_deref(), Some("somewhere"));
    let (transport, endpoint) = parse_transport_clause("usb:TargetName=x");
    assert_eq!(transport.as_deref(), Some("usb"));
    assert_eq!(endpoint, None);
}

#[test]
fn engine_strings_end_where_the_engine_says() {
    let mut buffer = [0u8; 8];
    buffer[..5].copy_from_slice(b"ab\0cd");
    assert_eq!(dbgeng_string(Ok(()), &buffer, 3).as_deref(), Ok("ab"));
    assert_eq!(dbgeng_string(Ok(()), &buffer, 0).as_deref(), Ok("ab"));
    assert_eq!(dbgeng_string(Ok(()), &buffer, 6).as_deref(), Ok("ab\0cd"));
    assert_eq!(dbgeng_string(Ok(()), b"abc", 99).as_deref(), Ok("abc"));
    assert_eq!(dbgeng_string(Ok(()), b"abc", 0).as_deref(), Ok("abc"));
    assert_eq!(dbgeng_string(Ok(()), b"abc", 1).as_deref(), Ok(""));
    assert_eq!(
        dbgeng_string(Ok(()), b"caf\xc3\xa9", 0).as_deref(),
        Ok("caf\u{e9}")
    );
    assert_eq!(
        dbgeng_string(Ok(()), b"a\xffb", 0).as_deref(),
        Ok("a\u{fffd}b")
    );
    assert_eq!(
        dbgeng_string(Err("no".to_string()), b"abc", 0),
        Err("no".to_string())
    );
}

#[test]
fn engine_wide_strings_end_where_the_engine_says() {
    let units: Vec<u16> = "z\u{e9}\u{1f600}\0x".encode_utf16().collect();
    assert_eq!(
        dbgeng_wide_string(Ok(()), &units, 0).as_deref(),
        Ok("z\u{e9}\u{1f600}")
    );
    assert_eq!(dbgeng_wide_string(Ok(()), &units, 3).as_deref(), Ok("z\u{e9}"));
    assert_eq!(
        dbgeng_wide_string(Ok(()), &[0xd800, 0x61], 3).as_deref(),
        Ok("\u{fffd}a")
    );
    assert_eq!(
        dbgeng_wide_string(Ok(()), &[0xd800, 0xd800, 0xdc00, 0xdfff, 0x41], 6).as_deref(),
        Ok("\u{fffd}\u{10000}\u{fffd}A")
    );
    assert_eq!(
        dbgeng_wide_string(Ok(()), &[0xdc00, 0xdbff, 0xdfff, 0xd7ff, 0xe000, 0xdbff], 7)
            .as_deref(),
        Ok("\u{fffd}\u{10ffff}\u{d7ff}\u{e000}\u{fffd}")
    );
    assert_eq!(
        dbgeng_wide_string(Err("no".to_string()), &units, 0),
        Err("no".to_string())
    );
}

#[test]
fn a_scan_ends_at_the_first_usable_base_dump() {
    let files = [
        (Ok("C:\\other.bin".to_string()), 1u32),
        (Err("unreadable".to_string()), DEBUG_DUMP_FILE_BASE),
        (Ok("?NoImage?".to_string()), DEBUG_DUMP_FILE_BASE),
        (Ok(" C:\\base.dmp ".to_string()), DEBUG_DUMP_FILE_BASE),
        (Ok("C:\\later.dmp".to_string()), DEBUG_DUMP_FILE_BASE),
    ];
    let mut scan = DumpFileScan::new(files.len() as u32);
    let mut reads = Vec::new();
    while let Some(index) = scan.wanted() {
        reads.push(index);
        let (path, file_type) = files[index as usize].clone();
        scan.record(path, file_type);
    }
    assert_eq!(reads, vec![0, 1, 2, 3]);
    assert_eq!(
        scan.capture_base_dump_file_path().as_deref(),
        Some("C:\\base.dmp")
    );
    assert_eq!(DumpFileScan::new(0).wanted(), None);
    assert_eq!(DumpFileScan::new(3).capture_base_dump_file_path(), None);
}

#[test]
fn raw_answers_become_a_snapshot() {
    let info = capture_dbgeng_api_target_info(Ok(DbgEngTargetReads {
        debuggee_type: Some((DEBUG_CLASS_USER_WINDOWS, 0)),
        system_server_name: Some("?NoImage?".to_string()),
        process_exe: Some(" \"x.exe\" ".to_string()),
        process_exe_wide: None,
        module_image: Some("x.exe".to_string()),
        dump_files: None,
    }));
    let snapshot = capture_current_target_snapshot(Ok(7), info).expect("snapshot");
    assert_eq!(
        snapshot,
        CurrentTargetSnapshot {
            kind: "user".to_string(),
            name: Some("x.exe".to_string()),
            source_path: None,
            transport: None,
            endpoint: None,
            updated_unix_ms: 7,
        }
    );

    let info = capture_dbgeng_api_target_info(Ok(DbgEngTargetReads {
        debuggee_type: Some((DEBUG_CLASS_KERNEL, 0)),
        ..empty_reads()
    }));
    let snapshot =
        capture_current_target_snapshot(Err("clock".to_string()), info).expect("snapshot");
    assert_eq!(snapshot.updated_unix_ms, 0);

    let mut scan = DumpFileScan::new(1);
    scan.record(Ok(" \"C:\\base.dmp\" ".to_string()), DEBUG_DUMP_FILE_BASE);
    let info = capture_dbgeng_api_target_info(Ok(DbgEngTargetReads {
        dump_files: Some(scan),
        ..empty_reads()
    }));
    let snapshot = capture_current_target_snapshot(Ok(2), info).expect("snapshot");
    assert_eq!(snapshot.kind, "dump");
    assert_eq!(snapshot.source_path.as_deref(), Some("C:\\base.dmp"));

    let info = capture_dbgeng_api_target_info(Ok(DbgEngTargetReads {
        dump_files: Some(DumpFileScan::new(0)),
        ..empty_reads()
    }));
    assert_eq!(info.ok().and_then(|info| info.dump_file_path), None);

    let info = capture_dbgeng_api_target_info(Ok(empty_reads()));
    assert!(info.is_ok());
    assert_eq!(capture_current_target_snapshot(Ok(1), info), None);

    let info = capture_dbgeng_api_target_info(Err("no client".to_string()));
    assert_eq!(info.as_ref().err().map(String::as_str), Some("no client"));
    assert_eq!(capture_current_target_snapshot(Ok(1), info), None);
}

#[test]
fn the_clock_fits_in_sixty_four_bits_or_fails() {
    assert_eq!(current_unix_ms(Ok(1_700_000_000_123)), Ok(1_700_000_000_123));
    assert_eq!(current_unix_ms(Ok(u128::from(u64::MAX))), Ok(u64::MAX));
    let too_long = u128::from(u64::MAX) + 1;
    let expected = u64::try_from(too_long).expect_err("too long").to_string();
    assert_eq!(current_unix_ms(Ok(too_long)), Err(expected));
    assert_eq!(
        current_unix_ms(Err("before the epoch".to_string())),
        Err("before the epoch".to_string())
    );
}

#[test]
fn the_server_name_changes_only_transport_and_endpoint() {
    let with = |server: Option<&str>| {
        build_current_target_snapshot(
            DbgEngApiTargetInfo {
                debuggee_class: Some(DEBUG_CLASS_KERNEL),
                module_image: Some("nt".to_string()),
                system_server_name: server.map(str::to_string),
                ..empty_info()
            },
            1,
        )
        .expect("snapshot")
    };
    let local = with(None);
    let remote = with(Some("tcp:server=h,port=1"));
    assert_eq!(local.kind, remote.kind);
    assert_eq!(local.name, remote.name);
    assert_eq!(local.source_path, remote.source_path);
    assert_eq!(remote.endpoint.as_deref(), Some("h:1"));
}
