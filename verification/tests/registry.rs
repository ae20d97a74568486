use std::path::PathBuf;

use windbg_mcp_rs::plugin_server::PluginServerStatus;
use windbg_mcp_rs::registry::{
    instance_registry_directory, instance_registry_root_directory, instance_registry_stem,
    instance_stem, instance_stems, normalize_host_arch, nul_terminated_wide_path, registry_files,
    registry_temp_path, DirectoryPath, DirectoryRead, RemoveOutcome, StaleCleanup,
};
use windbg_mcp_rs::registry_payload::{
    instance_registry_base_payload, instance_registry_payload, payload_fields, target_fields,
    DocumentField, DocumentValue, TargetValue,
};
use windbg_mcp_rs::registry_write::{
    remove_instance_registry, rollback_steps, AtomicWrite, CreationStep, RegistryCreation,
    RemovalStep, WriteStep,
};
use windbg_mcp_rs::target_snapshot::CurrentTargetSnapshot;

fn test_snapshot(updated_unix_ms: u64) -> CurrentTargetSnapshot {
    CurrentTargetSnapshot {
        kind: "user".to_string(),
        name: Some("target.exe".to_string()),
        source_path: None,
        transport: None,
        endpoint: None,
        updated_unix_ms,
    }
}

fn field<'a>(fields: &'a [DocumentField], name: &str) -> Option<&'a DocumentValue> {
    fields
        .iter()
        .find(|field| field.name == name)
        .map(|field| &field.value)
}

fn text(value: &str) -> DocumentValue {
    DocumentValue::Text(value.to_string())
}

/// A directory that holds names of files, some of which are held open.
struct Directory {
    files: Vec<String>,
    held: Vec<String>,
}

impl Directory {
    fn remove(&mut self, name: &str) -> RemoveOutcome {
        if self.held.iter().any(|held| held == name) {
            return RemoveOutcome::InUse;
        }
        match self.files.iter().position(|file| file == name) {
            Some(index) => {
                self.files.remove(index);
                RemoveOutcome::Removed
            }
            None => RemoveOutcome::Missing,
        }
    }

    fn clean_up(&mut self) -> Result<(), String> {
        let entries = self.files.iter().cloned().map(Some).collect();
        for stem in instance_stems(DirectoryRead::Entries(entries))? {
            let mut cleanup = StaleCleanup::new(stem);
            while let Some(file) = cleanup.file() {
                let outcome = self.remove(&file);
                cleanup.advance(outcome);
            }
        }
        Ok(())
    }
}

#[test]
fn normalizes_supported_host_architectures() {
    assert_eq!(normalize_host_arch("x86"), "x86");
    assert_eq!(normalize_host_arch("x86_64"), "x64");
    assert_eq!(normalize_host_arch("aarch64"), "arm64");
    assert_eq!(normalize_host_arch("mips64"), "unknown");
}

#[test]
fn instance_registry_payload_uses_ordered_host_field_names() {
    let status = PluginServerStatus {
        mcp_url: "http://127.0.0.1:50051/mcp".to_string(),
        registry_path: None,
    };

    let base = instance_registry_base_payload(&status, 42, "x64", None, 123);
    let payload = instance_registry_payload(&base, None);
    let fields = payload_fields(&payload);

    assert_eq!(field(&fields, "schema"), Some(&DocumentValue::Number(1)));
    assert_eq!(field(&fields, "mcp_server_name"), Some(&text("windbg-mcp-rs")));
    assert_eq!(field(&fields, "mcp_server_url"), Some(&text(&status.mcp_url)));
    assert!(field(&fields, "host_pid").is_some());
    assert_eq!(field(&fields, "host_arch"), Some(&text("x64")));
    assert!(field(&fields, "host_process_path").is_some());
    assert!(field(&fields, "server").is_none());
    assert!(field(&fields, "mcp_url").is_none());
    assert!(field(&fields, "pid").is_none());
    assert!(field(&fields, "arch").is_none());
    assert!(field(&fields, "process_path").is_none());

    let order: Vec<&str> = fields.iter().map(|field| field.name).collect();
    assert_eq!(
        order,
        vec![
            "schema",
            "mcp_server_name",
            "mcp_server_url",
            "host_pid",
            "host_arch",
            "host_process_path",
            "started_unix_ms",
            "current_target",
        ]
    );
    assert_eq!(field(&fields, "host_pid"), Some(&DocumentValue::Number(42)));
    assert_eq!(field(&fields, "host_process_path"), Some(&DocumentValue::Null));
    assert_eq!(
        field(&fields, "started_unix_ms"),
        Some(&DocumentValue::Number(123))
    );
    assert_eq!(field(&fields, "current_target"), Some(&DocumentValue::Null));
}

#[test]
fn a_payload_holds_its_target() {
    let status = PluginServerStatus {
        mcp_url: "http://127.0.0.1:50051/mcp".to_string(),
        registry_path: None,
    };
    let base = instance_registry_base_payload(
        &status,
        7,
        "arm64",
        Some("C:\\windbg.exe".to_string()),
        u64::MAX,
    );
    let payload = instance_registry_payload(&base, Some(test_snapshot(456)));
    let fields = payload_fields(&payload);
    assert_eq!(field(&fields, "host_process_path"), Some(&text("C:\\windbg.exe")));
    assert_eq!(
        field(&fields, "current_target"),
        Some(&DocumentValue::Target(target_fields(&test_snapshot(456))))
    );
}

#[test]
fn a_refresh_changes_only_the_target_in_the_document() {
    let status = PluginServerStatus {
        mcp_url: "http://127.0.0.1:50052/mcp".to_string(),
        registry_path: None,
    };
    let base = instance_registry_base_payload(&status, 7, "x86", None, 5);
    let mut before = payload_fields(&instance_registry_payload(&base, None));
    let mut after = payload_fields(&instance_registry_payload(&base, Some(test_snapshot(6))));
    let old_target = before.pop().expect("target");
    let new_target = after.pop().expect("target");
    assert_eq!(before, after);
    assert_eq!(old_target.name, "current_target");
    assert_eq!(new_target.name, "current_target");
    assert_ne!(old_target.value, new_target.value);
}

#[test]
fn target_snapshot_json_omits_summary() {
    let snapshot = CurrentTargetSnapshot {
        kind: "user".to_string(),
        name: Some("target.exe".to_string()),
        source_path: None,
        transport: None,
        endpoint: None,
        updated_unix_ms: 1,
    };

    let fields = target_fields(&snapshot);

    assert!(fields.iter().all(|field| field.name != "summary"));
    let name = fields.iter().find(|field| field.name == "name").expect("name");
    assert_eq!(name.value, TargetValue::Text("target.exe".to_string()));
    let order: Vec<&str> = fields.iter().map(|field| field.name).collect();
    assert_eq!(
        order,
        vec![
            "kind",
            "name",
            "source_path",
            "transport",
            "endpoint",
            "updated_unix_ms"
        ]
    );
    assert_eq!(fields[2].value, TargetValue::Null);
    assert_eq!(fields[5].value, TargetValue::Number(1));
}

/// Writes a payload to the place of another, which is held if `held` says so.
fn write_atomically(
    stored: &mut Option<Vec<DocumentField>>,
    temp: &mut Option<Vec<DocumentField>>,
    payload: Vec<DocumentField>,
    held: bool,
) -> Result<(), String> {
    let mut payload = Some(payload);
    let mut write = AtomicWrite::new();
    while write.step() != WriteStep::Finished {
        let outcome = match write.step() {
            WriteStep::OpenTemp => {
                *temp = Some(Vec::new());
                Ok(())
            }
            WriteStep::WritePayload => {
                *temp = payload.take();
                Ok(())
            }
            WriteStep::Replace if held => Err("destination is held".to_string()),
            WriteStep::Replace => {
                *stored = temp.take();
                Ok(())
            }
            WriteStep::RemoveTemp => {
                *temp = None;
                Ok(())
            }
            _ => Ok(()),
        };
        write.advance(outcome);
    }
    write.result()
}

#[test]
fn atomic_registry_replace_failure_preserves_old_payload() {
    let status = PluginServerStatus {
        mcp_url: "http://127.0.0.1:50051/mcp".to_string(),
        registry_path: None,
    };
    let base = instance_registry_base_payload(&status, 1, "x64", None, 123);
    let mut stored = None;
    let mut temp = None;
    let old_payload = payload_fields(&instance_registry_payload(&base, None));
    write_atomically(&mut stored, &mut temp, old_payload, false).expect("initial registry write");

    let new_payload = payload_fields(&instance_registry_payload(&base, Some(test_snapshot(456))));
    assert!(
        write_atomically(&mut stored, &mut temp, new_payload, true).is_err(),
        "replace must fail while destination denies delete sharing"
    );
    let persisted = stored.as_ref().expect("preserved payload");
    assert_eq!(field(persisted, "current_target"), Some(&DocumentValue::Null));
    assert!(temp.is_none());

    let new_payload = payload_fields(&instance_registry_payload(&base, Some(test_snapshot(456))));
    write_atomically(&mut stored, &mut temp, new_payload, false).expect("second registry write");
    let persisted = stored.as_ref().expect("new payload");
    assert_ne!(field(persisted, "current_target"), Some(&DocumentValue::Null));
    assert!(temp.is_none());
}

#[test]
fn a_payload_is_whole_before_it_takes_the_place_of_the_old_one() {
    let mut write = AtomicWrite::new();
    let mut steps = Vec::new();
    while write.step() != WriteStep::Finished {
        steps.push(write.step());
        write.advance(Ok(()));
    }
    assert_eq!(
        steps,
        vec![
            WriteStep::OpenTemp,
            WriteStep::WritePayload,
            WriteStep::WriteNewline,
            WriteStep::Flush,
            WriteStep::Sync,
            WriteStep::Replace,
        ]
    );
    assert_eq!(write.result(), Ok(()));

    let mut write = AtomicWrite::new();
    write.advance(Ok(()));
    write.advance(Err("full".to_string()));
    assert_eq!(write.step(), WriteStep::RemoveTemp);
    write.advance(Err("gone".to_string()));
    assert_eq!(write.step(), WriteStep::Finished);
    assert_eq!(write.result(), Err("full".to_string()));
}

#[test]
fn stale_cleanup_respects_active_lock_then_removes_complete_stem() {
    let payload = "instance-42.json".to_string();
    let temp = registry_temp_path(&payload);
    let lock = "instance-42.lock".to_string();
    let mut directory = Directory {
        files: vec![payload.clone(), temp.clone(), lock.clone()],
        held: vec![lock.clone()],
    };

    directory.clean_up().expect("active cleanup");
    assert!(directory.files.contains(&lock));
    assert!(directory.files.contains(&payload));
    assert!(directory.files.contains(&temp));

    directory.held.clear();
    directory.clean_up().expect("stale cleanup");
    assert!(!directory.files.contains(&lock));
    assert!(!directory.files.contains(&payload));
    assert!(!directory.files.contains(&temp));
}

#[test]
fn a_payload_without_a_lock_is_stale() {
    let mut directory = Directory {
        files: vec![
            "instance-1.json".to_string(),
            "instance-1.json.tmp".to_string(),
            "instance-2.json.tmp".to_string(),
            "notes.json".to_string(),
        ],
        held: Vec::new(),
    };
    directory.clean_up().expect("cleanup");
    assert_eq!(directory.files, vec!["notes.json".to_string()]);

    let mut directory = Directory {
        files: vec![
            "instance-1.json".to_string(),
            "instance-1.json.tmp".to_string(),
        ],
        held: vec!["instance-1.json".to_string()],
    };
    directory.clean_up().expect("cleanup");
    assert_eq!(directory.files.len(), 2);
    for kept in [RemoveOutcome::InUse, RemoveOutcome::Failed] {
        let mut cleanup = StaleCleanup::new("instance-1".to_string());
        assert_eq!(cleanup.file().as_deref(), Some("instance-1.lock"));
        cleanup.advance(kept);
        assert_eq!(cleanup.file(), None);
    }
}

#[test]
fn stems_are_those_of_the_files_of_an_instance() {
    assert_eq!(instance_registry_stem("instance-12.json"), Some("instance-12"));
    assert_eq!(
        instance_registry_stem("instance-12.json.tmp"),
        Some("instance-12")
    );
    assert_eq!(instance_registry_stem("instance-12.lock"), Some("instance-12"));
    assert_eq!(instance_registry_stem("instance-.json"), None);
    assert_eq!(instance_registry_stem("instance-1a.json"), None);
    assert_eq!(instance_registry_stem("instance-12.txt"), None);
    assert_eq!(instance_registry_stem("instance-12"), None);
    assert_eq!(instance_registry_stem("other-12.json"), None);
    assert_eq!(instance_registry_stem("instance-12.lock.json"), None);
    assert_eq!(instance_registry_stem("instance-\u{661}.json"), None);

    let stem = instance_stem(4321);
    assert_eq!(stem, "instance-4321");
    assert_eq!(instance_stem(0), "instance-0");
    assert_eq!(instance_stem(u32::MAX), "instance-4294967295");
    let files = registry_files(&stem);
    assert_eq!(files.payload, "instance-4321.json");
    assert_eq!(files.lock, "instance-4321.lock");
    assert_eq!(files.temp, "instance-4321.json.tmp");
    for file in [&files.payload, &files.lock, &files.temp] {
        assert_eq!(instance_registry_stem(file), Some("instance-4321"));
    }
}

#[test]
fn stems_are_listed_once_and_in_order() {
    let names = [
        Some("instance-9.json"),
        None,
        Some("instance-10.lock"),
        Some("instance-9.lock"),
        Some("readme.md"),
        Some("instance-10.json"),
        Some("instance-1.json.tmp"),
    ];
    let entries = names
        .iter()
        .map(|name| name.map(str::to_string))
        .collect();
    assert_eq!(
        instance_stems(DirectoryRead::Entries(entries)),
        Ok(vec![
            "instance-1".to_string(),
            "instance-10".to_string(),
            "instance-9".to_string()
        ])
    );
    assert_eq!(instance_stems(DirectoryRead::Missing), Ok(Vec::new()));
    assert_eq!(
        instance_stems(DirectoryRead::Failed("denied".to_string())),
        Err("denied".to_string())
    );
}

#[test]
fn a_creation_undoes_only_a_payload_that_failed() {
    let mut creation = RegistryCreation::new();
    let mut steps = Vec::new();
    while creation.step() != CreationStep::Finished {
        steps.push(creation.step());
        creation.advance(Ok(()));
    }
    assert_eq!(
        steps,
        vec![
            CreationStep::CreateDirectory,
            CreationStep::OpenLock,
            CreationStep::ReadClock,
            CreationStep::WritePayload,
        ]
    );
    assert_eq!(creation.result(), Ok(()));

    let mut creation = RegistryCreation::new();
    creation.advance(Ok(()));
    creation.advance(Err("exists".to_string()));
    assert_eq!(creation.step(), CreationStep::Finished);
    assert_eq!(creation.result(), Err("exists".to_string()));

    let mut creation = RegistryCreation::new();
    creation.advance(Ok(()));
    creation.advance(Ok(()));
    creation.advance(Ok(()));
    creation.advance(Err("full".to_string()));
    assert_eq!(creation.step(), CreationStep::RollBack);
    creation.advance(Ok(()));
    assert_eq!(creation.step(), CreationStep::Finished);
    assert_eq!(creation.result(), Err("full".to_string()));

    assert_eq!(
        rollback_steps(),
        vec![
            RemovalStep::ReleaseLock,
            RemovalStep::RemoveTemp,
            RemovalStep::RemovePayload,
            RemovalStep::RemoveLock
        ]
    );
    assert_eq!(
        remove_instance_registry(),
        vec![
            RemovalStep::RemovePayload,
            RemovalStep::RemoveTemp,
            RemovalStep::ReleaseLock,
            RemovalStep::RemoveLock
        ]
    );
}

#[test]
fn wide_paths_are_terminated() {
    assert_eq!(nul_terminated_wide_path(vec![0x43, 0x3a]), vec![0x43, 0x3a, 0]);
    assert_eq!(nul_terminated_wide_path(Vec::new()), vec![0]);
}

fn joined(directory: DirectoryPath<PathBuf>) -> PathBuf {
    directory
        .below
        .iter()
        .fold(directory.base, |path, name| path.join(name))
}

#[test]
fn instance_registry_root_uses_application_directory() {
    let temp_dir = PathBuf::from("temp");
    for local_app_data in [Some(PathBuf::from("local")), None] {
        let base = local_app_data.clone().unwrap_or_else(|| temp_dir.clone());
        let root = instance_registry_root_directory(local_app_data.clone(), temp_dir.clone());
        assert_eq!(joined(root), base.join("windbg-mcp-rs"));
        let registry = instance_registry_directory(local_app_data, temp_dir.clone());
        assert_eq!(joined(registry), base.join("windbg-mcp-rs").join("instances"));
    }
}
