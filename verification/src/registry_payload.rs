//! What the payload of an instance says: the document of schema 1, field by field.

use vstd::prelude::*;

use crate::plugin_server::PluginServerStatus;
use crate::target_snapshot::{CurrentTargetSnapshot, SnapshotView};
use crate::text;
use crate::text::{as_text, owned_text};

verus! {

pub const REGISTRY_SCHEMA: u32 = 1;

pub const MCP_SERVER_NAME: &'static str = "windbg-mcp-rs";

/// What stays the same in all payloads of an instance.
pub struct InstanceRegistryBasePayload {
    pub mcp_server_url: String,
    pub host_pid: u32,
    pub host_arch: String,
    pub host_process_path: Option<String>,
    pub started_unix_ms: u64,
}

/// A payload: an instance and the target it has now.
pub struct InstanceRegistryPayload {
    pub schema: u32,
    pub mcp_server_name: &'static str,
    pub mcp_server_url: String,
    pub host_pid: u32,
    pub host_arch: String,
    pub host_process_path: Option<String>,
    pub started_unix_ms: u64,
    pub current_target: Option<CurrentTargetSnapshot>,
}

/// What the fields of an [`InstanceRegistryBasePayload`] hold.
pub struct BaseView {
    pub mcp_server_url: Seq<char>,
    pub host_pid: u32,
    pub host_arch: Seq<char>,
    pub host_process_path: Option<Seq<char>>,
    pub started_unix_ms: u64,
}

/// What the fields of an [`InstanceRegistryPayload`] hold.
pub struct PayloadView {
    pub schema: u32,
    pub mcp_server_name: Seq<char>,
    pub base: BaseView,
    pub current_target: Option<SnapshotView>,
}

impl View for InstanceRegistryBasePayload {
    type V = BaseView;

    open spec fn view(&self) -> BaseView {
        BaseView {
            mcp_server_url: self.mcp_server_url@,
            host_pid: self.host_pid,
            host_arch: self.host_arch@,
            host_process_path: text::text_of(self.host_process_path),
            started_unix_ms: self.started_unix_ms,
        }
    }
}

impl View for InstanceRegistryPayload {
    type V = PayloadView;

    open spec fn view(&self) -> PayloadView {
        PayloadView {
            schema: self.schema,
            mcp_server_name: self.mcp_server_name@,
            base: BaseView {
                mcp_server_url: self.mcp_server_url@,
                host_pid: self.host_pid,
                host_arch: self.host_arch@,
                host_process_path: text::text_of(self.host_process_path),
                started_unix_ms: self.started_unix_ms,
            },
            current_target: match self.current_target {
                Some(target) => Some(target@),
                None => None,
            },
        }
    }
}

/// What stays the same in all payloads of the instance that serves at `status`.
pub fn instance_registry_base_payload(
    status: &PluginServerStatus,
    host_pid: u32,
    host_arch: &str,
    host_process_path: Option<String>,
    started_unix_ms: u64,
) -> (r: InstanceRegistryBasePayload)
    ensures
        r@ == (BaseView {
            mcp_server_url: status@.mcp_url,
            host_pid,
            host_arch: host_arch@,
            host_process_path: text::text_of(host_process_path),
            started_unix_ms,
        }),
{
    InstanceRegistryBasePayload {
        mcp_server_url: status.mcp_url.clone(),
        host_pid,
        host_arch: host_arch.to_owned(),
        host_process_path,
        started_unix_ms,
    }
}

/// The payload of an instance with a target, or without one.
pub open spec fn payload_of(base: BaseView, current_target: Option<SnapshotView>) -> PayloadView {
    PayloadView {
        schema: REGISTRY_SCHEMA,
        mcp_server_name: MCP_SERVER_NAME@,
        base,
        current_target,
    }
}

/// The payload of an instance with the target it has now.
pub fn instance_registry_payload(
    base: &InstanceRegistryBasePayload,
    current_target: Option<CurrentTargetSnapshot>,
) -> (r: InstanceRegistryPayload)
    ensures
        r@ == payload_of(
            base@,
            match current_target {
                Some(target) => Some(target@),
                None => None,
            },
        ),
{
    InstanceRegistryPayload {
        schema: REGISTRY_SCHEMA,
        mcp_server_name: MCP_SERVER_NAME,
        mcp_server_url: base.mcp_server_url.clone(),
        host_pid: base.host_pid,
        host_arch: base.host_arch.clone(),
        host_process_path: owned_text(as_text(&base.host_process_path)),
        started_unix_ms: base.started_unix_ms,
        current_target,
    }
}

/// A value of a field of the target.
#[derive(Debug, PartialEq, Eq)]
pub enum TargetValue {
    Null,
    Number(u64),
    Text(String),
}

/// A field of the target in the document.
#[derive(Debug, PartialEq, Eq)]
pub struct TargetField {
    pub name: &'static str,
    pub value: TargetValue,
}

/// A value of a field of the document.
#[derive(Debug, PartialEq, Eq)]
pub enum DocumentValue {
    Null,
    Number(u64),
    Text(String),
    Target(Vec<TargetField>),
}

/// A field of the document.
#[derive(Debug, PartialEq, Eq)]
pub struct DocumentField {
    pub name: &'static str,
    pub value: DocumentValue,
}

pub enum ScalarView {
    Null,
    Number(u64),
    Text(Seq<char>),
}

pub type TargetFieldsView = Seq<(Seq<char>, ScalarView)>;

pub enum DocumentValueView {
    Scalar(ScalarView),
    Target(TargetFieldsView),
}

pub type DocumentView = Seq<(Seq<char>, DocumentValueView)>;

impl View for TargetField {
    type V = (Seq<char>, ScalarView);

    open spec fn view(&self) -> (Seq<char>, ScalarView) {
        (
            self.name@,
            match self.value {
                TargetValue::Null => ScalarView::Null,
                TargetValue::Number(n) => ScalarView::Number(n),
                TargetValue::Text(s) => ScalarView::Text(s@),
            },
        )
    }
}

pub open spec fn target_fields_view(fields: Seq<TargetField>) -> TargetFieldsView {
    fields.map_values(|f: TargetField| f@)
}

impl View for DocumentField {
    type V = (Seq<char>, DocumentValueView);

    open spec fn view(&self) -> (Seq<char>, DocumentValueView) {
        (
            self.name@,
            match self.value {
                DocumentValue::Null => DocumentValueView::Scalar(ScalarView::Null),
                DocumentValue::Number(n) => DocumentValueView::Scalar(ScalarView::Number(n)),
                DocumentValue::Text(s) => DocumentValueView::Scalar(ScalarView::Text(s@)),
                DocumentValue::Target(fields) => DocumentValueView::Target(
                    target_fields_view(fields@),
                ),
            },
        )
    }
}

pub open spec fn document_view(fields: Seq<DocumentField>) -> DocumentView {
    fields.map_values(|f: DocumentField| f@)
}

/// An optional text as a value: without one it is null.
pub open spec fn optional_text(o: Option<Seq<char>>) -> ScalarView {
    match o {
        Some(s) => ScalarView::Text(s),
        None => ScalarView::Null,
    }
}

/// The fields of a target, in their order.
pub open spec fn target_document(target: SnapshotView) -> TargetFieldsView {
    seq![
        ("kind"@, ScalarView::Text(target.kind)),
        ("name"@, optional_text(target.name)),
        ("source_path"@, optional_text(target.source_path)),
        ("transport"@, optional_text(target.transport)),
        ("endpoint"@, optional_text(target.endpoint)),
        ("updated_unix_ms"@, ScalarView::Number(target.updated_unix_ms)),
    ]
}

/// The fields of a payload, in their order.
pub open spec fn payload_document(payload: PayloadView) -> DocumentView {
    seq![
        ("schema"@, DocumentValueView::Scalar(ScalarView::Number(payload.schema as u64))),
        ("mcp_server_name"@, DocumentValueView::Scalar(ScalarView::Text(payload.mcp_server_name))),
        (
            "mcp_server_url"@,
            DocumentValueView::Scalar(ScalarView::Text(payload.base.mcp_server_url)),
        ),
        ("host_pid"@, DocumentValueView::Scalar(ScalarView::Number(payload.base.host_pid as u64))),
        ("host_arch"@, DocumentValueView::Scalar(ScalarView::Text(payload.base.host_arch))),
        (
            "host_process_path"@,
            DocumentValueView::Scalar(optional_text(payload.base.host_process_path)),
        ),
        (
            "started_unix_ms"@,
            DocumentValueView::Scalar(ScalarView::Number(payload.base.started_unix_ms)),
        ),
        (
            "current_target"@,
            match payload.current_target {
                Some(target) => DocumentValueView::Target(target_document(target)),
                None => DocumentValueView::Scalar(ScalarView::Null),
            },
        ),
    ]
}

fn target_text(o: &Option<String>) -> (r: TargetValue)
    ensures
        (TargetField { name: "", value: r })@.1 == optional_text(text::text_of(*o)),
{
    match o {
        Some(s) => TargetValue::Text(s.clone()),
        None => TargetValue::Null,
    }
}

/// The fields of a target, in the order in which the document has them.
pub fn target_fields(target: &CurrentTargetSnapshot) -> (r: Vec<TargetField>)
    ensures
        target_fields_view(r@) == target_document(target@),
{
    let r = vec![
        TargetField { name: "kind", value: TargetValue::Text(target.kind.clone()) },
        TargetField { name: "name", value: target_text(&target.name) },
        TargetField { name: "source_path", value: target_text(&target.source_path) },
        TargetField { name: "transport", value: target_text(&target.transport) },
        TargetField { name: "endpoint", value: target_text(&target.endpoint) },
        TargetField { name: "updated_unix_ms", value: TargetValue::Number(target.updated_unix_ms) },
    ];
    assert(target_fields_view(r@) =~= target_document(target@));
    r
}

/// The fields of a payload, in the order in which the document has them.
pub fn payload_fields(payload: &InstanceRegistryPayload) -> (r: Vec<DocumentField>)
    ensures
        document_view(r@) == payload_document(payload@),
{
    let host_process_path = match &payload.host_process_path {
        Some(path) => DocumentValue::Text(path.clone()),
        None => DocumentValue::Null,
    };
    let current_target = match &payload.current_target {
        Some(target) => DocumentValue::Target(target_fields(target)),
        None => DocumentValue::Null,
    };
    let r = vec![
        DocumentField { name: "schema", value: DocumentValue::Number(payload.schema as u64) },
        DocumentField {
            name: "mcp_server_name",
            value: DocumentValue::Text(payload.mcp_server_name.to_owned()),
        },
        DocumentField {
            name: "mcp_server_url",
            value: DocumentValue::Text(payload.mcp_server_url.clone()),
        },
        DocumentField { name: "host_pid", value: DocumentValue::Number(payload.host_pid as u64) },
        DocumentField { name: "host_arch", value: DocumentValue::Text(payload.host_arch.clone()) },
        DocumentField { name: "host_process_path", value: host_process_path },
        DocumentField {
            name: "started_unix_ms",
            value: DocumentValue::Number(payload.started_unix_ms),
        },
        DocumentField { name: "current_target", value: current_target },
    ];
    assert(document_view(r@) =~= payload_document(payload@));
    r
}

/// A refresh of the target leaves everything else in the document as it was: clients find the
/// same endpoint and the same process.
pub proof fn a_refresh_changes_only_the_target(
    base: BaseView,
    before: Option<SnapshotView>,
    after: Option<SnapshotView>,
)
    ensures
        payload_document(payload_of(base, before)).drop_last() == payload_document(
            payload_of(base, after),
        ).drop_last(),
        payload_document(payload_of(base, after)).last().0 == "current_target"@,
{
    assert(payload_document(payload_of(base, before)).drop_last() =~= payload_document(
        payload_of(base, after),
    ).drop_last());
}

/// The value that a reader finds under a name: that of the first field of the name.
pub open spec fn found_under<V>(fields: Seq<(Seq<char>, V)>, name: Seq<char>) -> Option<V>
    decreases fields.len(),
{
    if fields.len() == 0 {
        None
    } else if fields[0].0 == name {
        Some(fields[0].1)
    } else {
        found_under(fields.drop_first(), name)
    }
}

/// A field that is found where no field before it has its name.
proof fn lemma_found_at<V>(fields: Seq<(Seq<char>, V)>, at: int)
    requires
        0 <= at < fields.len(),
        forall|i: int| 0 <= i < at ==> (#[trigger] fields[i]).0 != fields[at].0,
    ensures
        found_under(fields, fields[at].0) == Some(fields[at].1),
    decreases at,
{
    if at > 0 {
        let rest = fields.drop_first();
        assert(fields[0].0 != fields[at].0);
        assert(rest[at - 1] == fields[at]);
        assert forall|i: int| 0 <= i < at - 1 implies (#[trigger] rest[i]).0 != rest[at - 1].0 by {
            assert(rest[i] == fields[i + 1]);
        }
        lemma_found_at(rest, at - 1);
    }
}

proof fn lemma_not_found<V>(fields: Seq<(Seq<char>, V)>, name: Seq<char>)
    requires
        forall|i: int| 0 <= i < fields.len() ==> (#[trigger] fields[i]).0 != name,
    ensures
        found_under(fields, name) is None,
    decreases fields.len(),
{
    if fields.len() > 0 {
        let rest = fields.drop_first();
        assert(fields[0].0 != name);
        assert forall|i: int| 0 <= i < rest.len() implies (#[trigger] rest[i]).0 != name by {
            assert(rest[i] == fields[i + 1]);
        }
        lemma_not_found(rest, name);
    }
}

/// The text that a value is read as: none where it is null.
pub open spec fn read_text(value: Option<ScalarView>) -> Option<Seq<char>> {
    match value {
        Some(ScalarView::Text(s)) => Some(s),
        _ => None,
    }
}

pub open spec fn read_number(value: Option<ScalarView>) -> Option<u64> {
    match value {
        Some(ScalarView::Number(n)) => Some(n),
        _ => None,
    }
}

proof fn lemma_target_names()
    ensures
        "kind"@ != "name"@,
        "kind"@ != "source_path"@,
        "name"@ != "source_path"@,
        "kind"@ != "transport"@,
        "name"@ != "transport"@,
        "source_path"@ != "transport"@,
        "kind"@ != "endpoint"@,
        "name"@ != "endpoint"@,
        "source_path"@ != "endpoint"@,
        "transport"@ != "endpoint"@,
        "kind"@ != "updated_unix_ms"@,
        "name"@ != "updated_unix_ms"@,
        "source_path"@ != "updated_unix_ms"@,
        "transport"@ != "updated_unix_ms"@,
        "endpoint"@ != "updated_unix_ms"@,
{
    reveal_strlit("kind");
    reveal_strlit("name");
    reveal_strlit("source_path");
    reveal_strlit("transport");
    reveal_strlit("endpoint");
    reveal_strlit("updated_unix_ms");
    assert("kind"@[0] == 'k' && "name"@[0] == 'n');
    assert("kind"@.len() == 4 && "name"@.len() == 4 && "source_path"@.len() == 11
        && "transport"@.len() == 9 && "endpoint"@.len() == 8 && "updated_unix_ms"@.len() == 15);
}

/// A reader of the document of a target finds under each name what the snapshot holds under
/// that name, and null where it holds nothing; so the snapshot that was published is the one
/// that is read. Nothing else is in the document.
pub proof fn a_reader_recovers_the_target(target: SnapshotView)
    ensures
        ({
            let document = target_document(target);
            &&& found_under(document, "kind"@) == Some(ScalarView::Text(target.kind))
            &&& found_under(document, "name"@) is Some
            &&& read_text(found_under(document, "name"@)) == target.name
            &&& found_under(document, "source_path"@) is Some
            &&& read_text(found_under(document, "source_path"@)) == target.source_path
            &&& found_under(document, "transport"@) is Some
            &&& read_text(found_under(document, "transport"@)) == target.transport
            &&& found_under(document, "endpoint"@) is Some
            &&& read_text(found_under(document, "endpoint"@)) == target.endpoint
            &&& read_number(found_under(document, "updated_unix_ms"@)) == Some(
                target.updated_unix_ms,
            )
            &&& document.len() == 6
            &&& target.name is None ==> found_under(document, "name"@) == Some(ScalarView::Null)
            &&& target.source_path is None ==> found_under(document, "source_path"@) == Some(
                ScalarView::Null,
            )
            &&& target.transport is None ==> found_under(document, "transport"@) == Some(
                ScalarView::Null,
            )
            &&& target.endpoint is None ==> found_under(document, "endpoint"@) == Some(
                ScalarView::Null,
            )
        }),
{
    lemma_target_names();
    let document = target_document(target);
    assert(document[0].0 == "kind"@ && document[1].0 == "name"@ && document[2].0 == "source_path"@
        && document[3].0 == "transport"@ && document[4].0 == "endpoint"@ && document[5].0
        == "updated_unix_ms"@);
    lemma_found_at(document, 0);
    lemma_found_at(document, 1);
    lemma_found_at(document, 2);
    lemma_found_at(document, 3);
    lemma_found_at(document, 4);
    lemma_found_at(document, 5);
}

/// Two targets have the same document only if they are the same.
pub proof fn documents_tell_targets_apart(one: SnapshotView, other: SnapshotView)
    requires
        target_document(one) == target_document(other),
    ensures
        one == other,
{
    a_reader_recovers_the_target(one);
    a_reader_recovers_the_target(other);
}

pub open spec fn scalar(value: Option<DocumentValueView>) -> Option<ScalarView> {
    match value {
        Some(DocumentValueView::Scalar(value)) => Some(value),
        _ => None,
    }
}

proof fn lemma_payload_names()
    ensures
        "schema"@.len() == 6,
        "mcp_server_name"@.len() == 15,
        "mcp_server_url"@.len() == 14,
        "host_pid"@.len() == 8,
        "host_arch"@.len() == 9,
        "host_process_path"@.len() == 17,
        "started_unix_ms"@.len() == 15,
        "current_target"@.len() == 14,
        "mcp_server_name"@ != "started_unix_ms"@,
        "mcp_server_url"@ != "current_target"@,
{
    reveal_strlit("schema");
    reveal_strlit("mcp_server_name");
    reveal_strlit("mcp_server_url");
    reveal_strlit("host_pid");
    reveal_strlit("host_arch");
    reveal_strlit("host_process_path");
    reveal_strlit("started_unix_ms");
    reveal_strlit("current_target");
    assert("mcp_server_name"@[0] == 'm' && "started_unix_ms"@[0] == 's');
    assert("mcp_server_url"@[0] == 'm' && "current_target"@[0] == 'c');
}

/// A reader of the document of an instance finds the schema, the name and the URL of the
/// server, the process that hosts it, when it was started, and its target, each under its
/// name, and nothing else; where there is no target, it finds null.
pub proof fn a_reader_finds_the_instance(base: BaseView, target: Option<SnapshotView>)
    ensures
        ({
            let document = payload_document(payload_of(base, target));
            &&& scalar(found_under(document, "schema"@)) == Some(ScalarView::Number(1))
            &&& scalar(found_under(document, "mcp_server_name"@)) == Some(
                ScalarView::Text("windbg-mcp-rs"@),
            )
            &&& scalar(found_under(document, "mcp_server_url"@)) == Some(
                ScalarView::Text(base.mcp_server_url),
            )
            &&& scalar(found_under(document, "host_pid"@)) == Some(
                ScalarView::Number(base.host_pid as u64),
            )
            &&& scalar(found_under(document, "host_arch"@)) == Some(
                ScalarView::Text(base.host_arch),
            )
            &&& read_text(scalar(found_under(document, "host_process_path"@)))
                == base.host_process_path
            &&& base.host_process_path is None ==> scalar(
                found_under(document, "host_process_path"@),
            ) == Some(ScalarView::Null)
            &&& scalar(found_under(document, "started_unix_ms"@)) == Some(
                ScalarView::Number(base.started_unix_ms),
            )
            &&& target is None ==> scalar(found_under(document, "current_target"@)) == Some(
                ScalarView::Null,
            )
            &&& target is Some ==> found_under(document, "current_target"@) == Some(
                DocumentValueView::Target(target_document(target->0)),
            )
            &&& document.len() == 8
        }),
{
    lemma_payload_names();
    let document = payload_document(payload_of(base, target));
    assert(document[0].0 == "schema"@ && document[1].0 == "mcp_server_name"@ && document[2].0
        == "mcp_server_url"@ && document[3].0 == "host_pid"@ && document[4].0 == "host_arch"@
        && document[5].0 == "host_process_path"@ && document[6].0 == "started_unix_ms"@
        && document[7].0 == "current_target"@);
    lemma_found_at(document, 0);
    lemma_found_at(document, 1);
    lemma_found_at(document, 2);
    lemma_found_at(document, 3);
    lemma_found_at(document, 4);
    lemma_found_at(document, 5);
    lemma_found_at(document, 6);
    lemma_found_at(document, 7);
}

/// A name that is none of the document's is not found in it.
pub proof fn nothing_else_is_in_the_document_of_a_target(target: SnapshotView, name: Seq<char>)
    requires
        name != "kind"@,
        name != "name"@,
        name != "source_path"@,
        name != "transport"@,
        name != "endpoint"@,
        name != "updated_unix_ms"@,
    ensures
        found_under(target_document(target), name) is None,
{
    lemma_not_found(target_document(target), name);
}

/// The fields stand in the documents in a fixed order, whatever they hold.
pub proof fn the_fields_stand_in_a_fixed_order(target: SnapshotView, payload: PayloadView)
    ensures
        target_document(target).map_values(|f: (Seq<char>, ScalarView)| f.0) =~= seq![
            "kind"@,
            "name"@,
            "source_path"@,
            "transport"@,
            "endpoint"@,
            "updated_unix_ms"@,
        ],
        payload_document(payload).map_values(|f: (Seq<char>, DocumentValueView)| f.0) =~= seq![
            "schema"@,
            "mcp_server_name"@,
            "mcp_server_url"@,
            "host_pid"@,
            "host_arch"@,
            "host_process_path"@,
            "started_unix_ms"@,
            "current_target"@,
        ],
{
}

} // verus!
