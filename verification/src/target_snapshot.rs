//! The snapshot of the target under debug that the instance registry publishes, built from
//! what the debugger engine reports.

use vstd::prelude::*;

use crate::dbgeng::{
    DEBUG_CLASS_IMAGE_FILE, DEBUG_CLASS_KERNEL, DEBUG_CLASS_USER_WINDOWS, DEBUG_USER_WINDOWS_DUMP,
    DEBUG_USER_WINDOWS_DUMP_WINDOWS_CE, DEBUG_USER_WINDOWS_SMALL_DUMP,
};
use crate::text;
use crate::text::{
    as_text, chars_of, has_prefix, lower_chars, owned_text, same, same_ignoring_case, strip, trim,
    CharClass,
};
use crate::transport;
use crate::transport::parse_debug_transport;

verus! {

/// The target under debug, as the instance registry shows it.
#[derive(Debug, PartialEq, Eq)]
pub struct CurrentTargetSnapshot {
    pub kind: String,
    pub name: Option<String>,
    pub source_path: Option<String>,
    pub transport: Option<String>,
    pub endpoint: Option<String>,
    pub updated_unix_ms: u64,
}

/// What the fields of a [`CurrentTargetSnapshot`] hold.
pub struct SnapshotView {
    pub kind: Seq<char>,
    pub name: Option<Seq<char>>,
    pub source_path: Option<Seq<char>>,
    pub transport: Option<Seq<char>>,
    pub endpoint: Option<Seq<char>>,
    pub updated_unix_ms: u64,
}

impl View for CurrentTargetSnapshot {
    type V = SnapshotView;

    open spec fn view(&self) -> SnapshotView {
        SnapshotView {
            kind: self.kind@,
            name: text::text_of(self.name),
            source_path: text::text_of(self.source_path),
            transport: text::text_of(self.transport),
            endpoint: text::text_of(self.endpoint),
            updated_unix_ms: self.updated_unix_ms,
        }
    }
}

impl Clone for CurrentTargetSnapshot {
    fn clone(&self) -> (r: Self)
        ensures
            r@ == self@,
    {
        CurrentTargetSnapshot {
            kind: self.kind.clone(),
            name: owned_text(as_text(&self.name)),
            source_path: owned_text(as_text(&self.source_path)),
            transport: owned_text(as_text(&self.transport)),
            endpoint: owned_text(as_text(&self.endpoint)),
            updated_unix_ms: self.updated_unix_ms,
        }
    }
}

/// What the debugger engine reports of the current target.
#[derive(Debug)]
pub struct DbgEngApiTargetInfo {
    pub debuggee_class: Option<u32>,
    pub debuggee_qualifier: Option<u32>,
    pub system_server_name: Option<String>,
    pub process_exe: Option<String>,
    pub process_exe_wide: Option<String>,
    pub module_image: Option<String>,
    pub dump_file_path: Option<String>,
}

/// What the fields of a [`DbgEngApiTargetInfo`] hold.
pub struct TargetInfoView {
    pub debuggee_class: Option<u32>,
    pub debuggee_qualifier: Option<u32>,
    pub system_server_name: Option<Seq<char>>,
    pub process_exe: Option<Seq<char>>,
    pub process_exe_wide: Option<Seq<char>>,
    pub module_image: Option<Seq<char>>,
    pub dump_file_path: Option<Seq<char>>,
}

impl View for DbgEngApiTargetInfo {
    type V = TargetInfoView;

    open spec fn view(&self) -> TargetInfoView {
        TargetInfoView {
            debuggee_class: self.debuggee_class,
            debuggee_qualifier: self.debuggee_qualifier,
            system_server_name: text::text_of(self.system_server_name),
            process_exe: text::text_of(self.process_exe),
            process_exe_wide: text::text_of(self.process_exe_wide),
            module_image: text::text_of(self.module_image),
            dump_file_path: text::text_of(self.dump_file_path),
        }
    }
}

/// A path that starts with a drive letter, a colon and a separator, or with two backslashes.
pub open spec fn is_absolute(path: Seq<char>) -> bool {
    ||| {
        &&& path.len() >= 3
        &&& (path[0] as u32) < 0x80
        &&& path[1] == ':'
        &&& (path[2] == '\\' || path[2] == '/')
    }
    ||| text::starts_with(path, "\\\\"@)
}

/// Whether a file name ends as a crash dump's does, whatever its case.
pub open spec fn is_dump_path(path: Seq<char>) -> bool {
    ||| text::ends_with(text::lower_all(path), ".dmp"@)
    ||| text::ends_with(text::lower_all(path), ".mdmp"@)
}

pub open spec fn path_kind(path: Seq<char>) -> Seq<char> {
    if is_dump_path(path) {
        "dump"@
    } else {
        "user"@
    }
}

/// A path that the engine reported, without the space and then the quotes around it, unless
/// it is empty or says that there is no image.
pub open spec fn cleaned_path(path: Seq<char>) -> Option<Seq<char>> {
    let value = text::stripped(text::trimmed(path), CharClass::Only('"'));
    if value.len() == 0 || value == "?NoImage?"@ {
        None
    } else {
        Some(value)
    }
}

/// The better of a path that is known and one that is offered. Without an offer there is
/// none. An offer of nothing but space keeps the known path, and so does an offer that is not
/// absolute where the known path is, or that differs in case alone.
pub open spec fn better_path(current: Option<Seq<char>>, candidate: Option<Seq<char>>) -> Option<
    Seq<char>,
> {
    match candidate {
        None => None,
        Some(raw) => {
            let c = text::trimmed(raw);
            if c.len() == 0 {
                current
            } else if current is Some && (is_absolute(current->0) && !is_absolute(c)
                || text::equal_ignoring_case(current->0, c)) {
                current
            } else {
                Some(c)
            }
        },
    }
}

/// Whether the engine's qualifier of a user-mode debuggee is that of a dump.
pub open spec fn is_dump_qualifier(qualifier: Option<u32>) -> bool {
    ||| qualifier == Some(DEBUG_USER_WINDOWS_DUMP)
    ||| qualifier == Some(DEBUG_USER_WINDOWS_SMALL_DUMP)
    ||| qualifier == Some(DEBUG_USER_WINDOWS_DUMP_WINDOWS_CE)
}

/// The kind of a target: a dump by its path, else by its class and qualifier, else by its
/// path alone.
pub open spec fn target_kind(
    class: Option<u32>,
    qualifier: Option<u32>,
    path: Option<Seq<char>>,
) -> Seq<char> {
    if path is Some && is_dump_path(path->0) {
        "dump"@
    } else if class == Some(DEBUG_CLASS_KERNEL) {
        "kernel"@
    } else if class == Some(DEBUG_CLASS_USER_WINDOWS) {
        if is_dump_qualifier(qualifier) {
            "dump"@
        } else {
            "user"@
        }
    } else if class == Some(DEBUG_CLASS_IMAGE_FILE) {
        "dump"@
    } else if path is Some {
        path_kind(path->0)
    } else {
        "unknown"@
    }
}

/// The name of a target: the better of its process names, then of that and its first module.
pub open spec fn target_name(info: TargetInfoView) -> Option<Seq<char>> {
    better_path(better_path(info.process_exe_wide, info.process_exe), info.module_image)
}

/// Whether the engine reported anything of a target.
pub open spec fn reports_target(info: TargetInfoView) -> bool {
    ||| target_name(info) is Some
    ||| info.dump_file_path is Some
    ||| info.system_server_name is Some
    ||| info.debuggee_class is Some
    ||| info.debuggee_qualifier is Some
}

/// The snapshot of the target that `info` reports at the time `updated_unix_ms`.
pub open spec fn snapshot_of(info: TargetInfoView, updated_unix_ms: u64) -> SnapshotView {
    let transport = match info.system_server_name {
        Some(server) => transport::debug_transport(server),
        None => (None, None),
    };
    SnapshotView {
        kind: target_kind(
            info.debuggee_class,
            info.debuggee_qualifier,
            if info.dump_file_path is Some {
                info.dump_file_path
            } else {
                target_name(info)
            },
        ),
        name: target_name(info),
        source_path: info.dump_file_path,
        transport: transport.0,
        endpoint: transport.1,
        updated_unix_ms,
    }
}

/// Whether `path` starts with a drive letter, a colon and a separator, or with two
/// backslashes.
pub fn looks_like_absolute_path(path: &str) -> (r: bool)
    ensures
        r == is_absolute(path@),
{
    let cs = chars_of(path);
    (cs.len() >= 3 && (cs[0] as u32) < 0x80 && cs[1] == ':' && (cs[2] == '\\' || cs[2] == '/'))
        || has_prefix(path, "\\\\")
}

fn has_dump_suffix(path: &str) -> (r: bool)
    ensures
        r == is_dump_path(path@),
{
    let lower = lower_chars(path);
    text::chars_end_with(&lower, ".dmp") || text::chars_end_with(&lower, ".mdmp")
}

/// The kind of a target that is known by its path alone.
pub fn kind_for_path(path: &str) -> (r: &'static str)
    ensures
        r@ == path_kind(path@),
{
    if has_dump_suffix(path) {
        "dump"
    } else {
        "user"
    }
}

/// A path that the engine reported, ready for use, unless it names no image.
pub fn clean_dbgeng_path(path: String) -> (r: Option<String>)
    ensures
        text::text_of(r) == cleaned_path(path@),
{
    let value = strip(trim(path.as_str()), CharClass::Only('"'));
    if value.is_empty() || same(value, "?NoImage?") {
        None
    } else {
        Some(value.to_owned())
    }
}

/// The kind of a target by its path, its class and its qualifier.
pub fn infer_target_kind(
    debuggee_class: Option<u32>,
    debuggee_qualifier: Option<u32>,
    path: Option<&str>,
) -> (r: &'static str)
    ensures
        r@ == target_kind(debuggee_class, debuggee_qualifier, text::text_ref(path)),
{
    if let Some(path) = path {
        if has_dump_suffix(path) {
            return "dump";
        }
    }
    match debuggee_class {
        Some(class) => {
            if class == DEBUG_CLASS_KERNEL {
                return "kernel";
            }
            if class == DEBUG_CLASS_USER_WINDOWS {
                return match debuggee_qualifier {
                    Some(qualifier) => if qualifier == DEBUG_USER_WINDOWS_DUMP || qualifier
                        == DEBUG_USER_WINDOWS_SMALL_DUMP || qualifier
                        == DEBUG_USER_WINDOWS_DUMP_WINDOWS_CE {
                        "dump"
                    } else {
                        "user"
                    },
                    None => "user",
                };
            }
            if class == DEBUG_CLASS_IMAGE_FILE {
                return "dump";
            }
        },
        None => {},
    }
    match path {
        Some(path) => kind_for_path(path),
        None => "unknown",
    }
}

/// The better of a path that is known and one that is offered.
pub fn choose_better_target_path(current: Option<&str>, candidate: Option<&str>) -> (r: Option<
    String,
>)
    ensures
        text::text_of(r) == better_path(text::text_ref(current), text::text_ref(candidate)),
{
    let candidate = match candidate {
        Some(candidate) => trim(candidate),
        None => {
            return None;
        },
    };
    if candidate.is_empty() {
        return owned_text(current);
    }
    match current {
        Some(known) => if (looks_like_absolute_path(known) && !looks_like_absolute_path(candidate))
            || same_ignoring_case(known, candidate) {
            Some(known.to_owned())
        } else {
            Some(candidate.to_owned())
        },
        None => Some(candidate.to_owned()),
    }
}

/// The snapshot of the target that `info` reports; none where it reports nothing.
pub fn build_current_target_snapshot(info: DbgEngApiTargetInfo, updated_unix_ms: u64) -> (r: Option<
    CurrentTargetSnapshot,
>)
    ensures
        r is Some <==> reports_target(info@),
        r is Some ==> r->0@ == snapshot_of(info@, updated_unix_ms),
{
    let process_name = choose_better_target_path(
        as_text(&info.process_exe_wide),
        as_text(&info.process_exe),
    );
    let name = choose_better_target_path(as_text(&process_name), as_text(&info.module_image));
    let path = match &info.dump_file_path {
        Some(path) => Some(path.as_str()),
        None => as_text(&name),
    };
    let kind = infer_target_kind(info.debuggee_class, info.debuggee_qualifier, path).to_owned();
    let (transport, endpoint) = match &info.system_server_name {
        Some(server) => parse_debug_transport(server.as_str()),
        None => (None, None),
    };
    if name.is_none() && info.dump_file_path.is_none() && info.system_server_name.is_none()
        && info.debuggee_class.is_none() && info.debuggee_qualifier.is_none() {
        return None;
    }
    Some(
        CurrentTargetSnapshot {
            kind,
            name,
            source_path: info.dump_file_path,
            transport,
            endpoint,
            updated_unix_ms,
        },
    )
}

/// The name of the server says how a target is reached, and nothing else: it is never taken
/// for the target or for its file.
pub proof fn the_server_name_names_no_file(
    info: TargetInfoView,
    server_name: Option<Seq<char>>,
    updated_unix_ms: u64,
)
    ensures
        ({
            let one = snapshot_of(info, updated_unix_ms);
            let other = snapshot_of(
                TargetInfoView { system_server_name: server_name, ..info },
                updated_unix_ms,
            );
            &&& one.kind == other.kind
            &&& one.name == other.name
            &&& one.source_path == other.source_path
        }),
{
}

/// A path that is absolute is not given up for one that is not.
pub proof fn an_absolute_path_is_preserved(current: Seq<char>, candidate: Seq<char>)
    requires
        is_absolute(current),
        !is_absolute(text::trimmed(candidate)),
    ensures
        better_path(Some(current), Some(candidate)) == Some(current),
{
}

/// A target is of one of four kinds, and one that is known by the name of a crash dump is a
/// dump whatever the engine calls it.
pub proof fn a_target_is_of_a_known_kind(
    class: Option<u32>,
    qualifier: Option<u32>,
    path: Option<Seq<char>>,
)
    ensures
        ({
            let kind = target_kind(class, qualifier, path);
            kind == "dump"@ || kind == "user"@ || kind == "kernel"@ || kind == "unknown"@
        }),
        path is Some && is_dump_path(path->0) ==> target_kind(class, qualifier, path) == "dump"@,
        target_kind(class, qualifier, path) == "unknown"@ ==> path is None && class
            != Some(DEBUG_CLASS_KERNEL) && class != Some(DEBUG_CLASS_USER_WINDOWS) && class != Some(
            DEBUG_CLASS_IMAGE_FILE,
        ),
{
    reveal_strlit("dump");
    reveal_strlit("user");
    reveal_strlit("kernel");
    reveal_strlit("unknown");
    assert("unknown"@.len() == 7);
}

/// A path is absolute with a drive and a separator in front of it, or as a share; without a
/// separator behind the drive, or with any other beginning, it is not.
pub proof fn a_drive_or_a_share_makes_a_path_absolute(
    drive: char,
    separator: char,
    rest: Seq<char>,
)
    requires
        drive as u32 <= 0x7f,
    ensures
        is_absolute(seq![drive, ':', '\\'] + rest),
        is_absolute(seq![drive, ':', '/'] + rest),
        is_absolute(seq!['\\', '\\'] + rest),
        separator != '\\' && separator != '/' && !(drive == '\\') ==> !is_absolute(
            seq![drive, ':', separator] + rest,
        ),
        drive != '\\' && separator != ':' ==> !is_absolute(seq![drive, separator] + rest),
        !is_absolute(seq![drive]),
        !is_absolute(Seq::empty()),
{
    reveal_strlit("\\\\");
    let share = seq!['\\', '\\'] + rest;
    assert(share.subrange(0, 2) =~= "\\\\"@);
    let other = seq![drive, ':', separator] + rest;
    if text::starts_with(other, "\\\\"@) {
        assert(other.subrange(0, 2)[0] == other[0]);
    }
    let other = seq![drive, separator] + rest;
    if text::starts_with(other, "\\\\"@) {
        assert(other.subrange(0, 2)[0] == other[0]);
    }
}

/// A file is a crash dump by the end of its name, in any case, whatever stands before it.
pub proof fn a_dump_is_known_by_its_ending(stem: Seq<char>, ending: Seq<char>)
    requires
        text::lower_all(ending) == ".dmp"@ || text::lower_all(ending) == ".mdmp"@,
    ensures
        is_dump_path(stem + ending),
        path_kind(stem + ending) == "dump"@,
{
    let path = stem + ending;
    let low = text::lower_all(path);
    let end = text::lower_all(ending);
    assert(low.subrange(low.len() - end.len(), low.len() as int) =~= end);
}

/// A file whose name does not end in `dmp` behind a dot, or in `dmp` behind `.m`, is no dump.
pub proof fn other_endings_are_no_dumps(path: Seq<char>)
    requires
        path.len() < 4 || text::lower_all(path.skip(path.len() - 4)) != ".dmp"@,
        path.len() < 5 || text::lower_all(path.skip(path.len() - 5)) != ".mdmp"@,
    ensures
        !is_dump_path(path),
        path_kind(path) == "user"@,
{
    reveal_strlit(".dmp");
    reveal_strlit(".mdmp");
    let low = text::lower_all(path);
    if path.len() >= 4 {
        assert(low.subrange(low.len() - 4, low.len() as int) =~= text::lower_all(
            path.skip(path.len() - 4),
        ));
    }
    if path.len() >= 5 {
        assert(low.subrange(low.len() - 5, low.len() as int) =~= text::lower_all(
            path.skip(path.len() - 5),
        ));
    }
}

/// Quotes and the space around them are taken off a path, and nothing inside it is; a path
/// that holds neither is left as it is. Nothing, and the name of no image, is no path.
pub proof fn a_path_is_cleaned_of_quotes_and_space(
    before: Seq<char>,
    path: Seq<char>,
    after: Seq<char>,
)
    requires
        forall|i: int| 0 <= i < before.len() ==> text::is_space(#[trigger] before[i]),
        forall|i: int| 0 <= i < after.len() ==> text::is_space(#[trigger] after[i]),
        path.len() > 0 ==> path[0] != '"' && path.last() != '"' && !text::is_space(path[0])
            && !text::is_space(path.last()),
    ensures
        ({
            let cleaned = if path.len() == 0 || path == "?NoImage?"@ {
                None
            } else {
                Some(path)
            };
            &&& cleaned_path(before + path + after) == cleaned
            &&& cleaned_path(before + (seq!['"'] + path + seq!['"']) + after) == cleaned
        }),
{
    text::stripping_takes_off_what_stands_around(before, path, after, CharClass::Space);
    text::lemma_stripped_stays(path, CharClass::Only('"'));
    let quoted = seq!['"'] + path + seq!['"'];
    assert(quoted[0] == '"' && quoted.last() == '"');
    text::stripping_takes_off_what_stands_around(before, quoted, after, CharClass::Space);
    text::stripping_takes_off_what_stands_around(
        seq!['"'],
        path,
        seq!['"'],
        CharClass::Only('"'),
    );
}

/// Of a path that is known and one that is offered one is taken, and nothing is made up: the
/// offered one, without the space around it, unless it is blank, says the same but for case,
/// or is less than the absolute path that is known. Without an offer there is none.
pub proof fn the_offered_path_is_taken_unless_it_says_less(
    current: Option<Seq<char>>,
    candidate: Option<Seq<char>>,
)
    ensures
        candidate is None ==> better_path(current, candidate) is None,
        better_path(current, candidate) is Some ==> better_path(current, candidate) == current
            || candidate is Some && better_path(current, candidate) == Some(
            text::trimmed(candidate->0),
        ),
        candidate is Some && text::trimmed(candidate->0).len() == 0 ==> better_path(
            current,
            candidate,
        ) == current,
        candidate is Some && text::trimmed(candidate->0).len() > 0 ==> {
            let offered = text::trimmed(candidate->0);
            &&& current is None ==> better_path(current, candidate) == Some(offered)
            &&& current is Some && text::equal_ignoring_case(current->0, offered) ==> better_path(
                current,
                candidate,
            ) == current
            &&& current is Some && !text::equal_ignoring_case(current->0, offered) && (is_absolute(
                offered,
            ) || !is_absolute(current->0)) ==> better_path(current, candidate) == Some(offered)
        },
{
}

/// The name of a target comes from its first module, and from what is known of its process
/// where that says more: of the wide and the narrow name of the process the wide one stays
/// where it alone is absolute.
pub proof fn the_name_is_that_of_the_module_or_the_process(info: TargetInfoView)
    ensures
        info.module_image is None ==> target_name(info) is None,
        info.module_image is Some && text::trimmed(info.module_image->0).len() > 0 && is_absolute(
            text::trimmed(info.module_image->0),
        ) ==> target_name(info) is Some && text::equal_ignoring_case(
            target_name(info)->0,
            text::trimmed(info.module_image->0),
        ),
        info.module_image is Some && text::trimmed(info.module_image->0).len() > 0 && !is_absolute(
            text::trimmed(info.module_image->0),
        ) && info.process_exe is Some && info.process_exe_wide is Some && is_absolute(
            info.process_exe_wide->0,
        ) && !is_absolute(text::trimmed(info.process_exe->0)) ==> target_name(info)
            == info.process_exe_wide,
        info.module_image is Some && text::trimmed(info.module_image->0).len() > 0 && !is_absolute(
            text::trimmed(info.module_image->0),
        ) && info.process_exe is Some && is_absolute(text::trimmed(info.process_exe->0))
            && info.process_exe_wide is None ==> target_name(info) == Some(
            text::trimmed(info.process_exe->0),
        ),
        info.module_image is Some && text::trimmed(info.module_image->0).len() > 0
            && info.process_exe is None ==> target_name(info) == Some(
            text::trimmed(info.module_image->0),
        ),
{
    if info.process_exe is Some && text::trimmed(info.process_exe->0).len() == 0 {
        assert(better_path(info.process_exe_wide, info.process_exe) == info.process_exe_wide);
    }
    if info.process_exe is Some && is_absolute(text::trimmed(info.process_exe->0)) {
        reveal_strlit("\\\\");
    }
}

/// A target is told of where the engine reported anything of it: its class or qualifier, a
/// server, a dump, or a module. Where it reported none of these there is no target.
pub proof fn a_target_is_told_of_where_anything_is_reported(info: TargetInfoView)
    ensures
        info.debuggee_class is Some || info.debuggee_qualifier is Some
            || info.system_server_name is Some || info.dump_file_path is Some ==> reports_target(
            info,
        ),
        info.module_image is Some && text::trimmed(info.module_image->0).len() > 0
            ==> reports_target(info),
        info.debuggee_class is None && info.debuggee_qualifier is None
            && info.system_server_name is None && info.dump_file_path is None
            && info.module_image is None ==> !reports_target(info),
{
}

/// The kind of a target by the numbers of the engine, where its path is not that of a dump:
/// the first tells a kernel, a user process or an image file; of a user process the second
/// tells a live one from a dump.
pub proof fn the_class_tells_the_kind(qualifier: Option<u32>, path: Option<Seq<char>>)
    requires
        path is Some ==> !is_dump_path(path->0),
    ensures
        target_kind(Some(1), qualifier, path) == "kernel"@,
        target_kind(Some(2), qualifier, path) == (if qualifier == Some(1024u32) || qualifier
            == Some(1025u32) || qualifier == Some(1029u32) {
            "dump"@
        } else {
            "user"@
        }),
        target_kind(Some(3), qualifier, path) == "dump"@,
        forall|class: u32|
            class == 0 || class > 3 ==> #[trigger] target_kind(Some(class), qualifier, path) == (
            if path is Some {
                "user"@
            } else {
                "unknown"@
            }),
        target_kind(None, qualifier, path) == (if path is Some {
            "user"@
        } else {
            "unknown"@
        }),
{
}

/// A snapshot holds what was reported: the file of a dump, the time, and the way to the
/// target that the name of its server tells; without such a name the target is local.
pub proof fn a_snapshot_holds_what_was_reported(info: TargetInfoView, updated_unix_ms: u64)
    ensures
        ({
            let snapshot = snapshot_of(info, updated_unix_ms);
            &&& snapshot.source_path == info.dump_file_path
            &&& snapshot.updated_unix_ms == updated_unix_ms
            &&& snapshot.name == target_name(info)
            &&& info.system_server_name is None ==> snapshot.transport is None
                && snapshot.endpoint is None
            &&& info.system_server_name is Some ==> snapshot.transport
                == transport::debug_transport(info.system_server_name->0).0 && snapshot.endpoint
                == transport::debug_transport(info.system_server_name->0).1
            &&& info.dump_file_path is Some && is_dump_path(info.dump_file_path->0)
                ==> snapshot.kind == "dump"@
        }),
{
}

/// A drive is one ASCII character: behind any other a colon and a separator make no path
/// absolute.
pub proof fn a_drive_is_one_ascii_character(drive: char, rest: Seq<char>)
    requires
        drive as u32 > 0x7f,
    ensures
        !is_absolute(seq![drive, ':', '\\'] + rest),
        !is_absolute(seq![drive, ':', '/'] + rest),
{
    reveal_strlit("\\\\");
    let one = seq![drive, ':', '\\'] + rest;
    if text::starts_with(one, "\\\\"@) {
        assert(one.subrange(0, 2)[0] == one[0]);
    }
    let other = seq![drive, ':', '/'] + rest;
    if text::starts_with(other, "\\\\"@) {
        assert(other.subrange(0, 2)[0] == other[0]);
    }
}

/// Where the module says less than the process, the process names the target: by its narrow
/// name, unless only the wide one is absolute. Where all say the same much, the module names
/// it.
pub proof fn of_names_that_say_the_same_much_the_later_is_taken(
    wide: Seq<char>,
    narrow: Seq<char>,
    module: Seq<char>,
    info: TargetInfoView,
)
    requires
        info.process_exe_wide == Some(wide),
        info.process_exe == Some(narrow),
        info.module_image == Some(module),
        text::trimmed(narrow) == narrow && narrow.len() > 0,
        text::trimmed(module) == module && module.len() > 0,
        !text::equal_ignoring_case(wide, narrow),
        !text::equal_ignoring_case(narrow, module),
        !text::equal_ignoring_case(wide, module),
    ensures
        is_absolute(module) ==> target_name(info) == Some(module),
        !is_absolute(module) && is_absolute(narrow) ==> target_name(info) == Some(narrow),
        !is_absolute(module) && !is_absolute(narrow) && is_absolute(wide) ==> target_name(info)
            == Some(wide),
        !is_absolute(module) && !is_absolute(narrow) && !is_absolute(wide) ==> target_name(info)
            == Some(module),
{
}

/// A target without the file of a dump is of the kind that its name tells where that is the
/// name of a dump; with such a file, its name does not count.
pub proof fn the_file_of_a_dump_comes_before_the_name(info: TargetInfoView, updated_unix_ms: u64)
    ensures
        ({
            let kind = snapshot_of(info, updated_unix_ms).kind;
            let name = target_name(info);
            let file = info.dump_file_path;
            &&& file is None && name is Some && is_dump_path(name->0) ==> kind == "dump"@
            &&& file is Some && !is_dump_path(file->0) && info.debuggee_class is None ==> kind
                == "user"@
            &&& file is None && name is None && info.debuggee_class is None ==> kind == "unknown"@
            &&& file is None && name is Some && !is_dump_path(name->0) && info.debuggee_class
                is None ==> kind == "user"@
        }),
{
}

} // verus!
