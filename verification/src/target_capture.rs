//! Turns the raw answers of the debugger engine into what is known of the current target.

use vstd::prelude::*;

use crate::dbgeng::DEBUG_DUMP_FILE_BASE;
use crate::target_snapshot;
use crate::target_snapshot::{
    build_current_target_snapshot, clean_dbgeng_path, CurrentTargetSnapshot, DbgEngApiTargetInfo,
    TargetInfoView,
};
use crate::text;

verus! {

/// The size of the buffers that the engine writes names and paths into.
pub const DBGENG_PATH_BUFFER_SIZE: usize = 4096;

/// What `String::from_utf8_lossy` makes of a byte sequence.
pub uninterp spec fn utf8_lossy(bytes: Seq<u8>) -> Seq<char>;

/// `String::from_utf8_lossy`: a function of the bytes alone, which decodes valid UTF-8. What
/// stands in place of invalid bytes is left to the name.
#[verifier::external_body]
fn decode_utf8_lossy(bytes: &[u8]) -> (r: String)
    ensures
        r@ == utf8_lossy(bytes@),
        vstd::utf8::valid_utf8(bytes@) ==> r@ == vstd::utf8::decode_utf8(bytes@),
{
    String::from_utf8_lossy(bytes).to_string()
}

/// Whether a unit is the first of a surrogate pair, or the second of one.
pub open spec fn is_high_surrogate(unit: u16) -> bool {
    0xd800 <= unit <= 0xdbff
}

pub open spec fn is_low_surrogate(unit: u16) -> bool {
    0xdc00 <= unit <= 0xdfff
}

/// The text that 16-bit units stand for: a surrogate pair for one character, any other
/// surrogate for the replacement character, and any other unit for the character of its
/// number.
pub open spec fn utf16_text(units: Seq<u16>) -> Seq<char>
    decreases units.len(),
{
    if units.len() == 0 {
        Seq::empty()
    } else if units.len() > 1 && is_high_surrogate(units[0]) && is_low_surrogate(units[1]) {
        seq![(0x1_0000 + (units[0] - 0xd800) * 0x400 + (units[1] - 0xdc00)) as char] + utf16_text(
            units.skip(2),
        )
    } else if is_high_surrogate(units[0]) || is_low_surrogate(units[0]) {
        seq!['\u{fffd}'] + utf16_text(units.skip(1))
    } else {
        seq![units[0] as char] + utf16_text(units.skip(1))
    }
}

/// `String::from_utf16_lossy`: decodes UTF-16, and puts the replacement character U+FFFD in
/// place of each surrogate that is not one of a pair.
#[verifier::external_body]
fn decode_utf16_lossy(units: &[u16]) -> (r: String)
    ensures
        r@ == utf16_text(units@),
{
    String::from_utf16_lossy(units)
}

/// The first index at or after `from` that holds `x`, or the length.
pub open spec fn first_equal<T>(s: Seq<T>, x: T, from: int) -> int
    decreases s.len() - from,
{
    if from >= s.len() {
        s.len() as int
    } else if s[from] == x {
        from
    } else {
        first_equal(s, x, from + 1)
    }
}

/// The part of a buffer that the engine filled: as long as it says, without the terminator,
/// or, where it says nothing, up to the first terminator; never more than the buffer.
pub open spec fn filled_part<T>(buffer: Seq<T>, terminator: T, actual_size: u32) -> Seq<T> {
    if actual_size == 0 {
        buffer.take(first_equal(buffer, terminator, 0))
    } else if actual_size - 1 <= buffer.len() {
        buffer.take(actual_size - 1)
    } else {
        buffer
    }
}

/// The text that the engine wrote into a byte buffer, or the error of the call that was to
/// fill it.
pub fn dbgeng_string(fill: Result<(), String>, buffer: &[u8], actual_size: u32) -> (r: Result<
    String,
    String,
>)
    ensures
        r is Ok <==> fill is Ok,
        r is Ok ==> r->Ok_0@ == utf8_lossy(filled_part(buffer@, 0u8, actual_size)),
        r is Ok && vstd::utf8::valid_utf8(filled_part(buffer@, 0u8, actual_size)) ==> r->Ok_0@
            == vstd::utf8::decode_utf8(filled_part(buffer@, 0u8, actual_size)),
        r is Err ==> r->Err_0@ == fill->Err_0@,
{
    match fill {
        Ok(()) => {},
        Err(error) => {
            return Err(error);
        },
    }
    let mut length: usize = 0;
    if actual_size > 0 {
        length = (actual_size - 1) as usize;
    } else {
        while length < buffer.len() && buffer[length] != 0
            invariant
                length <= buffer@.len(),
                first_equal(buffer@, 0u8, 0) == first_equal(buffer@, 0u8, length as int),
            decreases buffer.len() - length,
        {
            length += 1;
        }
    }
    if length > buffer.len() {
        length = buffer.len();
    }
    assert(buffer@.subrange(0, length as int) =~= filled_part(buffer@, 0u8, actual_size));
    Ok(decode_utf8_lossy(vstd::slice::slice_subrange(buffer, 0, length)))
}

/// The text that the engine wrote into a buffer of 16-bit units, or the error of the call
/// that was to fill it.
pub fn dbgeng_wide_string(fill: Result<(), String>, buffer: &[u16], actual_size: u32) -> (r: Result<
    String,
    String,
>)
    ensures
        r is Ok <==> fill is Ok,
        r is Ok ==> r->Ok_0@ == utf16_text(filled_part(buffer@, 0u16, actual_size)),
        r is Err ==> r->Err_0@ == fill->Err_0@,
{
    match fill {
        Ok(()) => {},
        Err(error) => {
            return Err(error);
        },
    }
    let mut length: usize = 0;
    if actual_size > 0 {
        length = (actual_size - 1) as usize;
    } else {
        while length < buffer.len() && buffer[length] != 0
            invariant
                length <= buffer@.len(),
                first_equal(buffer@, 0u16, 0) == first_equal(buffer@, 0u16, length as int),
            decreases buffer.len() - length,
        {
            length += 1;
        }
    }
    if length > buffer.len() {
        length = buffer.len();
    }
    assert(buffer@.subrange(0, length as int) =~= filled_part(buffer@, 0u16, actual_size));
    Ok(decode_utf16_lossy(vstd::slice::slice_subrange(buffer, 0, length)))
}

/// A dump file as the engine lists it: its path, where it could be read, and its type.
pub type DumpFileView = (Option<Seq<char>>, u32);

/// The usable path of a dump file, if it is the base dump.
pub open spec fn base_path(file: DumpFileView) -> Option<Seq<char>> {
    if file.1 == DEBUG_DUMP_FILE_BASE && file.0 is Some {
        target_snapshot::cleaned_path(file.0->0)
    } else {
        None
    }
}

/// The usable path of the first base dump at or after `from`.
pub open spec fn first_base_path(files: Seq<DumpFileView>, from: int) -> Option<Seq<char>>
    decreases files.len() - from,
{
    if from >= files.len() {
        None
    } else if base_path(files[from]) is Some {
        base_path(files[from])
    } else {
        first_base_path(files, from + 1)
    }
}

/// How far a scan of the dump files has come.
pub struct DumpScanView {
    pub next: u32,
    pub count: u32,
    pub found: Option<Seq<char>>,
}

/// Whether a name can stand for a target: it is not empty, and does not say that there is no
/// image.
pub open spec fn is_usable(name: Seq<char>) -> bool {
    name.len() > 0 && name != "?NoImage?"@
}

impl DumpScanView {
    /// A scan goes no further than its files, and what it found is usable.
    pub open spec fn wf(self) -> bool {
        self.next <= self.count && (self.found is Some ==> is_usable(self.found->0))
    }

    /// The index of the file to be read next.
    pub open spec fn wanted(self) -> Option<u32> {
        if self.found is None && self.next < self.count {
            Some(self.next)
        } else {
            None
        }
    }

    /// The scan after the wanted file was read.
    pub open spec fn recorded(self, file: DumpFileView) -> DumpScanView {
        if self.wanted() is Some {
            DumpScanView { next: (self.next + 1) as u32, found: base_path(file), ..self }
        } else {
            self
        }
    }

    /// The scan after it was given the files at and after its next one, one by one.
    pub open spec fn run(self, files: Seq<DumpFileView>) -> DumpScanView
        decreases self.count - self.next,
    {
        if self.wanted() is Some && self.next < files.len() {
            self.recorded(files[self.next as int]).run(files)
        } else {
            self
        }
    }
}

/// The search for the path of the base dump among the dump files of a session, one file at a
/// time: [`DumpFileScan::wanted`] names the file to read, [`DumpFileScan::record`] takes what
/// was read.
pub struct DumpFileScan {
    next: u32,
    count: u32,
    found: Option<String>,
}

impl View for DumpFileScan {
    type V = DumpScanView;

    closed spec fn view(&self) -> DumpScanView {
        DumpScanView { next: self.next, count: self.count, found: text::text_of(self.found) }
    }
}

impl DumpFileScan {
    #[verifier::type_invariant]
    spec fn keeps_wf(self) -> bool {
        self@.wf()
    }

    /// A scan of `count` files of which none has been read.
    pub fn new(count: u32) -> (r: Self)
        ensures
            r@ == (DumpScanView { next: 0, count, found: None }),
            r@.wf(),
    {
        DumpFileScan { next: 0, count, found: None }
    }

    /// The index of the file to be read next; none when the scan is over.
    pub fn wanted(&self) -> (r: Option<u32>)
        ensures
            r == self@.wanted(),
    {
        if self.found.is_none() && self.next < self.count {
            Some(self.next)
        } else {
            None
        }
    }

    /// Takes the path and the type of the wanted file. The path counts only where it could be
    /// read.
    pub fn record(&mut self, path: Result<String, String>, file_type: u32)
        ensures
            final(self)@ == old(self)@.recorded(
                (
                    match path {
                        Ok(path) => Some(path@),
                        Err(_) => None,
                    },
                    file_type,
                ),
            ),
            final(self)@.wf(),
    {
        proof {
            use_type_invariant(&*self);
        }
        if self.found.is_none() && self.next < self.count {
            self.next = self.next + 1;
            if file_type == DEBUG_DUMP_FILE_BASE {
                if let Ok(path) = path {
                    self.found = clean_dbgeng_path(path);
                }
            }
        }
    }

    /// The path of the base dump, where the scan found one.
    pub fn capture_base_dump_file_path(self) -> (r: Option<String>)
        ensures
            text::text_of(r) == self@.found,
            r is Some ==> is_usable(r->0@),
    {
        proof {
            use_type_invariant(&self);
        }
        self.found
    }
}

proof fn lemma_scan_run(v: DumpScanView, files: Seq<DumpFileView>)
    requires
        v.wf(),
        v.count == files.len(),
        v.found is None,
    ensures
        v.run(files).wanted() is None,
        v.run(files).found == first_base_path(files, v.next as int),
    decreases v.count - v.next,
{
    if v.next < v.count {
        let w = v.recorded(files[v.next as int]);
        if w.found is None {
            lemma_scan_run(w, files);
        }
    }
}

/// A scan that is given every file it asks for ends with the path of the first base dump that
/// has a usable one.
pub proof fn scan_finds_the_first_base_dump(files: Seq<DumpFileView>)
    requires
        files.len() <= u32::MAX,
    ensures
        ({
            let start = DumpScanView { next: 0, count: files.len() as u32, found: None };
            &&& start.run(files).wanted() is None
            &&& start.run(files).found == first_base_path(files, 0)
        }),
{
    lemma_scan_run(DumpScanView { next: 0, count: files.len() as u32, found: None }, files);
}

/// The path of a base dump that is found is usable: it is neither empty nor the name of no
/// image.
pub proof fn a_found_dump_path_is_usable(files: Seq<DumpFileView>)
    ensures
        first_base_path(files, 0) is Some ==> is_usable(first_base_path(files, 0)->0),
{
    lemma_found_is_usable(files, 0);
}

proof fn lemma_found_is_usable(files: Seq<DumpFileView>, from: int)
    ensures
        first_base_path(files, from) is Some ==> is_usable(first_base_path(files, from)->0),
    decreases files.len() - from,
{
    if from < files.len() {
        lemma_found_is_usable(files, from + 1);
    }
}

/// The raw answers of the engine: a name is absent where its interface is missing or the call
/// failed.
pub struct DbgEngTargetReads {
    pub debuggee_type: Option<(u32, u32)>,
    pub system_server_name: Option<String>,
    pub process_exe: Option<String>,
    pub process_exe_wide: Option<String>,
    pub module_image: Option<String>,
    /// The scan of the dump files, which are cleaned as they are read.
    pub dump_files: Option<DumpFileScan>,
}

/// A name that the engine gave, as far as it is usable.
pub open spec fn usable(raw: Option<String>) -> Option<Seq<char>> {
    match raw {
        Some(path) => target_snapshot::cleaned_path(path@),
        None => None,
    }
}

/// What raw answers say of the target.
pub open spec fn info_of(reads: DbgEngTargetReads) -> TargetInfoView {
    TargetInfoView {
        debuggee_class: match reads.debuggee_type {
            Some(t) => Some(t.0),
            None => None,
        },
        debuggee_qualifier: match reads.debuggee_type {
            Some(t) => Some(t.1),
            None => None,
        },
        system_server_name: usable(reads.system_server_name),
        process_exe: usable(reads.process_exe),
        process_exe_wide: usable(reads.process_exe_wide),
        module_image: usable(reads.module_image),
        dump_file_path: match reads.dump_files {
            Some(scan) => scan@.found,
            None => None,
        },
    }
}

/// Whether every name in what is known of a target is usable.
pub open spec fn names_are_usable(info: TargetInfoView) -> bool {
    &&& info.system_server_name is Some ==> is_usable(info.system_server_name->0)
    &&& info.process_exe is Some ==> is_usable(info.process_exe->0)
    &&& info.process_exe_wide is Some ==> is_usable(info.process_exe_wide->0)
    &&& info.module_image is Some ==> is_usable(info.module_image->0)
    &&& info.dump_file_path is Some ==> is_usable(info.dump_file_path->0)
}

fn clean(raw: Option<String>) -> (r: Option<String>)
    ensures
        text::text_of(r) == usable(raw),
{
    match raw {
        Some(path) => clean_dbgeng_path(path),
        None => None,
    }
}

/// What the engine's raw answers say of the target, or the error that kept it from being
/// asked.
pub fn capture_dbgeng_api_target_info(reads: Result<DbgEngTargetReads, String>) -> (r: Result<
    DbgEngApiTargetInfo,
    String,
>)
    ensures
        r is Ok <==> reads is Ok,
        r is Ok ==> r->Ok_0@ == info_of(reads->Ok_0),
        r is Ok ==> names_are_usable(r->Ok_0@),
        r is Err ==> r->Err_0@ == reads->Err_0@,
{
    match reads {
        Ok(reads) => {
            let (debuggee_class, debuggee_qualifier) = match reads.debuggee_type {
                Some((class, qualifier)) => (Some(class), Some(qualifier)),
                None => (None, None),
            };
            let dump_file_path = match reads.dump_files {
                Some(scan) => scan.capture_base_dump_file_path(),
                None => None,
            };
            Ok(
                DbgEngApiTargetInfo {
                    debuggee_class,
                    debuggee_qualifier,
                    system_server_name: clean(reads.system_server_name),
                    process_exe: clean(reads.process_exe),
                    process_exe_wide: clean(reads.process_exe_wide),
                    module_image: clean(reads.module_image),
                    dump_file_path,
                },
            )
        },
        Err(error) => Err(error),
    }
}

/// The snapshot of the current target, from the time and the engine's answers. A clock that
/// fails counts as zero; without answers there is no snapshot.
pub fn capture_current_target_snapshot(
    now: Result<u64, String>,
    info: Result<DbgEngApiTargetInfo, String>,
) -> (r: Option<CurrentTargetSnapshot>)
    ensures
        r is Some <==> info is Ok && target_snapshot::reports_target(info->Ok_0@),
        r is Some ==> r->0@ == target_snapshot::snapshot_of(
            info->Ok_0@,
            if now is Ok {
                now->Ok_0
            } else {
                0
            },
        ),
{
    let updated_unix_ms: u64 = match now {
        Ok(now) => now,
        Err(_) => 0,
    };
    match info {
        Ok(info) => build_current_target_snapshot(info, updated_unix_ms),
        Err(_) => None,
    }
}

/// What the engine wrote into a buffer is read to its end, whatever stands behind it: where
/// the engine tells the size, with the terminator, and where it tells none, up to the
/// terminator. A size that the buffer does not have is that of the buffer.
pub proof fn a_buffer_is_read_to_the_end_of_its_text<T>(
    text: Seq<T>,
    terminator: T,
    behind: Seq<T>,
    actual_size: u32,
)
    requires
        forall|i: int| 0 <= i < text.len() ==> (#[trigger] text[i]) != terminator,
    ensures
        filled_part(text + seq![terminator] + behind, terminator, 0) == text,
        filled_part(text, terminator, 0) == text,
        actual_size == text.len() + 1 ==> filled_part(
            text + seq![terminator] + behind,
            terminator,
            actual_size,
        ) == text,
        actual_size > text.len() + 1 ==> filled_part(text, terminator, actual_size) == text,
{
    let buffer = text + seq![terminator] + behind;
    lemma_first_equal(buffer, terminator, 0, text.len() as int);
    assert(buffer.take(text.len() as int) =~= text);
    lemma_first_equal(text, terminator, 0, text.len() as int);
    assert(text.take(text.len() as int) =~= text);
}

proof fn lemma_first_equal<T>(s: Seq<T>, x: T, from: int, at: int)
    requires
        0 <= from <= at <= s.len(),
        at < s.len() ==> s[at] == x,
        forall|i: int| from <= i < at ==> (#[trigger] s[i]) != x,
    ensures
        first_equal(s, x, from) == at,
    decreases at - from,
{
    if from < at {
        assert(s[from] != x);
        lemma_first_equal(s, x, from + 1, at);
    }
}

/// A character as UTF-16 spells it.
pub open spec fn utf16_units(c: char) -> Seq<u16> {
    if (c as u32) < 0x1_0000 {
        seq![c as u16]
    } else {
        seq![
            (0xd800 + (c as u32 - 0x1_0000) / 0x400) as u16,
            (0xdc00 + (c as u32 - 0x1_0000) % 0x400) as u16,
        ]
    }
}

pub open spec fn utf16_spelling(s: Seq<char>) -> Seq<u16>
    decreases s.len(),
{
    if s.len() == 0 {
        Seq::empty()
    } else {
        utf16_units(s[0]) + utf16_spelling(s.drop_first())
    }
}

/// Text that is spelled in UTF-16 is read back as it was.
pub proof fn spelled_text_is_read_back(s: Seq<char>)
    ensures
        utf16_text(utf16_spelling(s)) == s,
    decreases s.len(),
{
    if s.len() > 0 {
        spelled_text_is_read_back(s.drop_first());
        lemma_character_is_read_back(s[0], utf16_spelling(s.drop_first()));
        assert(s =~= seq![s[0]] + s.drop_first());
    } else {
        assert(s =~= Seq::empty());
    }
}

proof fn lemma_character_is_read_back(c: char, rest: Seq<u16>)
    ensures
        utf16_text(utf16_units(c) + rest) == seq![c] + utf16_text(rest),
{
    let units = utf16_units(c) + rest;
    if (c as u32) < 0x1_0000 {
        assert(units.skip(1) =~= rest);
        assert(units[0] as char == c);
    } else {
        let n = (c as u32 - 0x1_0000) as u32;
        assert(n < 0x10_0000);
        assert(units.skip(2) =~= rest);
        assert(units[0] == 0xd800 + n / 0x400);
        assert(units[1] == 0xdc00 + n % 0x400);
    }
}

/// Each surrogate that is not one of a pair is read as the replacement character, and spoils
/// nothing behind it.
pub proof fn a_lone_surrogate_is_replaced(lone: u16, rest: Seq<u16>)
    requires
        0xd800 <= lone <= 0xdfff,
        lone <= 0xdbff ==> rest.len() == 0 || !(0xdc00 <= rest[0] <= 0xdfff),
    ensures
        utf16_text(seq![lone] + rest) == seq!['\u{fffd}'] + utf16_text(rest),
{
    let units = seq![lone] + rest;
    assert(units.skip(1) =~= rest);
    assert(rest.len() > 0 ==> units[1] == rest[0]);
}

/// The kind of a target from the raw answers of the engine: the first number of its type is
/// the class and the second the qualifier. Unless a name or a path ends as that of a dump does,
/// a kernel is a kernel whatever its qualifier is, a user process is a dump where its
/// qualifier says so, and an image file is a dump.
pub proof fn the_raw_type_tells_the_kind(reads: DbgEngTargetReads, updated_unix_ms: u64)
    requires
        reads.debuggee_type is Some,
        info_of(reads).dump_file_path is Some ==> !target_snapshot::is_dump_path(
            info_of(reads).dump_file_path->0,
        ),
        target_snapshot::target_name(info_of(reads)) is Some ==> !target_snapshot::is_dump_path(
            target_snapshot::target_name(info_of(reads))->0,
        ),
    ensures
        ({
            let kind = target_snapshot::snapshot_of(info_of(reads), updated_unix_ms).kind;
            let (class, qualifier) = reads.debuggee_type->0;
            &&& target_snapshot::reports_target(info_of(reads))
            &&& class == 1 ==> kind == "kernel"@
            &&& class == 2 ==> kind == (if qualifier == 1024 || qualifier == 1025 || qualifier
                == 1029 {
                "dump"@
            } else {
                "user"@
            })
            &&& class == 3 ==> kind == "dump"@
        }),
{
    let (_, qualifier) = reads.debuggee_type->0;
    target_snapshot::the_class_tells_the_kind(
        Some(qualifier),
        if info_of(reads).dump_file_path is Some {
            info_of(reads).dump_file_path
        } else {
            target_snapshot::target_name(info_of(reads))
        },
    );
}

/// Each name in what is known of a target is the engine's own answer of that name, cleaned;
/// an answer that is missing leaves its name, and no other, unknown.
pub proof fn each_name_is_the_answer_of_that_name(reads: DbgEngTargetReads)
    ensures
        ({
            let info = info_of(reads);
            &&& info.system_server_name == (match reads.system_server_name {
                Some(raw) => target_snapshot::cleaned_path(raw@),
                None => None,
            })
            &&& info.process_exe == (match reads.process_exe {
                Some(raw) => target_snapshot::cleaned_path(raw@),
                None => None,
            })
            &&& info.process_exe_wide == (match reads.process_exe_wide {
                Some(raw) => target_snapshot::cleaned_path(raw@),
                None => None,
            })
            &&& info.module_image == (match reads.module_image {
                Some(raw) => target_snapshot::cleaned_path(raw@),
                None => None,
            })
            &&& reads.dump_files is None ==> info.dump_file_path is None
            &&& reads.dump_files is Some ==> info.dump_file_path == reads.dump_files->0@.found
            &&& reads.debuggee_type is None ==> info.debuggee_class is None
                && info.debuggee_qualifier is None
            &&& reads.debuggee_type is Some ==> Some(reads.debuggee_type->0) == Some(
                (info.debuggee_class->0, info.debuggee_qualifier->0),
            ) && info.debuggee_class is Some && info.debuggee_qualifier is Some
        }),
{
}

/// Only a base dump is found: a file of another type, or one whose path cannot be read or used,
/// is passed over, and the first that remains decides.
pub proof fn only_a_base_dump_is_found(before: Seq<DumpFileView>, path: Seq<char>, after: Seq<
    DumpFileView,
>)
    requires
        forall|i: int|
            0 <= i < before.len() ==> (#[trigger] before[i]).1 != 0xffff_ffff || before[i].0 is None
                || target_snapshot::cleaned_path(before[i].0->0) is None,
        target_snapshot::cleaned_path(path) is Some,
    ensures
        first_base_path(before + seq![(Some(path), 0xffff_ffffu32)] + after, 0)
            == target_snapshot::cleaned_path(path),
        first_base_path(before, 0) is None,
{
    let files = before + seq![(Some(path), 0xffff_ffffu32)] + after;
    assert(files.take(before.len() as int) =~= before);
    lemma_passed_over(before, files, 0);
}

proof fn lemma_passed_over(before: Seq<DumpFileView>, files: Seq<DumpFileView>, from: int)
    requires
        0 <= from <= before.len() < files.len(),
        forall|i: int| 0 <= i < before.len() ==> base_path(#[trigger] before[i]) is None,
        files.take(before.len() as int) == before,
        base_path(files[before.len() as int]) is Some,
    ensures
        first_base_path(files, from) == base_path(files[before.len() as int]),
        first_base_path(before, from) is None,
    decreases before.len() - from,
{
    if from < before.len() {
        assert(files[from] == files.take(before.len() as int)[from]);
        assert(base_path(before[from]) is None);
        lemma_passed_over(before, files, from + 1);
    }
}

} // verus!
