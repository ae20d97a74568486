//! The instance registry: the files in which each running instance tells its endpoint and
//! its target, how they are named, and which of them a clean-up removes.

use vstd::prelude::*;

use crate::text;
use crate::text::{all_digits, order, same, without_prefix, without_suffix, TextOrder};

verus! {

/// The directory below the user's local application data that the extension keeps its files
/// in.
pub const APPLICATION_DIRECTORY: &'static str = "windbg-mcp-rs";

/// The directory below [`APPLICATION_DIRECTORY`] that holds the registry.
pub const INSTANCES_DIRECTORY: &'static str = "instances";

/// A directory: a base, and the directories that lead on from there.
pub struct DirectoryPath<P> {
    pub base: P,
    pub below: Vec<&'static str>,
}

/// The names of the directories below a base.
pub open spec fn names(below: Seq<&'static str>) -> Seq<Seq<char>> {
    below.map_values(|name: &'static str| name@)
}

/// The base of the files of the extension: the user's local application data, or, where that
/// is not known, the directory for temporary files.
pub open spec fn base_directory<P>(local_app_data: Option<P>, temp_dir: P) -> P {
    match local_app_data {
        Some(directory) => directory,
        None => temp_dir,
    }
}

/// The directory that the extension keeps its files in.
pub fn instance_registry_root_directory<P>(local_app_data: Option<P>, temp_dir: P) -> (r:
    DirectoryPath<P>)
    ensures
        r.base == base_directory(local_app_data, temp_dir),
        names(r.below@) == seq![APPLICATION_DIRECTORY@],
{
    let base = match local_app_data {
        Some(directory) => directory,
        None => temp_dir,
    };
    let below = vec![APPLICATION_DIRECTORY];
    assert(names(below@) =~= seq![APPLICATION_DIRECTORY@]);
    DirectoryPath { base, below }
}

/// The directory that holds the registry.
pub fn instance_registry_directory<P>(local_app_data: Option<P>, temp_dir: P) -> (r: DirectoryPath<
    P,
>)
    ensures
        r.base == base_directory(local_app_data, temp_dir),
        names(r.below@) == seq![APPLICATION_DIRECTORY@, INSTANCES_DIRECTORY@],
{
    let root = instance_registry_root_directory(local_app_data, temp_dir);
    let mut below = root.below;
    let ghost before = below@;
    below.push(INSTANCES_DIRECTORY);
    assert(names(below@) =~= names(before).push(INSTANCES_DIRECTORY@));
    assert(names(below@) =~= seq![APPLICATION_DIRECTORY@, INSTANCES_DIRECTORY@]);
    DirectoryPath { base: root.base, below }
}

/// The name by which clients know an architecture.
pub open spec fn arch_name(target_arch: Seq<char>) -> Seq<char> {
    if target_arch == "x86"@ {
        "x86"@
    } else if target_arch == "x86_64"@ {
        "x64"@
    } else if target_arch == "aarch64"@ {
        "arm64"@
    } else {
        "unknown"@
    }
}

/// The name by which clients know an architecture.
pub fn normalize_host_arch(target_arch: &str) -> (r: &'static str)
    ensures
        r@ == arch_name(target_arch@),
{
    if same(target_arch, "x86") {
        "x86"
    } else if same(target_arch, "x86_64") {
        "x64"
    } else if same(target_arch, "aarch64") {
        "arm64"
    } else {
        "unknown"
    }
}

/// `instance-` and the number of a process.
pub open spec fn is_stem(stem: Seq<char>) -> bool {
    text::starts_with(stem, "instance-"@) && text::is_number(stem.skip("instance-"@.len() as int))
}

/// A file name without the first of the registry's suffixes that it ends with.
pub open spec fn without_registry_suffix(name: Seq<char>) -> Option<Seq<char>> {
    if text::ends_with(name, ".json.tmp"@) {
        Some(name.take(name.len() - ".json.tmp"@.len()))
    } else if text::ends_with(name, ".json"@) {
        Some(name.take(name.len() - ".json"@.len()))
    } else if text::ends_with(name, ".lock"@) {
        Some(name.take(name.len() - ".lock"@.len()))
    } else {
        None
    }
}

/// The stem of a file of the registry: of the payload, the lock or the temporary file of an
/// instance.
pub open spec fn registry_stem(name: Seq<char>) -> Option<Seq<char>> {
    match without_registry_suffix(name) {
        Some(stem) => if is_stem(stem) {
            Some(stem)
        } else {
            None
        },
        None => None,
    }
}

/// The stem of a file of the registry; none for any other file.
pub fn instance_registry_stem(name: &str) -> (r: Option<&str>)
    ensures
        text::text_ref(r) == registry_stem(name@),
{
    let stem = match without_suffix(name, ".json.tmp") {
        Some(stem) => stem,
        None => match without_suffix(name, ".json") {
            Some(stem) => stem,
            None => match without_suffix(name, ".lock") {
                Some(stem) => stem,
                None => {
                    return None;
                },
            },
        },
    };
    match without_prefix(stem, "instance-") {
        Some(pid) => if all_digits(pid) {
            Some(stem)
        } else {
            None
        },
        None => None,
    }
}

/// The file that a payload is written to before it takes the place of the old one.
pub fn registry_temp_path(path: &str) -> (r: String)
    ensures
        r@ == path@ + ".tmp"@,
{
    path.to_owned().concat(".tmp")
}

/// A path in 16-bit units, with the terminator that Windows expects.
pub fn nul_terminated_wide_path(units: Vec<u16>) -> (r: Vec<u16>)
    ensures
        r@ == units@.push(0),
{
    let mut units = units;
    units.push(0);
    units
}

/// The names of the three files of an instance.
pub struct RegistryFiles {
    pub payload: String,
    pub lock: String,
    pub temp: String,
}

/// The names of the files of the instance with this stem.
pub fn registry_files(stem: &str) -> (r: RegistryFiles)
    ensures
        r.payload@ == stem@ + ".json"@,
        r.lock@ == stem@ + ".lock"@,
        r.temp@ == stem@ + ".json"@ + ".tmp"@,
        is_stem(stem@) ==> registry_stem(r.payload@) == Some(stem@) && registry_stem(r.lock@)
            == Some(stem@) && registry_stem(r.temp@) == Some(stem@),
{
    proof {
        a_stem_is_that_of_its_files(stem@ + ".json"@, stem@);
        a_stem_is_that_of_its_files(stem@ + ".lock"@, stem@);
        a_stem_is_that_of_its_files(stem@ + ".json"@ + ".tmp"@, stem@);
    }
    let payload = stem.to_owned().concat(".json");
    let temp = registry_temp_path(payload.as_str());
    RegistryFiles { payload, lock: stem.to_owned().concat(".lock"), temp }
}

/// The stem of the instance in a process.
pub fn instance_stem(pid: u32) -> (r: String)
    ensures
        r@ == "instance-"@ + text::decimal(pid as nat),
        is_stem(r@),
        text::number_of(r@.skip(9)) == pid,
{
    proof {
        every_process_has_a_stem(pid);
        text::digits_read_as_their_number(pid as nat);
        reveal_strlit("instance-");
        assert(("instance-"@ + text::decimal(pid as nat)).skip(9) =~= text::decimal(pid as nat));
    }
    "instance-".to_owned().concat(text::decimal_text(pid as u64).as_str())
}

/// What a reading of the registry's directory gave: the names of its entries, where they are
/// valid text.
pub enum DirectoryRead {
    Missing,
    Failed(String),
    Entries(Vec<Option<String>>),
}

/// Strictly ascending in dictionary order.
pub open spec fn ascending(stems: Seq<Seq<char>>) -> bool {
    forall|i: int, j: int|
        0 <= i < j < stems.len() ==> text::precedes(#[trigger] stems[i], #[trigger] stems[j])
}

/// Some entry among the first `n` has this stem.
pub open spec fn has_stem(entries: Seq<Option<String>>, n: int, stem: Seq<char>) -> bool {
    exists|i: int|
        0 <= i < n && (#[trigger] entries[i]) is Some && registry_stem(entries[i]->0@) == Some(stem)
}

proof fn lemma_insert_ascending(stems: Seq<Seq<char>>, at: int, stem: Seq<char>)
    requires
        ascending(stems),
        0 <= at <= stems.len(),
        forall|i: int| 0 <= i < at ==> text::precedes(#[trigger] stems[i], stem),
        at < stems.len() ==> text::precedes(stem, stems[at]),
    ensures
        ascending(stems.insert(at, stem)),
{
    let new = stems.insert(at, stem);
    assert forall|i: int, j: int| 0 <= i < j < new.len() implies text::precedes(
        #[trigger] new[i],
        #[trigger] new[j],
    ) by {
        if i == at && j > at + 1 {
            text::lemma_precedes_transitive(stem, stems[at], stems[j - 1]);
        }
    }
}

/// Adds a stem in its place, unless it is there.
fn insert_stem(stems: &mut Vec<String>, stem: &str)
    requires
        ascending(text::texts(old(stems)@)),
    ensures
        ascending(text::texts(final(stems)@)),
        forall|t: Seq<char>|
            #![auto]
            text::texts(final(stems)@).contains(t) <==> text::texts(old(stems)@).contains(t) || t
                == stem@,
{
    let ghost before = text::texts(stems@);
    let mut i: usize = 0;
    while i < stems.len()
        invariant
            i <= stems@.len(),
            before == text::texts(stems@),
            before == text::texts(old(stems)@),
            ascending(before),
            forall|j: int| 0 <= j < i ==> text::precedes(#[trigger] before[j], stem@),
        ensures
            i < stems@.len() ==> text::precedes(stem@, before[i as int]),
        decreases stems.len() - i,
    {
        assert(before[i as int] == stems@[i as int]@);
        match order(stems[i].as_str(), stem) {
            TextOrder::Before => {},
            TextOrder::Same => {
                return ;
            },
            TextOrder::After => {
                proof {
                    text::lemma_precedes_total(before[i as int], stem@);
                }
                break;
            },
        }
        i += 1;
    }
    proof {
        lemma_insert_ascending(before, i as int, stem@);
    }
    let owned = stem.to_owned();
    stems.insert(i, owned);
    proof {
        let after = text::texts(stems@);
        assert(after =~= before.insert(i as int, stem@));
        assert forall|t: Seq<char>| #![auto] after.contains(t) <==> before.contains(t) || t
            == stem@ by {
            if before.contains(t) {
                let k = choose|k: int| 0 <= k < before.len() && before[k] == t;
                if k < i {
                    assert(after[k] == t);
                } else {
                    assert(after[k + 1] == t);
                }
            }
            if t == stem@ {
                assert(after[i as int] == t);
            }
            if after.contains(t) && t != stem@ {
                let k = choose|k: int| 0 <= k < after.len() && after[k] == t;
                if k < i {
                    assert(before[k] == t);
                } else {
                    assert(before[k - 1] == t);
                }
            }
        }
    }
}

/// The stems of the instances whose files a directory holds, each once and in order. A
/// directory that is not there holds none; one that cannot be read is an error.
pub fn instance_stems(read: DirectoryRead) -> (r: Result<Vec<String>, String>)
    ensures
        r is Err <==> read is Failed,
        r is Err ==> r->Err_0@ == read->Failed_0@,
        read is Missing ==> r->Ok_0@.len() == 0,
        read is Entries ==> ascending(text::texts(r->Ok_0@)),
        read is Entries ==> forall|t: Seq<char>|
            #![auto]
            text::texts(r->Ok_0@).contains(t) <==> has_stem(
                read->Entries_0@,
                read->Entries_0@.len() as int,
                t,
            ),
{
    let entries = match read {
        DirectoryRead::Missing => {
            return Ok(Vec::new());
        },
        DirectoryRead::Failed(error) => {
            return Err(error);
        },
        DirectoryRead::Entries(entries) => entries,
    };
    let mut stems: Vec<String> = Vec::new();
    let mut i: usize = 0;
    assert(text::texts(stems@) =~= Seq::<Seq<char>>::empty());
    while i < entries.len()
        invariant
            i <= entries@.len(),
            ascending(text::texts(stems@)),
            forall|t: Seq<char>|
                #![auto]
                text::texts(stems@).contains(t) <==> has_stem(entries@, i as int, t),
        decreases entries.len() - i,
    {
        let ghost known = text::texts(stems@);
        if let Some(name) = &entries[i] {
            if let Some(stem) = instance_registry_stem(name.as_str()) {
                insert_stem(&mut stems, stem);
            }
        }
        proof {
            let now = text::texts(stems@);
            let own = if entries@[i as int] is Some {
                registry_stem(entries@[i as int]->0@)
            } else {
                None
            };
            assert forall|t: Seq<char>| #![auto] now.contains(t) <==> has_stem(
                entries@,
                i + 1,
                t,
            ) by {
                assert(known.contains(t) <==> has_stem(entries@, i as int, t));
                if has_stem(entries@, i + 1, t) {
                    let k = choose|k: int|
                        0 <= k < i + 1 && (#[trigger] entries@[k]) is Some && registry_stem(
                            entries@[k]->0@,
                        ) == Some(t);
                    if k < i {
                        assert(has_stem(entries@, i as int, t));
                    }
                }
                if has_stem(entries@, i as int, t) {
                    let k = choose|k: int|
                        0 <= k < i && (#[trigger] entries@[k]) is Some && registry_stem(
                            entries@[k]->0@,
                        ) == Some(t);
                    assert(has_stem(entries@, i + 1, t));
                }
                if own == Some(t) {
                    assert(has_stem(entries@, i + 1, t));
                }
            }
        }
        i += 1;
    }
    Ok(stems)
}

/// How the removal of a file ended.
#[derive(Debug, Clone, Copy, PartialEq, Eq, Structural)]
pub enum RemoveOutcome {
    Removed,
    Missing,
    /// Another process holds the file.
    InUse,
    Failed,
}

/// The next file of an instance that a clean-up tries to remove.
#[derive(Debug, Clone, Copy, PartialEq, Eq, Structural)]
pub enum StaleStep {
    Lock,
    Payload,
    /// The payload of an instance that has no lock.
    OrphanPayload,
    Temp,
    Done,
}

/// What a clean-up does after it tried one file. Only a lock that is gone, because it was
/// removed or was never there, gives the other files free.
pub open spec fn stale_next(step: StaleStep, outcome: RemoveOutcome) -> StaleStep {
    match step {
        StaleStep::Lock => match outcome {
            RemoveOutcome::Removed => StaleStep::Payload,
            RemoveOutcome::Missing => StaleStep::OrphanPayload,
            _ => StaleStep::Done,
        },
        StaleStep::Payload => StaleStep::Temp,
        StaleStep::OrphanPayload => match outcome {
            RemoveOutcome::Removed | RemoveOutcome::Missing => StaleStep::Temp,
            _ => StaleStep::Done,
        },
        StaleStep::Temp => StaleStep::Done,
        StaleStep::Done => StaleStep::Done,
    }
}

/// The file that a step is about.
pub open spec fn stale_file(step: StaleStep, stem: Seq<char>) -> Option<Seq<char>> {
    match step {
        StaleStep::Lock => Some(stem + ".lock"@),
        StaleStep::Payload | StaleStep::OrphanPayload => Some(stem + ".json"@),
        StaleStep::Temp => Some(stem + ".json"@ + ".tmp"@),
        StaleStep::Done => None,
    }
}

/// The instance that a clean-up is about, and the step that it has come to.
pub struct StaleView {
    pub stem: Seq<char>,
    pub step: StaleStep,
}

impl StaleView {
    /// A clean-up begins with the lock.
    pub open spec fn begun(stem: Seq<char>) -> StaleView {
        StaleView { stem, step: StaleStep::Lock }
    }

    /// The file to be removed next.
    pub open spec fn file(self) -> Option<Seq<char>> {
        stale_file(self.step, self.stem)
    }

    /// The clean-up after it tried that file.
    pub open spec fn after(self, outcome: RemoveOutcome) -> StaleView {
        StaleView { step: stale_next(self.step, outcome), ..self }
    }

    /// The files that a clean-up tries to remove, when the removals end as given.
    pub open spec fn tried(self, outcomes: Seq<RemoveOutcome>) -> Seq<Seq<char>>
        decreases outcomes.len(),
    {
        if outcomes.len() == 0 {
            Seq::empty()
        } else {
            match self.file() {
                Some(file) => seq![file] + self.after(outcomes.first()).tried(
                    outcomes.drop_first(),
                ),
                None => Seq::empty(),
            }
        }
    }
}

/// The clean-up after one instance: [`StaleCleanup::file`] names the file to remove,
/// [`StaleCleanup::advance`] takes how that ended.
pub struct StaleCleanup {
    stem: String,
    step: StaleStep,
}

impl View for StaleCleanup {
    type V = StaleView;

    closed spec fn view(&self) -> StaleView {
        StaleView { stem: self.stem@, step: self.step }
    }
}

impl StaleCleanup {
    /// A clean-up of which nothing is done. It begins with the lock.
    pub fn new(stem: String) -> (r: Self)
        ensures
            r@ == StaleView::begun(stem@),
    {
        StaleCleanup { stem, step: StaleStep::Lock }
    }

    /// The name of the file to remove next; none when the clean-up is done.
    pub fn file(&self) -> (r: Option<String>)
        ensures
            text::text_of(r) == self@.file(),
    {
        let files = registry_files(self.stem.as_str());
        match self.step {
            StaleStep::Lock => Some(files.lock),
            StaleStep::Payload | StaleStep::OrphanPayload => Some(files.payload),
            StaleStep::Temp => Some(files.temp),
            StaleStep::Done => None,
        }
    }

    /// Takes how the removal of that file ended.
    pub fn advance(&mut self, outcome: RemoveOutcome)
        ensures
            final(self)@ == old(self)@.after(outcome),
    {
        self.step =
        match self.step {
            StaleStep::Lock => match outcome {
                RemoveOutcome::Removed => StaleStep::Payload,
                RemoveOutcome::Missing => StaleStep::OrphanPayload,
                RemoveOutcome::InUse | RemoveOutcome::Failed => StaleStep::Done,
            },
            StaleStep::Payload => StaleStep::Temp,
            StaleStep::OrphanPayload => match outcome {
                RemoveOutcome::Removed | RemoveOutcome::Missing => StaleStep::Temp,
                RemoveOutcome::InUse | RemoveOutcome::Failed => StaleStep::Done,
            },
            StaleStep::Temp => StaleStep::Done,
            StaleStep::Done => StaleStep::Done,
        };
    }
}

/// A lock that is held, or that cannot be removed for another reason, keeps the clean-up from
/// every other file of the instance.
pub proof fn a_held_lock_protects_the_instance(stem: Seq<char>, outcomes: Seq<RemoveOutcome>)
    requires
        outcomes.len() > 0,
        outcomes[0] != RemoveOutcome::Removed,
        outcomes[0] != RemoveOutcome::Missing,
    ensures
        StaleView::begun(stem).tried(outcomes) =~= seq![stem + ".lock"@],
{
    reveal_with_fuel(StaleView::tried, 2);
}

/// When the lock could be removed, the clean-up goes on to both other files, whatever comes of
/// either; and so it does for an instance without a lock, unless its payload cannot be
/// removed.
pub proof fn a_stale_instance_is_removed_whole(
    stem: Seq<char>,
    payload: RemoveOutcome,
    temp: RemoveOutcome,
)
    ensures
        ({
            let whole = seq![stem + ".lock"@, stem + ".json"@, stem + ".json"@ + ".tmp"@];
            let begun = StaleView::begun(stem);
            let orphan = seq![RemoveOutcome::Missing, payload, temp];
            &&& begun.tried(seq![RemoveOutcome::Removed, payload, temp]) =~= whole
            &&& payload == RemoveOutcome::Removed || payload == RemoveOutcome::Missing
                ==> begun.tried(orphan) =~= whole
            &&& payload == RemoveOutcome::InUse || payload == RemoveOutcome::Failed
                ==> begun.tried(orphan) =~= whole.take(2)
        }),
{
    reveal_with_fuel(StaleView::tried, 4);
    let removed = seq![RemoveOutcome::Removed, payload, temp];
    let missing = seq![RemoveOutcome::Missing, payload, temp];
    assert(removed.drop_first() =~= seq![payload, temp]);
    assert(missing.drop_first() =~= seq![payload, temp]);
    assert(seq![payload, temp].drop_first() =~= seq![temp]);
}

/// A clean-up tries the lock before any other file, and touches the files of its own instance
/// alone.
pub proof fn a_clean_up_stays_with_its_instance(stem: Seq<char>, outcomes: Seq<RemoveOutcome>)
    ensures
        ({
            let tried = StaleView::begun(stem).tried(outcomes);
            &&& outcomes.len() > 0 ==> tried.len() > 0 && tried[0] == stem + ".lock"@
            &&& forall|i: int| 0 <= i < tried.len() ==> is_file_of(#[trigger] tried[i], stem)
        }),
{
    lemma_tried(StaleView::begun(stem), outcomes);
}

proof fn lemma_tried(cleanup: StaleView, outcomes: Seq<RemoveOutcome>)
    ensures
        forall|i: int|
            0 <= i < cleanup.tried(outcomes).len() ==> is_file_of(
                #[trigger] cleanup.tried(outcomes)[i],
                cleanup.stem,
            ),
    decreases outcomes.len(),
{
    if outcomes.len() > 0 && cleanup.file() is Some {
        let next = cleanup.after(outcomes.first());
        let rest = outcomes.drop_first();
        lemma_tried(next, rest);
        assert forall|i: int| 0 <= i < cleanup.tried(outcomes).len() implies is_file_of(
            #[trigger] cleanup.tried(outcomes)[i],
            cleanup.stem,
        ) by {
            if i > 0 {
                assert(cleanup.tried(outcomes)[i] == next.tried(rest)[i - 1]);
            }
        }
    }
}

/// Whether a file is one of the three of an instance.
pub open spec fn is_file_of(name: Seq<char>, stem: Seq<char>) -> bool {
    ||| name == stem + ".json"@
    ||| name == stem + ".lock"@
    ||| name == stem + ".json"@ + ".tmp"@
}

/// The files that a clean-up takes for those of an instance are its three files, and nothing
/// else: a file belongs to a stem if and only if it is one of them.
pub proof fn a_stem_is_that_of_its_files(name: Seq<char>, stem: Seq<char>)
    ensures
        registry_stem(name) == Some(stem) <==> is_stem(stem) && is_file_of(name, stem),
{
    lemma_suffixes();
    if is_file_of(name, stem) {
        if name == stem + ".json"@ + ".tmp"@ {
            assert(stem + ".json"@ + ".tmp"@ =~= stem + ".json.tmp"@);
            lemma_suffix(stem, ".json.tmp"@);
        } else if name == stem + ".json"@ {
            lemma_suffix(stem, ".json"@);
            assert(name.last() == 'n');
            if text::ends_with(name, ".json.tmp"@) {
                assert(name.subrange(name.len() - 9, name.len() as int).last() == name.last());
            }
        } else {
            lemma_suffix(stem, ".lock"@);
            assert(name.last() == 'k');
            if text::ends_with(name, ".json.tmp"@) {
                assert(name.subrange(name.len() - 9, name.len() as int).last() == name.last());
            }
            if text::ends_with(name, ".json"@) {
                assert(name.subrange(name.len() - 5, name.len() as int).last() == name.last());
            }
        }
    }
    if registry_stem(name) == Some(stem) {
        if text::ends_with(name, ".json.tmp"@) {
            assert(name =~= stem + ".json.tmp"@);
            assert(stem + ".json"@ + ".tmp"@ =~= stem + ".json.tmp"@);
        } else if text::ends_with(name, ".json"@) {
            assert(name =~= stem + ".json"@);
        } else {
            assert(name =~= stem + ".lock"@);
        }
    }
}

proof fn lemma_suffixes()
    ensures
        ".json.tmp"@ == ".json"@ + ".tmp"@,
        ".json.tmp"@.len() == 9,
        ".json.tmp"@.last() == 'p',
        ".json"@.len() == 5,
        ".json"@.last() == 'n',
        ".lock"@.len() == 5,
        ".lock"@.last() == 'k',
{
    reveal_strlit(".json.tmp");
    reveal_strlit(".json");
    reveal_strlit(".tmp");
    reveal_strlit(".lock");
    assert(".json.tmp"@ =~= ".json"@ + ".tmp"@);
}

proof fn lemma_suffix(stem: Seq<char>, suffix: Seq<char>)
    ensures
        text::ends_with(stem + suffix, suffix),
        (stem + suffix).take((stem + suffix).len() - suffix.len()) == stem,
{
    let name = stem + suffix;
    assert(name.subrange(name.len() - suffix.len(), name.len() as int) =~= suffix);
    assert(name.take(name.len() - suffix.len()) =~= stem);
}

/// The number of every process makes a stem, so that what an instance leaves behind can be
/// found.
pub proof fn every_process_has_a_stem(pid: u32)
    ensures
        is_stem("instance-"@ + text::decimal(pid as nat)),
{
    let prefix = "instance-"@;
    let stem = prefix + text::decimal(pid as nat);
    text::lemma_decimal_is_number(pid as nat);
    assert(stem.subrange(0, prefix.len() as int) =~= prefix);
    assert(stem.skip(prefix.len() as int) =~= text::decimal(pid as nat));
}

/// A stem is `instance-` and at least one digit behind it, and nothing else.
pub proof fn a_stem_names_a_process(stem: Seq<char>, number: Seq<char>)
    ensures
        is_stem("instance-"@ + number) <==> number.len() > 0 && forall|i: int|
            0 <= i < number.len() ==> '0' <= #[trigger] number[i] <= '9',
        is_stem(stem) ==> stem.len() > 9 && stem == "instance-"@ + stem.skip(9),
{
    reveal_strlit("instance-");
    let prefix = "instance-"@;
    let whole = prefix + number;
    assert(whole.subrange(0, 9) =~= prefix);
    assert(whole.skip(9) =~= number);
    assert((forall|i: int| 0 <= i < number.len() ==> '0' <= #[trigger] number[i] <= '9') ==> (
    forall|i: int| 0 <= i < number.len() ==> text::is_digit(#[trigger] number[i])));
    assert((forall|i: int| 0 <= i < number.len() ==> text::is_digit(#[trigger] number[i])) ==> (
    forall|i: int| 0 <= i < number.len() ==> '0' <= #[trigger] number[i] <= '9'));
    if is_stem(stem) {
        assert(stem.subrange(0, 9) == prefix);
        assert(stem =~= stem.subrange(0, 9) + stem.skip(9));
    }
}

/// The three files of an instance are known by its process again, and no other suffix is.
pub proof fn the_files_of_a_process_are_found(pid: u32, suffix: Seq<char>)
    ensures
        ({
            let stem = "instance-"@ + text::decimal(pid as nat);
            &&& registry_stem(stem + ".json"@) == Some(stem)
            &&& registry_stem(stem + ".lock"@) == Some(stem)
            &&& registry_stem(stem + ".json.tmp"@) == Some(stem)
            &&& suffix != ".json"@ && suffix != ".lock"@ && suffix != ".json.tmp"@
                ==> registry_stem(stem + suffix) != Some(stem)
        }),
{
    let stem = "instance-"@ + text::decimal(pid as nat);
    every_process_has_a_stem(pid);
    lemma_suffixes();
    assert(stem + ".json"@ + ".tmp"@ =~= stem + ".json.tmp"@);
    a_stem_is_that_of_its_files(stem + ".json"@, stem);
    a_stem_is_that_of_its_files(stem + ".lock"@, stem);
    a_stem_is_that_of_its_files(stem + ".json.tmp"@, stem);
    a_stem_is_that_of_its_files(stem + suffix, stem);
    let n = stem.len() as int;
    assert((stem + suffix).skip(n) =~= suffix);
    assert((stem + ".json"@).skip(n) =~= ".json"@);
    assert((stem + ".lock"@).skip(n) =~= ".lock"@);
    assert((stem + ".json.tmp"@).skip(n) =~= ".json.tmp"@);
}

/// The three architectures that are known by name, each by its own; no other is.
pub proof fn the_architectures_are_known_by_name(target_arch: Seq<char>)
    ensures
        arch_name("x86"@) == "x86"@,
        arch_name("x86_64"@) == "x64"@,
        arch_name("aarch64"@) == "arm64"@,
        target_arch != "x86"@ && target_arch != "x86_64"@ && target_arch != "aarch64"@
            ==> arch_name(target_arch) == "unknown"@,
{
    reveal_strlit("x86");
    reveal_strlit("x86_64");
    reveal_strlit("aarch64");
    assert("x86_64"@.len() == 6 && "x86"@.len() == 3 && "aarch64"@.len() == 7);
}

/// The user's local application data is the base wherever it is known, and the directory for
/// temporary files only where it is not.
pub proof fn the_base_is_the_local_application_data<P>(local: P, temp_dir: P)
    ensures
        base_directory(Some(local), temp_dir) == local,
        base_directory(None, temp_dir) == temp_dir,
        APPLICATION_DIRECTORY@ == "windbg-mcp-rs"@,
        INSTANCES_DIRECTORY@ == "instances"@,
{
}

} // verus!
