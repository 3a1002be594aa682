use vstd::prelude::*;

use crate::text::{ends_with_spec, str_ends_with, str_eq};
use crate::types::ModuleKind;

verus! {

/// What the discovery scan decides for a single directory entry.
#[derive(PartialEq, Eq, Structural, Clone, Copy, Debug)]
pub enum EntryAction {
    /// The one tolerated subdirectory name; the entry is skipped.
    Skip,
    /// Any other subdirectory: startup must abort.
    Fatal,
    /// A module file of the given kind.
    Module(ModuleKind),
    /// A file with no recognized suffix; silently ignored.
    Ignore,
}

/// Suffix classification, longer suffix first so that `_run.wasm` is not
/// mistaken for a plain `.wasm` worker (and `_run.so` for a `.so` worker).
pub open spec fn classify_name_spec(name: Seq<char>) -> Option<ModuleKind> {
    if ends_with_spec(name, "_run.wasm"@) {
        Some(ModuleKind::BytecodeRunner)
    } else if ends_with_spec(name, ".wasm"@) {
        Some(ModuleKind::BytecodeWorker)
    } else if ends_with_spec(name, "_run.so"@) {
        Some(ModuleKind::NativeRunner)
    } else if ends_with_spec(name, ".so"@) {
        Some(ModuleKind::NativeWorker)
    } else {
        None
    }
}

/// Classify a file name by its suffix.
pub fn classify_file_name(name: &str) -> (r: Option<ModuleKind>)
    ensures
        r == classify_name_spec(name@),
{
    if str_ends_with(name, "_run.wasm") {
        Some(ModuleKind::BytecodeRunner)
    } else if str_ends_with(name, ".wasm") {
        Some(ModuleKind::BytecodeWorker)
    } else if str_ends_with(name, "_run.so") {
        Some(ModuleKind::NativeRunner)
    } else if str_ends_with(name, ".so") {
        Some(ModuleKind::NativeWorker)
    } else {
        None
    }
}

pub open spec fn classify_entry_spec(name: Seq<char>, is_dir: bool) -> EntryAction {
    if is_dir {
        if name == "lost+found"@ {
            EntryAction::Skip
        } else {
            EntryAction::Fatal
        }
    } else {
        match classify_name_spec(name) {
            Some(kind) => EntryAction::Module(kind),
            None => EntryAction::Ignore,
        }
    }
}

/// Decide what to do with one directory entry: subdirectories abort the
/// scan, except for the single tolerated name `lost+found`; files are
/// classified by suffix or ignored.
pub fn classify_entry(name: &str, is_dir: bool) -> (a: EntryAction)
    ensures
        a == classify_entry_spec(name@, is_dir),
{
    if is_dir {
        if str_eq(name, "lost+found") {
            EntryAction::Skip
        } else {
            EntryAction::Fatal
        }
    } else {
        match classify_file_name(name) {
            Some(kind) => EntryAction::Module(kind),
            None => EntryAction::Ignore,
        }
    }
}

/// A directory entry seen by the scan: file name and whether it is a
/// subdirectory.
pub open spec fn is_bad_dir(e: (Seq<char>, bool)) -> bool {
    e.1 && e.0 != "lost+found"@
}

pub open spec fn entry_views(entries: Seq<(String, bool)>) -> Seq<(Seq<char>, bool)> {
    entries.map_values(|e: (String, bool)| (e.0@, e.1))
}

/// The names of the entries of `entries` that classify as `kind`, in
/// directory order.
pub open spec fn names_of_kind(entries: Seq<(Seq<char>, bool)>, kind: ModuleKind) -> Seq<
    Seq<char>,
>
    decreases entries.len(),
{
    if entries.len() == 0 {
        Seq::empty()
    } else {
        let rest = names_of_kind(entries.drop_last(), kind);
        let e = entries.last();
        if !e.1 && classify_name_spec(e.0) == Some(kind) {
            rest.push(e.0)
        } else {
            rest
        }
    }
}

/// The outcome of a successful discovery scan: module names bucketed by
/// kind, in directory order.
#[derive(Debug)]
pub struct Classified {
    pub bytecode_workers: Vec<String>,
    pub bytecode_runners: Vec<String>,
    pub native_workers: Vec<String>,
    pub native_runners: Vec<String>,
}

pub open spec fn name_views(names: Seq<String>) -> Seq<Seq<char>> {
    names.map_values(|n: String| n@)
}

impl Classified {
    pub open spec fn matches_listing(self, entries: Seq<(Seq<char>, bool)>) -> bool {
        &&& name_views(self.bytecode_workers@) == names_of_kind(
            entries,
            ModuleKind::BytecodeWorker,
        )
        &&& name_views(self.bytecode_runners@) == names_of_kind(
            entries,
            ModuleKind::BytecodeRunner,
        )
        &&& name_views(self.native_workers@) == names_of_kind(entries, ModuleKind::NativeWorker)
        &&& name_views(self.native_runners@) == names_of_kind(entries, ModuleKind::NativeRunner)
    }

    /// Whether the scan found any module at all; when it did not, the host
    /// exits cleanly with a message.
    pub fn has_modules(&self) -> (b: bool)
        ensures
            b == (self.bytecode_workers@.len() > 0 || self.bytecode_runners@.len() > 0
                || self.native_workers@.len() > 0 || self.native_runners@.len() > 0),
    {
        self.bytecode_workers.len() > 0 || self.bytecode_runners.len() > 0
            || self.native_workers.len() > 0 || self.native_runners.len() > 0
    }
}

/// Scan a whole directory listing. Fails on the first subdirectory whose
/// name is not `lost+found`; otherwise buckets every recognized module
/// file by kind, keeping directory order.
pub fn classify_listing(entries: &Vec<(String, bool)>) -> (r: Result<Classified, String>)
    ensures
        r.is_ok() <==> (forall|i: int|
            0 <= i < entries@.len() ==> !is_bad_dir(#[trigger] entry_views(entries@)[i])),
        r matches Ok(c) ==> c.matches_listing(entry_views(entries@)),
        r matches Err(name) ==> exists|i: int|
            0 <= i < entries@.len() && is_bad_dir(#[trigger] entry_views(entries@)[i])
                && name@ == entry_views(entries@)[i].0 && (forall|j: int|
                0 <= j < i ==> !is_bad_dir(#[trigger] entry_views(entries@)[j])),
{
    let ghost views = entry_views(entries@);
    let mut bytecode_workers: Vec<String> = Vec::new();
    let mut bytecode_runners: Vec<String> = Vec::new();
    let mut native_workers: Vec<String> = Vec::new();
    let mut native_runners: Vec<String> = Vec::new();
    let mut i: usize = 0;
    while i < entries.len()
        invariant
            i <= entries@.len(),
            views == entry_views(entries@),
            views.len() == entries@.len(),
            forall|j: int| 0 <= j < i ==> !is_bad_dir(#[trigger] views[j]),
            name_views(bytecode_workers@) == names_of_kind(
                views.take(i as int),
                ModuleKind::BytecodeWorker,
            ),
            name_views(bytecode_runners@) == names_of_kind(
                views.take(i as int),
                ModuleKind::BytecodeRunner,
            ),
            name_views(native_workers@) == names_of_kind(
                views.take(i as int),
                ModuleKind::NativeWorker,
            ),
            name_views(native_runners@) == names_of_kind(
                views.take(i as int),
                ModuleKind::NativeRunner,
            ),
        decreases entries@.len() - i,
    {
        let name = entries[i].0.clone();
        let is_dir = entries[i].1;
        proof {
            assert(views[i as int] == (entries@[i as int].0@, entries@[i as int].1));
            assert(views.take(i + 1).drop_last() =~= views.take(i as int));
            assert(views.take(i + 1).last() == views[i as int]);
        }
        match classify_entry(name.as_str(), is_dir) {
            EntryAction::Fatal => {
                return Err(name);
            },
            EntryAction::Skip => {},
            EntryAction::Ignore => {},
            EntryAction::Module(kind) => {
                match kind {
                    ModuleKind::BytecodeWorker => bytecode_workers.push(name),
                    ModuleKind::BytecodeRunner => bytecode_runners.push(name),
                    ModuleKind::NativeWorker => native_workers.push(name),
                    ModuleKind::NativeRunner => native_runners.push(name),
                }
            },
        }
        proof {
            assert(name_views(bytecode_workers@) =~= names_of_kind(
                views.take(i + 1),
                ModuleKind::BytecodeWorker,
            ));
            assert(name_views(bytecode_runners@) =~= names_of_kind(
                views.take(i + 1),
                ModuleKind::BytecodeRunner,
            ));
            assert(name_views(native_workers@) =~= names_of_kind(
                views.take(i + 1),
                ModuleKind::NativeWorker,
            ));
            assert(name_views(native_runners@) =~= names_of_kind(
                views.take(i + 1),
                ModuleKind::NativeRunner,
            ));
        }
        i = i + 1;
    }
    proof {
        assert(views.take(entries@.len() as int) =~= views);
    }
    Ok(
        Classified {
            bytecode_workers,
            bytecode_runners,
            native_workers,
            native_runners,
        },
    )
}

/// The process environment rendered as `K=V;;;K=V;;;…` (with the trailing
/// separator), the form handed to native runner modules.
pub open spec fn env_string_spec(pairs: Seq<(Seq<char>, Seq<char>)>) -> Seq<char>
    decreases pairs.len(),
{
    if pairs.len() == 0 {
        Seq::empty()
    } else {
        env_string_spec(pairs.drop_last()) + pairs.last().0 + "="@ + pairs.last().1 + ";;;"@
    }
}

pub open spec fn pair_views(pairs: Seq<(String, String)>) -> Seq<(Seq<char>, Seq<char>)> {
    pairs.map_values(|p: (String, String)| (p.0@, p.1@))
}

/// Render environment pairs as the `K=V;;;…` string.
pub fn build_env_string(pairs: &Vec<(String, String)>) -> (s: String)
    ensures
        s@ == env_string_spec(pair_views(pairs@)),
{
    let ghost views = pair_views(pairs@);
    let mut s = String::new();
    let mut i: usize = 0;
    while i < pairs.len()
        invariant
            i <= pairs@.len(),
            views == pair_views(pairs@),
            views.len() == pairs@.len(),
            s@ == env_string_spec(views.take(i as int)),
        decreases pairs@.len() - i,
    {
        proof {
            assert(views[i as int] == (pairs@[i as int].0@, pairs@[i as int].1@));
            assert(views.take(i + 1).drop_last() =~= views.take(i as int));
            assert(views.take(i + 1).last() == views[i as int]);
        }
        s.append(pairs[i].0.as_str());
        s.append("=");
        s.append(pairs[i].1.as_str());
        s.append(";;;");
        i = i + 1;
    }
    proof {
        assert(views.take(pairs@.len() as int) =~= views);
    }
    s
}

} // verus!
