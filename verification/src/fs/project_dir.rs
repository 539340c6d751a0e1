//! Scan project dir: builds the tracked project tree from a raw directory
//! snapshot, skipping excluded basenames and symbolic links, and aborting
//! the whole scan on the first unreadable entry.

use vstd::prelude::*;
use crate::fs::exclude::{is_excluded, trie_keys};
use crate::util::copy_bytes;
use trie_hard::TrieHard;

verus! {

/// The path separator byte `/`.
pub const SEPARATOR: u8 = 47;

/// One entry of a raw directory snapshot, as the surrounding process reads it
/// off the disk: a regular file, a directory with its own entries, a symbolic
/// link, or an entry whose kind or contents could not be read.
///
/// The snapshot holds entry names (basenames) as bytes; it never follows
/// links, so the snapshot and everything scanned from it is acyclic.
#[derive(Debug)]
pub enum RawEntry {
    RawFile { name: Vec<u8> },
    RawDir { name: Vec<u8>, entries: Vec<RawEntry> },
    RawLink { name: Vec<u8> },
    RawUnreadable { name: Vec<u8> },
}

/// Mathematical model of a raw snapshot entry.
pub enum RawModel {
    File { name: Seq<u8> },
    Dir { name: Seq<u8>, entries: Seq<RawModel> },
    Link { name: Seq<u8> },
    Unreadable { name: Seq<u8> },
}

impl RawEntry {
    pub open spec fn model(self) -> RawModel
        decreases self,
    {
        match self {
            RawEntry::RawFile { name } => RawModel::File { name: name@ },
            RawEntry::RawDir { name, entries } => RawModel::Dir {
                name: name@,
                entries: models_of(entries@),
            },
            RawEntry::RawLink { name } => RawModel::Link { name: name@ },
            RawEntry::RawUnreadable { name } => RawModel::Unreadable { name: name@ },
        }
    }
}

/// The models of a sequence of raw snapshot entries, element for element.
pub open spec fn models_of(es: Seq<RawEntry>) -> Seq<RawModel>
    decreases es,
{
    if es.len() == 0 {
        Seq::empty()
    } else {
        models_of(es.drop_last()).push(es.last().model())
    }
}

/// `models_of` maps element for element.
pub proof fn lemma_models_of(es: Seq<RawEntry>)
    ensures
        models_of(es).len() == es.len(),
        forall|i: int| 0 <= i < es.len() ==> models_of(es)[i] == #[trigger] es[i].model(),
    decreases es,
{
    if es.len() > 0 {
        lemma_models_of(es.drop_last());
        assert forall|i: int| 0 <= i < es.len() implies models_of(es)[i] == #[trigger] es[i].model() by {
            if i < es.len() - 1 {
                assert(es.drop_last()[i] == es[i]);
                assert(models_of(es)[i] == models_of(es.drop_last())[i]);
            } else {
                assert(es[i] == es.last());
            }
        }
    }
}

/// Mathematical model of a tracked regular file: its basename and its path
/// relative to the project root.
pub struct FileModel {
    pub name: Seq<u8>,
    pub path: Seq<u8>,
}

/// Mathematical model of a tracked directory.
pub struct DirModel {
    pub name: Seq<u8>,
    pub path: Seq<u8>,
    pub files: Seq<FileModel>,
    pub dirs: Seq<DirModel>,
}

/// A regular file that we are tracking updates and changes for,
/// from the project directory tree.
#[derive(Debug, PartialEq, Eq)]
pub struct TrackedProjectFile {
    /// Basename of the file.
    pub name: Vec<u8>,
    /// Path to the file, relative to the project root.
    pub fpath: Vec<u8>,
}

/// A directory that we are tracking updates and changes for,
/// from the project directory tree.
#[derive(Debug, PartialEq, Eq)]
pub struct TrackedProjectDir {
    /// Basename of the directory; empty for the project root itself.
    pub name: Vec<u8>,
    /// Path to the directory relative to the project root; empty for the root.
    pub dpath: Vec<u8>,
    /// Regular files in this directory.
    pub tracked_files: Vec<TrackedProjectFile>,
    /// Subdirectories in this directory.
    pub tracked_dirs: Vec<TrackedProjectDir>,
}

impl View for TrackedProjectFile {
    type V = FileModel;

    open spec fn view(&self) -> FileModel {
        FileModel { name: self.name@, path: self.fpath@ }
    }
}

/// Model of a tracked directory, children included.
pub open spec fn dir_model(d: TrackedProjectDir) -> DirModel
    decreases d,
{
    DirModel {
        name: d.name@,
        path: d.dpath@,
        files: d.tracked_files@.map_values(|f: TrackedProjectFile| f@),
        dirs: dir_models_of(d.tracked_dirs@),
    }
}

/// The models of a sequence of tracked directories, element for element.
pub open spec fn dir_models_of(ds: Seq<TrackedProjectDir>) -> Seq<DirModel>
    decreases ds,
{
    if ds.len() == 0 {
        Seq::empty()
    } else {
        dir_models_of(ds.drop_last()).push(dir_model(ds.last()))
    }
}

impl View for TrackedProjectDir {
    type V = DirModel;

    open spec fn view(&self) -> DirModel {
        dir_model(*self)
    }
}

#[derive(Debug, PartialEq, Eq)]
pub enum Error {
    /// An entry of the snapshot could not be read; holds its basename.
    IO(Vec<u8>),
    /// The exclusion rules were not available to the scanner. The scanner
    /// itself takes the rules as an argument and never returns this; the
    /// variant is for callers that look the rules up from shared state.
    ExcludeRulesNotInitialized,
    /// A caller's own single-scan policy was violated. The scanner itself
    /// never returns this: rescans are part of reconciliation and welcome.
    FullRescanOfProjectDirWasAttempted,
}

/// The path of a child entry: the parent path, a separator, and the child's
/// basename; a child of the root is its bare basename.
pub open spec fn joined(parent: Seq<u8>, name: Seq<u8>) -> Seq<u8> {
    if parent.len() == 0 {
        name
    } else {
        parent + seq![SEPARATOR] + name
    }
}

/// What scanning the entries of one directory yields: the files and
/// subdirectories tracked under it, or the basename of the first unreadable
/// entry in depth-first order.
///
/// An entry whose basename is in `ex` is skipped whole: not recursed into,
/// not represented, and never the cause of an error. A symbolic link is
/// skipped whole as well. A remaining unreadable entry aborts the scan.
pub open spec fn scan_entries_spec(ex: Set<Seq<u8>>, dpath: Seq<u8>, es: Seq<RawModel>) -> Result<
    (Seq<FileModel>, Seq<DirModel>),
    Seq<u8>,
>
    decreases es,
{
    if es.len() == 0 {
        Ok((Seq::empty(), Seq::empty()))
    } else {
        let rest = es.subrange(1, es.len() as int);
        match es[0] {
            RawModel::File { name } => {
                if ex.contains(name) {
                    scan_entries_spec(ex, dpath, rest)
                } else {
                    match scan_entries_spec(ex, dpath, rest) {
                        Ok((fs, ds)) => Ok(
                            (seq![FileModel { name, path: joined(dpath, name) }] + fs, ds),
                        ),
                        Err(e) => Err(e),
                    }
                }
            },
            RawModel::Dir { name, entries } => {
                if ex.contains(name) {
                    scan_entries_spec(ex, dpath, rest)
                } else {
                    match scan_entries_spec(ex, joined(dpath, name), entries) {
                        Ok((sub_fs, sub_ds)) => {
                            let child = DirModel {
                                name,
                                path: joined(dpath, name),
                                files: sub_fs,
                                dirs: sub_ds,
                            };
                            match scan_entries_spec(ex, dpath, rest) {
                                Ok((fs, ds)) => Ok((fs, seq![child] + ds)),
                                Err(e) => Err(e),
                            }
                        },
                        Err(e) => Err(e),
                    }
                }
            },
            RawModel::Link { name } => scan_entries_spec(ex, dpath, rest),
            RawModel::Unreadable { name } => {
                if ex.contains(name) {
                    scan_entries_spec(ex, dpath, rest)
                } else {
                    Err(name)
                }
            },
        }
    }
}

/// Joins a child basename onto a parent path.
fn join_path(parent: &Vec<u8>, name: &Vec<u8>) -> (r: Vec<u8>)
    ensures
        r@ == joined(parent@, name@),
{
    if parent.len() == 0 {
        copy_bytes(name)
    } else {
        let mut r = copy_bytes(parent);
        r.push(SEPARATOR);
        let mut i: usize = 0;
        while i < name.len()
            invariant
                i <= name.len(),
                r@ == parent@ + seq![SEPARATOR] + name@.subrange(0, i as int),
            decreases name.len() - i,
        {
            r.push(name[i]);
            assert(r@ =~= parent@ + seq![SEPARATOR] + name@.subrange(0, i + 1 as int));
            i = i + 1;
        }
        assert(r@ =~= joined(parent@, name@));
        r
    }
}

/// Scans a snapshot of the project root's entries into a tracked tree.
///
/// The initial scan at startup and every reconciliation-triggered rescan go
/// through here; each call builds a wholly new tree from the snapshot it is
/// given, so a new scan replaces the old tree rather than mutating it.
pub fn scan_project_dir(excl: &TrieHard<'static, &'static str>, root_entries: &Vec<RawEntry>) -> (r:
    Result<TrackedProjectDir, Error>)
    ensures
        match scan_entries_spec(trie_keys(excl), Seq::empty(), models_of(root_entries@)) {
            Ok((fs, ds)) => (r matches Ok(d) && d@ == (DirModel {
                name: Seq::<u8>::empty(),
                path: Seq::<u8>::empty(),
                files: fs,
                dirs: ds,
            })),
            Err(e) => (r matches Err(err) && err matches Error::IO(p) && p@ == e),
        },
{
    let root_name: Vec<u8> = Vec::new();
    let root_path: Vec<u8> = Vec::new();
    scan_dir(excl, root_name, root_path, root_entries)
}

/// Scans the entries of one directory, given its basename, its path relative
/// to the project root, and its raw entries.
fn scan_dir(
    excl: &TrieHard<'static, &'static str>,
    name: Vec<u8>,
    dpath: Vec<u8>,
    entries: &Vec<RawEntry>,
) -> (r: Result<TrackedProjectDir, Error>)
    ensures
        match scan_entries_spec(trie_keys(excl), dpath@, models_of(entries@)) {
            Ok((fs, ds)) => (r matches Ok(d) && d@ == (DirModel {
                name: name@,
                path: dpath@,
                files: fs,
                dirs: ds,
            })),
            Err(e) => (r matches Err(err) && err matches Error::IO(p) && p@ == e),
        },
    decreases entries@,
{
    let ghost ex = trie_keys(excl);
    let ghost ms = models_of(entries@);
    proof {
        lemma_models_of(entries@);
    }
    let mut files: Vec<TrackedProjectFile> = Vec::new();
    let mut dirs: Vec<TrackedProjectDir> = Vec::new();
    let mut i: usize = 0;
    proof {
        assert(files@.map_values(|f: TrackedProjectFile| f@) =~= Seq::<FileModel>::empty());
        assert(ms.subrange(0, ms.len() as int) =~= ms);
        match scan_entries_spec(ex, dpath@, ms) {
            Ok((fs, ds)) => {
                assert(Seq::<FileModel>::empty() + fs =~= fs);
                assert(Seq::<DirModel>::empty() + ds =~= ds);
            },
            Err(_) => {},
        }
    }
    while i < entries.len()
        invariant
            i <= entries.len(),
            ex == trie_keys(excl),
            ms == models_of(entries@),
            ms.len() == entries@.len(),
            forall|j: int| 0 <= j < entries@.len() ==> ms[j] == #[trigger] entries@[j].model(),
            scan_entries_spec(ex, dpath@, ms) == combine(
                files@.map_values(|f: TrackedProjectFile| f@),
                dir_models_of(dirs@),
                scan_entries_spec(ex, dpath@, ms.subrange(i as int, ms.len() as int)),
            ),
        decreases entries.len() - i,
    {
        let ghost suffix = ms.subrange(i as int, ms.len() as int);
        let ghost rest = ms.subrange(i + 1, ms.len() as int);
        let ghost old_files = files@.map_values(|f: TrackedProjectFile| f@);
        let ghost old_dirs = dir_models_of(dirs@);
        proof {
            assert(suffix.len() > 0);
            assert(suffix[0] == ms[i as int]);
            assert(suffix.subrange(1, suffix.len() as int) =~= rest);
        }
        let entry = &entries[i];
        match entry {
            RawEntry::RawFile { name: ename } => {
                if !is_excluded(excl, ename.as_slice()) {
                    let fpath = join_path(&dpath, ename);
                    let f = TrackedProjectFile { name: copy_bytes(ename), fpath };
                    files.push(f);
                    proof {
                        assert(*entry == entries@[i as int]);
                        assert(entries@[i as int] == (RawEntry::RawFile { name: *ename }));
                        assert(entries@[i as int].model() == (RawModel::File { name: ename@ }));
                        assert(suffix[0] == (RawModel::File { name: ename@ }));
                        lemma_step_file(ex, dpath@, old_files, old_dirs, FileModel {
                            name: ename@,
                            path: joined(dpath@, ename@),
                        }, suffix);
                        assert(old_files.push(files@.last()@) =~= files@.map_values(
                            |f: TrackedProjectFile| f@,
                        ));
                    }
                }
            },
            RawEntry::RawDir { name: ename, entries: sub_entries } => {
                if !is_excluded(excl, ename.as_slice()) {
                    let child_path = join_path(&dpath, ename);
                    let child_name = copy_bytes(ename);
                    proof {
                        assert(*entry == entries@[i as int]);
                        assert(entries@[i as int] == (RawEntry::RawDir {
                            name: *ename,
                            entries: *sub_entries,
                        }));
                        assert(entries@[i as int].model() == (RawModel::Dir {
                            name: ename@,
                            entries: models_of(sub_entries@),
                        }));
                        assert(suffix[0] == (RawModel::Dir {
                            name: ename@,
                            entries: models_of(sub_entries@),
                        }));
                        assert(decreases_to!(entries@ => entries@[i as int]));
                        assert(decreases_to!(entries@[i as int] => *sub_entries));
                        assert(decreases_to!(*sub_entries => sub_entries@));
                    }
                    let sub = scan_dir(excl, child_name, child_path, sub_entries);
                    match sub {
                        Ok(child) => {
                            let ghost prev_dirs = dirs@;
                            dirs.push(child);
                            proof {
                                assert(dirs@.drop_last() =~= prev_dirs);
                                lemma_step_dir(
                                    ex,
                                    dpath@,
                                    old_files,
                                    old_dirs,
                                    dir_model(dirs@.last()),
                                    models_of(sub_entries@),
                                    suffix,
                                );
                                assert(old_dirs.push(dir_model(dirs@.last())) =~= dir_models_of(
                                    dirs@,
                                ));
                            }
                        },
                        Err(e) => {
                            return Err(e);
                        },
                    }
                }
            },
            RawEntry::RawLink { name: ename } => {
            },
            RawEntry::RawUnreadable { name: ename } => {
                if !is_excluded(excl, ename.as_slice()) {
                    return Err(Error::IO(copy_bytes(ename)));
                }
            },
        }
        i = i + 1;
    }
    proof {
        assert(ms.subrange(ms.len() as int, ms.len() as int) =~= Seq::<RawModel>::empty());
        assert(files@.map_values(|f: TrackedProjectFile| f@) + Seq::<FileModel>::empty() =~= files@
            .map_values(|f: TrackedProjectFile| f@));
        assert(dir_models_of(dirs@) + Seq::<DirModel>::empty() =~= dir_models_of(dirs@));
    }
    Ok(TrackedProjectDir { name, dpath, tracked_files: files, tracked_dirs: dirs })
}

/// Prefixes accumulated files and subdirectories onto the result of scanning
/// the remaining entries.
spec fn combine(
    acc_files: Seq<FileModel>,
    acc_dirs: Seq<DirModel>,
    rest: Result<(Seq<FileModel>, Seq<DirModel>), Seq<u8>>,
) -> Result<(Seq<FileModel>, Seq<DirModel>), Seq<u8>> {
    match rest {
        Ok((fs, ds)) => Ok((acc_files + fs, acc_dirs + ds)),
        Err(e) => Err(e),
    }
}

/// No tracked file among `fs` has a basename in `ex`.
pub open spec fn files_free_of(ex: Set<Seq<u8>>, fs: Seq<FileModel>) -> bool {
    forall|i: int| 0 <= i < fs.len() ==> !ex.contains((#[trigger] fs[i]).name)
}

/// No node of `d`, at any depth, has a basename in `ex`. In particular no
/// tree satisfying this holds a descendant of an excluded directory: an
/// excluded directory has no node here at all.
pub open spec fn dir_free_of(ex: Set<Seq<u8>>, d: DirModel) -> bool
    decreases d,
{
    files_free_of(ex, d.files) && (forall|i: int|
        0 <= i < d.dirs.len() ==> !ex.contains((#[trigger] d.dirs[i]).name) && dir_free_of(
            ex,
            d.dirs[i],
        ))
}

/// For any snapshot, the scanned tree holds no node whose basename is in the
/// exclusion set, at any depth.
pub proof fn lemma_scan_excludes(ex: Set<Seq<u8>>, dpath: Seq<u8>, es: Seq<RawModel>)
    ensures
        scan_entries_spec(ex, dpath, es) matches Ok((fs, ds)) ==> files_free_of(ex, fs) && (
        forall|i: int|
            0 <= i < ds.len() ==> !ex.contains((#[trigger] ds[i]).name) && dir_free_of(ex, ds[i])),
    decreases es,
{
    if es.len() > 0 {
        let rest = es.subrange(1, es.len() as int);
        lemma_scan_excludes(ex, dpath, rest);
        match es[0] {
            RawModel::File { name } => {
                if !ex.contains(name) {
                    match scan_entries_spec(ex, dpath, rest) {
                        Ok((fs, ds)) => {
                            let whole = seq![FileModel { name, path: joined(dpath, name) }] + fs;
                            assert forall|i: int| 0 <= i < whole.len() implies !ex.contains(
                                (#[trigger] whole[i]).name,
                            ) by {
                                if i > 0 {
                                    assert(whole[i] == fs[i - 1]);
                                }
                            }
                        },
                        Err(_) => {},
                    }
                }
            },
            RawModel::Dir { name, entries } => {
                if !ex.contains(name) {
                    lemma_scan_excludes(ex, joined(dpath, name), entries);
                    match scan_entries_spec(ex, joined(dpath, name), entries) {
                        Ok((sub_fs, sub_ds)) => {
                            match scan_entries_spec(ex, dpath, rest) {
                                Ok((fs, ds)) => {
                                    let child = DirModel {
                                        name,
                                        path: joined(dpath, name),
                                        files: sub_fs,
                                        dirs: sub_ds,
                                    };
                                    let whole = seq![child] + ds;
                                    assert(dir_free_of(ex, child));
                                    assert forall|i: int| 0 <= i < whole.len() implies !ex.contains(
                                        (#[trigger] whole[i]).name,
                                    ) && dir_free_of(ex, whole[i]) by {
                                        if i > 0 {
                                            assert(whole[i] == ds[i - 1]);
                                        }
                                    }
                                },
                                Err(_) => {},
                            }
                        },
                        Err(_) => {},
                    }
                }
            },
            RawModel::Link { name } => {},
            RawModel::Unreadable { name } => {},
        }
    }
}

/// Every node under `d` carries the path of its place in the tree: its
/// parent's path with its own basename joined on.
pub open spec fn paths_wf(d: DirModel) -> bool
    decreases d,
{
    (forall|i: int|
        0 <= i < d.files.len() ==> (#[trigger] d.files[i]).path == joined(
            d.path,
            d.files[i].name,
        )) && (forall|i: int|
        0 <= i < d.dirs.len() ==> (#[trigger] d.dirs[i]).path == joined(d.path, d.dirs[i].name)
            && paths_wf(d.dirs[i]))
}

/// Every scanned node's path is its parent's path extended by its own
/// basename: every node lies strictly under the scanned root.
pub proof fn lemma_scan_paths(ex: Set<Seq<u8>>, dpath: Seq<u8>, es: Seq<RawModel>)
    ensures
        scan_entries_spec(ex, dpath, es) matches Ok((fs, ds)) ==> (forall|i: int|
            0 <= i < fs.len() ==> (#[trigger] fs[i]).path == joined(dpath, fs[i].name)) && (
        forall|i: int|
            0 <= i < ds.len() ==> (#[trigger] ds[i]).path == joined(dpath, ds[i].name) && paths_wf(
                ds[i],
            )),
    decreases es,
{
    if es.len() > 0 {
        let rest = es.subrange(1, es.len() as int);
        lemma_scan_paths(ex, dpath, rest);
        match es[0] {
            RawModel::File { name } => {
                if !ex.contains(name) {
                    match scan_entries_spec(ex, dpath, rest) {
                        Ok((fs, ds)) => {
                            let whole = seq![FileModel { name, path: joined(dpath, name) }] + fs;
                            assert forall|i: int| 0 <= i < whole.len() implies (
                            #[trigger] whole[i]).path == joined(dpath, whole[i].name) by {
                                if i > 0 {
                                    assert(whole[i] == fs[i - 1]);
                                }
                            }
                        },
                        Err(_) => {},
                    }
                }
            },
            RawModel::Dir { name, entries } => {
                if !ex.contains(name) {
                    lemma_scan_paths(ex, joined(dpath, name), entries);
                    match scan_entries_spec(ex, joined(dpath, name), entries) {
                        Ok((sub_fs, sub_ds)) => {
                            match scan_entries_spec(ex, dpath, rest) {
                                Ok((fs, ds)) => {
                                    let child = DirModel {
                                        name,
                                        path: joined(dpath, name),
                                        files: sub_fs,
                                        dirs: sub_ds,
                                    };
                                    let whole = seq![child] + ds;
                                    assert(paths_wf(child));
                                    assert forall|i: int| 0 <= i < whole.len() implies (
                                    #[trigger] whole[i]).path == joined(dpath, whole[i].name)
                                        && paths_wf(whole[i]) by {
                                        if i > 0 {
                                            assert(whole[i] == ds[i - 1]);
                                        }
                                    }
                                },
                                Err(_) => {},
                            }
                        },
                        Err(_) => {},
                    }
                }
            },
            RawModel::Link { name } => {},
            RawModel::Unreadable { name } => {},
        }
    }
}

/// The snapshot with every symbolic link removed, at any depth.
pub open spec fn without_links(es: Seq<RawModel>) -> Seq<RawModel>
    decreases es,
{
    if es.len() == 0 {
        es
    } else {
        let rest = es.subrange(1, es.len() as int);
        match es[0] {
            RawModel::Link { name } => without_links(rest),
            RawModel::Dir { name, entries } => seq![
                RawModel::Dir { name, entries: without_links(entries) },
            ] + without_links(rest),
            m => seq![m] + without_links(rest),
        }
    }
}

/// Symbolic links contribute nothing to a scan: removing every link from the
/// snapshot, at any depth, leaves the scanned tree unchanged. In particular
/// the tree holds no node for any link.
pub proof fn lemma_scan_skips_links(ex: Set<Seq<u8>>, dpath: Seq<u8>, es: Seq<RawModel>)
    ensures
        scan_entries_spec(ex, dpath, without_links(es)) == scan_entries_spec(ex, dpath, es),
    decreases es,
{
    if es.len() > 0 {
        let rest = es.subrange(1, es.len() as int);
        lemma_scan_skips_links(ex, dpath, rest);
        match es[0] {
            RawModel::Link { name } => {},
            RawModel::Dir { name, entries } => {
                lemma_scan_skips_links(ex, joined(dpath, name), entries);
                let head = RawModel::Dir { name, entries: without_links(entries) };
                let stripped = seq![head] + without_links(rest);
                assert(stripped.subrange(1, stripped.len() as int) =~= without_links(rest));
                assert(stripped[0] == head);
            },
            m => {
                let stripped = seq![m] + without_links(rest);
                assert(stripped.subrange(1, stripped.len() as int) =~= without_links(rest));
                assert(stripped[0] == m);
            },
        }
    }
}

/// Scanning is a pure function of the snapshot and the exclusion set: two
/// scans of an unmodified directory yield equal trees, so in particular
/// identical sets of (relative path, node kind) pairs.
pub proof fn lemma_scan_deterministic(
    ex: Set<Seq<u8>>,
    dpath: Seq<u8>,
    es1: Seq<RawModel>,
    es2: Seq<RawModel>,
)
    requires
        es1 == es2,
    ensures
        scan_entries_spec(ex, dpath, es1) == scan_entries_spec(ex, dpath, es2),
{
}

/// Tracking one more file keeps the accumulated prefix in step with the
/// specification.
proof fn lemma_step_file(
    ex: Set<Seq<u8>>,
    dpath: Seq<u8>,
    acc_files: Seq<FileModel>,
    acc_dirs: Seq<DirModel>,
    f: FileModel,
    suffix: Seq<RawModel>,
)
    requires
        suffix.len() > 0,
        suffix[0] == (RawModel::File { name: f.name }),
        !ex.contains(f.name),
        f.path == joined(dpath, f.name),
    ensures
        combine(acc_files, acc_dirs, scan_entries_spec(ex, dpath, suffix)) == combine(
            acc_files.push(f),
            acc_dirs,
            scan_entries_spec(ex, dpath, suffix.subrange(1, suffix.len() as int)),
        ),
{
    let rest = suffix.subrange(1, suffix.len() as int);
    match scan_entries_spec(ex, dpath, rest) {
        Ok((fs, ds)) => {
            assert(scan_entries_spec(ex, dpath, suffix) == Ok::<_, Seq<u8>>(
                ((seq![f] + fs, ds)),
            ));
            assert(acc_files + (seq![f] + fs) =~= acc_files.push(f) + fs);
        },
        Err(_) => {},
    }
}

/// Tracking one more subdirectory keeps the accumulated prefix in step with
/// the specification.
proof fn lemma_step_dir(
    ex: Set<Seq<u8>>,
    dpath: Seq<u8>,
    acc_files: Seq<FileModel>,
    acc_dirs: Seq<DirModel>,
    d: DirModel,
    sub: Seq<RawModel>,
    suffix: Seq<RawModel>,
)
    requires
        suffix.len() > 0,
        suffix[0] == (RawModel::Dir { name: d.name, entries: sub }),
        !ex.contains(d.name),
        d.path == joined(dpath, d.name),
        scan_entries_spec(ex, joined(dpath, d.name), sub) == Ok::<_, Seq<u8>>(((d.files, d.dirs))),
    ensures
        combine(acc_files, acc_dirs, scan_entries_spec(ex, dpath, suffix)) == combine(
            acc_files,
            acc_dirs.push(d),
            scan_entries_spec(ex, dpath, suffix.subrange(1, suffix.len() as int)),
        ),
{
    let rest = suffix.subrange(1, suffix.len() as int);
    match scan_entries_spec(ex, dpath, rest) {
        Ok((fs, ds)) => {
            assert(scan_entries_spec(ex, dpath, suffix) == Ok::<_, Seq<u8>>(
                ((fs, seq![d] + ds)),
            ));
            assert(acc_dirs + (seq![d] + ds) =~= acc_dirs.push(d) + ds);
        },
        Err(_) => {},
    }
}

} // verus!
