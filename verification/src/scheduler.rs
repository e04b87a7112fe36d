//! How work on book files is spread over worker threads, and how each worker keeps its files open.

use crate::paths::{components, path_components};
use crate::table::{
    path_map_entries, path_map_get, path_map_insert, path_map_new, path_map_remove, path_set_contains,
    path_set_entries, path_set_insert, path_set_new, path_set_remove, PathMap, PathSet,
};
use vstd::prelude::*;

verus! {

/// What a worker reports about itself.
#[derive(Clone, Copy, Debug, PartialEq, Eq, Structural)]
pub enum WorkerStatus {
    /// No work is waiting.
    Idle,
    /// This many messages are waiting.
    Busy(usize),
}

/// The worker chosen for a book file that no worker holds.
#[derive(Clone, Copy, Debug, PartialEq, Eq, Structural)]
pub enum WorkerChoice {
    /// The worker at this position.
    Existing(usize),
    /// A new worker, to be started.
    Spawn,
}

/// The position of the first idle worker, or -1.
pub open spec fn first_idle(statuses: Seq<WorkerStatus>) -> int
    decreases statuses.len(),
{
    if statuses.len() == 0 {
        -1
    } else if first_idle(statuses.drop_last()) >= 0 {
        first_idle(statuses.drop_last())
    } else if statuses.last() == WorkerStatus::Idle {
        statuses.len() - 1
    } else {
        -1
    }
}

/// The number of messages waiting for a worker.
pub open spec fn load(status: WorkerStatus) -> int {
    match status {
        WorkerStatus::Idle => 0,
        WorkerStatus::Busy(n) => n as int,
    }
}

/// `i` is the first of the least loaded workers.
pub open spec fn is_first_least_loaded(statuses: Seq<WorkerStatus>, i: int) -> bool {
    &&& 0 <= i < statuses.len()
    &&& forall|j: int| 0 <= j < statuses.len() ==> load(statuses[i]) <= load(#[trigger] statuses[j])
    &&& forall|j: int| 0 <= j < i ==> load(statuses[i]) < load(#[trigger] statuses[j])
}

proof fn lemma_first_idle(statuses: Seq<WorkerStatus>)
    ensures
        -1 <= first_idle(statuses) < statuses.len(),
        first_idle(statuses) >= 0 ==> statuses[first_idle(statuses)] == WorkerStatus::Idle,
        first_idle(statuses) >= 0 ==> forall|j: int| 0 <= j < first_idle(statuses) ==> statuses[j] != WorkerStatus::Idle,
        first_idle(statuses) == -1 ==> forall|j: int| 0 <= j < statuses.len() ==> statuses[j] != WorkerStatus::Idle,
    decreases statuses.len(),
{
    if statuses.len() > 0 {
        let d = statuses.drop_last();
        lemma_first_idle(d);
        assert(forall|j: int| 0 <= j < d.len() ==> d[j] == statuses[j]);
    }
}

/// Chooses the worker for a book file that no worker holds: the first idle worker; else a new
/// one, while fewer than `max_workers` run; else the first of the least busy. There must be a
/// worker to choose or room for one.
pub fn choose_worker(statuses: &Vec<WorkerStatus>, max_workers: usize) -> (r: WorkerChoice)
    requires
        statuses@.len() > 0 || max_workers > 0,
    ensures
        first_idle(statuses@) >= 0 ==> r == WorkerChoice::Existing(first_idle(statuses@) as usize),
        first_idle(statuses@) < 0 && statuses@.len() < max_workers ==> r == WorkerChoice::Spawn,
        first_idle(statuses@) < 0 && statuses@.len() >= max_workers ==> r is Existing
            && is_first_least_loaded(statuses@, r->Existing_0 as int),
{
    proof {
        lemma_first_idle(statuses@);
    }
    let n = statuses.len();
    let mut best: usize = 0;
    let mut i: usize = 0;
    while i < n
        invariant
            n == statuses@.len(),
            i <= n,
            forall|j: int| 0 <= j < i ==> statuses@[j] != WorkerStatus::Idle,
            i > 0 ==> best < i,
            i > 0 ==> forall|j: int| 0 <= j < i ==> load(statuses@[best as int]) <= load(#[trigger] statuses@[j]),
            i > 0 ==> forall|j: int| 0 <= j < best ==> load(statuses@[best as int]) < load(#[trigger] statuses@[j]),
        decreases n - i,
    {
        match statuses[i] {
            WorkerStatus::Idle => {
                proof {
                    lemma_first_idle(statuses@);
                    assert(statuses@[i as int] == WorkerStatus::Idle);
                }
                return WorkerChoice::Existing(i);
            },
            WorkerStatus::Busy(amount) => {
                if i == 0 {
                    best = 0;
                } else {
                    match statuses[best] {
                        WorkerStatus::Busy(least) => {
                            if amount < least {
                                best = i;
                            }
                        },
                        WorkerStatus::Idle => {},
                    }
                }
            },
        }
        i = i + 1;
    }
    proof {
        lemma_first_idle(statuses@);
    }
    if n < max_workers {
        WorkerChoice::Spawn
    } else {
        WorkerChoice::Existing(best)
    }
}

/// Where a message about a book file goes.
#[derive(Clone, Copy, Debug, PartialEq, Eq, Structural)]
pub enum Route {
    /// To the worker that holds the file.
    Worker(usize),
    /// To a worker still to be chosen; the file is no longer counted as held.
    ChooseWorker,
}

/// Where a message about `path` goes, given the workers recorded as holding files and whether
/// the recorded holder still has it open, and the records afterwards.
pub open spec fn route_of(holders: Map<Seq<Seq<char>>, usize>, path: Seq<Seq<char>>, holder_has_file: bool) -> (
    Route,
    Map<Seq<Seq<char>>, usize>,
) {
    if holders.contains_key(path) && holder_has_file {
        (Route::Worker(holders[path]), holders)
    } else {
        (Route::ChooseWorker, holders.remove(path))
    }
}

/// The workers that hold book files open, by path. Paths are told apart by their components
/// (`components`), as `PathBuf`'s `Eq` and `Hash` do: `/books//a.cbz` and `/books/a.cbz` are
/// the same file.
pub struct FileTable {
    files: PathMap,
}

impl FileTable {
    /// The worker holding each file.
    pub closed spec fn holders(&self) -> Map<Seq<Seq<char>>, usize> {
        path_map_entries(self.files)
    }

    /// No file is held.
    pub fn new() -> (t: FileTable)
        ensures
            t.holders() == Map::<Seq<Seq<char>>, usize>::empty(),
    {
        let t = FileTable { files: path_map_new() };
        assert(t.holders() =~= Map::<Seq<Seq<char>>, usize>::empty());
        t
    }

    /// The worker recorded as holding `path`, if any.
    pub fn holder(&self, path: &String) -> (r: Option<usize>)
        ensures
            r is Some <==> self.holders().contains_key(components(path@)),
            r is Some ==> r->0 == self.holders()[components(path@)],
    {
        path_map_get(&self.files, &path_components(path.as_str()))
    }

    /// Routes a message about `path`, given whether the worker recorded as holding it still
    /// has it open. A message goes to that worker when it does; otherwise the record is dropped
    /// and a worker must be chosen.
    pub fn route(&mut self, path: &String, holder_has_file: bool) -> (r: Route)
        ensures
            (r, final(self).holders()) == route_of(old(self).holders(), components(path@), holder_has_file),
    {
        let key = path_components(path.as_str());
        match path_map_get(&self.files, &key) {
            Some(worker) => {
                if holder_has_file {
                    return Route::Worker(worker);
                }
                path_map_remove(&mut self.files, &key);
                Route::ChooseWorker
            },
            None => {
                proof {
                    assert(self.holders().remove(components(path@)) =~= self.holders());
                }
                Route::ChooseWorker
            },
        }
    }

    /// Records that `worker` now holds `path`.
    pub fn assign(&mut self, path: String, worker: usize)
        ensures
            final(self).holders() == old(self).holders().insert(components(path@), worker),
    {
        path_map_insert(&mut self.files, path_components(path.as_str()), worker);
    }
}

/// The requests that a worker serves.
#[derive(Clone, Copy, Debug, PartialEq, Eq, Structural)]
pub enum Request {
    Close,
    DeletePage,
    ExtractCover,
    GetFirstPageName,
    GetMetadata,
    GetPages,
    HasBookFileInCache,
    ReadPage,
    SetMetadata,
    Status,
}

/// Whether a request is about a book file: all are, except `Status`.
pub fn has_path(request: Request) -> (r: bool)
    ensures
        r == (request != Request::Status),
{
    match request {
        Request::Status => false,
        _ => true,
    }
}

/// What a worker does with its open files to serve a request.
#[derive(Clone, Copy, Debug, PartialEq, Eq, Structural)]
pub enum CacheAction {
    /// Use the open file.
    UseOpen,
    /// Open the file and keep it open.
    OpenAndKeep,
    /// Take the open file out of the cache: it is about to be rewritten.
    TakeOpen,
    /// Open the file without keeping it: it is about to be rewritten.
    OpenOnce,
    /// Close the file, if it is open.
    Close,
    /// Answer whether the file is open.
    Report(bool),
    /// Nothing to do with files.
    Nothing,
}

/// The requests that read a book file and keep it open.
pub open spec fn reads_file(request: Request) -> bool {
    request == Request::ExtractCover || request == Request::GetFirstPageName || request
        == Request::GetMetadata || request == Request::GetPages || request == Request::ReadPage
}

/// The requests that rewrite a book file, which must not stay open while it is rewritten.
pub open spec fn rewrites_file(request: Request) -> bool {
    request == Request::DeletePage || request == Request::SetMetadata
}

/// How the cache serves `request` for a file, given whether the file is open: the action and
/// whether the file is open afterwards, once any open that the action asks for has succeeded.
pub open spec fn cache_transition(request: Request, is_open: bool) -> (CacheAction, bool) {
    if request == Request::Close {
        (CacheAction::Close, false)
    } else if request == Request::Status {
        (CacheAction::Nothing, is_open)
    } else if request == Request::HasBookFileInCache {
        (CacheAction::Report(is_open), is_open)
    } else if rewrites_file(request) {
        (if is_open { CacheAction::TakeOpen } else { CacheAction::OpenOnce }, false)
    } else {
        (if is_open { CacheAction::UseOpen } else { CacheAction::OpenAndKeep }, true)
    }
}

/// How the cache serves a request for a file, given whether the file is open. Reading keeps the
/// file open; rewriting it (deleting a page, writing metadata) and closing leave it closed.
/// Returns the action and whether the file is open afterwards.
pub fn cache_step(request: Request, is_open: bool) -> (r: (CacheAction, bool))
    ensures
        r == cache_transition(request, is_open),
{
    match request {
        Request::Close => (CacheAction::Close, false),
        Request::Status => (CacheAction::Nothing, is_open),
        Request::HasBookFileInCache => (CacheAction::Report(is_open), is_open),
        Request::DeletePage | Request::SetMetadata => {
            if is_open {
                (CacheAction::TakeOpen, false)
            } else {
                (CacheAction::OpenOnce, false)
            }
        },
        _ => {
            if is_open {
                (CacheAction::UseOpen, true)
            } else {
                (CacheAction::OpenAndKeep, true)
            }
        },
    }
}

/// The book files a worker keeps open, by path, told apart by their components as in
/// `FileTable`.
pub struct OpenFiles {
    files: PathSet,
}

impl OpenFiles {
    /// The components of the paths of the open files.
    pub closed spec fn open_paths(&self) -> Set<Seq<Seq<char>>> {
        path_set_entries(self.files)
    }

    /// No file is open.
    pub fn new() -> (o: OpenFiles)
        ensures
            o.open_paths() == Set::<Seq<Seq<char>>>::empty(),
    {
        OpenFiles { files: path_set_new() }
    }

    /// Serves `request` for the file at `path`: the action to take with the file, as
    /// `cache_transition` says given whether it is open. A file that the action closes, or
    /// takes out to rewrite, is no longer recorded as open. A file that the action opens to keep
    /// is not recorded yet: it is recorded by `kept_open` once opening it succeeds, so a failed
    /// open leaves the open files as they were. No other file changes.
    pub fn serve(&mut self, request: Request, path: &String) -> (action: CacheAction)
        ensures
            action == cache_transition(request, old(self).open_paths().contains(components(path@))).0,
            action == CacheAction::OpenAndKeep ==> final(self).open_paths() == old(self).open_paths(),
            action != CacheAction::OpenAndKeep && cache_transition(request, old(self).open_paths().contains(components(path@))).1
                ==> final(self).open_paths() == old(self).open_paths().insert(components(path@)),
            !cache_transition(request, old(self).open_paths().contains(components(path@))).1
                ==> final(self).open_paths() == old(self).open_paths().remove(components(path@)),
    {
        let key = path_components(path.as_str());
        let is_open = path_set_contains(&self.files, &key);
        let (action, open_after) = cache_step(request, is_open);
        if !open_after {
            path_set_remove(&mut self.files, &key);
            proof {
                assert(self.open_paths() =~= old(self).open_paths().remove(components(path@)));
            }
        } else {
            proof {
                if action != CacheAction::OpenAndKeep {
                    assert(is_open);
                    assert(self.open_paths() =~= old(self).open_paths().insert(components(path@)));
                }
            }
        }
        action
    }

    /// Records that the file at `path` was opened and is kept open.
    pub fn kept_open(&mut self, path: &String)
        ensures
            final(self).open_paths() == old(self).open_paths().insert(components(path@)),
    {
        path_set_insert(&mut self.files, path_components(path.as_str()));
    }
}

/// A file read once stays open, and the next read uses the open file; a file rewritten or
/// closed is not open afterwards, so the next read opens it again and sees what was written.
pub proof fn law_cache_keeps_read_files_open(first: Request, next: Request, is_open: bool)
    requires
        reads_file(next),
    ensures
        reads_file(first) ==> cache_transition(first, is_open).1
            && cache_transition(next, cache_transition(first, is_open).1) == (CacheAction::UseOpen, true),
        (rewrites_file(first) || first == Request::Close) ==> !cache_transition(first, is_open).1
            && cache_transition(next, cache_transition(first, is_open).1) == (
            CacheAction::OpenAndKeep,
            true,
        ),
        cache_transition(Request::HasBookFileInCache, is_open) == (CacheAction::Report(is_open), is_open),
{
}

/// A message about a file goes to the worker it was last assigned to while that worker still
/// has the file open; once the worker no longer has it, the record is dropped, and every later
/// message about the file asks for a worker to be chosen until the file is assigned again.
pub proof fn law_routes_follow_assignment(
    holders: Map<Seq<Seq<char>>, usize>,
    path: Seq<Seq<char>>,
    worker: usize,
    has_file: bool,
)
    ensures
        route_of(holders.insert(path, worker), path, true) == (
            Route::Worker(worker),
            holders.insert(path, worker),
        ),
        route_of(route_of(holders, path, false).1, path, has_file).0 == Route::ChooseWorker,
        forall|other: Seq<Seq<char>>| other != path ==> route_of(holders, path, has_file).1.contains_key(other)
            == #[trigger] holders.contains_key(other),
{
}

/// The worker chosen among running ones is idle when any is, and then no worker before it is
/// idle; when none is idle and no new worker may start, it is one with the fewest messages
/// waiting, and no worker before it has as few.
pub proof fn law_chosen_worker_is_the_first_idle_or_least_busy(statuses: Seq<WorkerStatus>)
    ensures
        (exists|k: int| 0 <= k < statuses.len() && #[trigger] statuses[k] == WorkerStatus::Idle) ==> {
            let i = first_idle(statuses);
            &&& 0 <= i < statuses.len()
            &&& statuses[i] == WorkerStatus::Idle
            &&& forall|k: int| 0 <= k < i ==> #[trigger] statuses[k] != WorkerStatus::Idle
        },
        (forall|k: int| 0 <= k < statuses.len() ==> #[trigger] statuses[k] != WorkerStatus::Idle) ==> first_idle(statuses) < 0,
{
    lemma_first_idle(statuses);
}

} // verus!
