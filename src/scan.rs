//! Walking a project tree. The scanner holds a stack of directories still to read; its driver
//! asks for the next one, lists it, and hands the entries back. The scanner records each file
//! under its role and queues each subdirectory that is neither excluded by name nor already
//! queued under the same real path, which also keeps link cycles from looping.
use vstd::prelude::*;
use crate::classify::contains_name;
use crate::paths::{child_path, child_path_of};
use crate::project::{ProjectStructure, StructureView};
use crate::structure::{categorized, excluded_dir_name, is_excluded_dir_name};

verus! {

/// What a directory entry is.
#[derive(Clone, Copy, Debug, PartialEq, Eq, Structural)]
pub enum EntryKind {
    File,
    Dir,
    Other,
}

/// One entry of a listed directory: its name, its kind and, for a directory, the path it
/// resolves to once links are followed.
#[derive(Clone, Debug)]
pub struct ScanEntry {
    pub name: String,
    pub kind: EntryKind,
    pub real_path: String,
}

/// The path of the directory reached from `root` through the directories `comps`.
pub open spec fn under(root: Seq<char>, comps: Seq<Seq<char>>) -> Seq<char>
    decreases comps.len(),
{
    if comps.len() == 0 {
        root
    } else {
        child_path(under(root, comps.drop_last()), comps.last())
    }
}

/// No directory of `comps` has an excluded name.
pub open spec fn clean(comps: Seq<Seq<char>>) -> bool {
    forall|i: int| 0 <= i < comps.len() ==> !excluded_dir_name(#[trigger] comps[i])
}

/// What a scan has gathered: the structure so far, the directories still to read (each as
/// the names leading to it from the root; the last is read next), and the real paths of every
/// directory queued so far.
pub struct ScanState {
    pub structure: StructureView,
    pub queue: Seq<Seq<Seq<char>>>,
    pub visited: Seq<Seq<char>>,
}

/// `st` after one entry of the directory `dir`, reached through `comps`.
pub open spec fn after_entry(
    st: ScanState,
    dir: Seq<char>,
    comps: Seq<Seq<char>>,
    e: ScanEntry,
) -> ScanState {
    match e.kind {
        EntryKind::File => ScanState {
            structure: categorized(st.structure, child_path(dir, e.name@)),
            ..st
        },
        EntryKind::Dir => if excluded_dir_name(e.name@) || st.visited.contains(e.real_path@) {
            st
        } else {
            ScanState {
                queue: st.queue.push(comps.push(e.name@)),
                visited: st.visited.push(e.real_path@),
                ..st
            }
        },
        EntryKind::Other => st,
    }
}

/// `st` after the entries `es` of the directory `dir`, reached through `comps`, in order.
pub open spec fn after_entries(
    st: ScanState,
    dir: Seq<char>,
    comps: Seq<Seq<char>>,
    es: Seq<ScanEntry>,
) -> ScanState
    decreases es.len(),
{
    if es.len() == 0 {
        st
    } else {
        after_entry(after_entries(st, dir, comps, es.drop_last()), dir, comps, es.last())
    }
}

/// `after` is what `feed` leaves when handed `entries` in the scan `before`.
pub open spec fn fed(before: TreeScanner, entries: Seq<ScanEntry>, after: TreeScanner) -> bool {
    &&& after.root_path() == before.root_path()
    &&& after.current_dir() == before.current_dir()
    &&& after.pruned()
    &&& match before.current_dir() {
        Some(c) => after.state() == after_entries(
            before.state(),
            under(before.root_path(), c),
            c,
            entries,
        ),
        None => after.state() == before.state(),
    }
}

struct PendingDir {
    path: String,
    comps: Ghost<Seq<Seq<char>>>,
}

impl PendingDir {
    spec fn placed(self, root: Seq<char>) -> bool {
        self.path@ == under(root, self.comps@) && clean(self.comps@)
    }
}

/// A scan in progress.
pub struct TreeScanner {
    root: String,
    pending: Vec<PendingDir>,
    visited: Vec<String>,
    current: Option<PendingDir>,
    structure: ProjectStructure,
}

impl TreeScanner {
    /// Every queued directory, and the one being read, lies where its names lead and passes
    /// through no excluded directory.
    #[verifier::type_invariant]
    spec fn placed_dirs(self) -> bool {
        &&& forall|k: int| 0 <= k < self.pending@.len() ==> (#[trigger] self.pending@[k]).placed(self.root@)
        &&& self.current matches Some(c) ==> c.placed(self.root@)
    }

    /// Every queued directory, and the one being read, passes through no excluded directory
    /// below the root.
    pub open spec fn pruned(self) -> bool {
        &&& forall|k: int, m: int|
            0 <= k < self.state().queue.len() && 0 <= m < self.state().queue[k].len()
                ==> !excluded_dir_name(#[trigger] self.state().queue[k][m])
        &&& self.current_dir() matches Some(c) ==> clean(c)
    }

    fn establish_pruned(&self)
        ensures
            self.pruned(),
    {
        proof {
            use_type_invariant(self);
            assert forall|k: int, m: int|
                0 <= k < self.state().queue.len() && 0 <= m < self.state().queue[k].len() implies !excluded_dir_name(
                #[trigger] self.state().queue[k][m],
            ) by {
                assert(self.pending@[k].placed(self.root@));
                assert(self.state().queue[k] == self.pending@[k].comps@);
            }
        }
    }

    /// The path the scan started from.
    pub closed spec fn root_path(self) -> Seq<char> {
        self.root@
    }

    /// What the scan has gathered.
    pub closed spec fn state(self) -> ScanState {
        ScanState {
            structure: self.structure@,
            queue: self.pending@.map_values(|d: PendingDir| d.comps@),
            visited: self.visited@.map_values(|s: String| s@),
        }
    }

    /// The directory being read, as the names leading to it from the root.
    pub closed spec fn current_dir(self) -> Option<Seq<Seq<char>>> {
        match self.current {
            Some(c) => Some(c.comps@),
            None => None,
        }
    }

    /// A scan of the tree at `root`, whose real path is `root_real`: only the root is queued.
    pub fn new(root: String, root_real: String) -> (r: TreeScanner)
        ensures
            r.root_path() == root@,
            r.state().structure == ProjectStructure::new_view(),
            r.state().queue == seq![Seq::<Seq<char>>::empty()],
            r.state().visited == seq![root_real@],
            r.current_dir() is None,
            r.pruned(),
    {
        let first = PendingDir { path: root.clone(), comps: Ghost(Seq::empty()) };
        let mut pending: Vec<PendingDir> = Vec::new();
        pending.push(first);
        let mut visited: Vec<String> = Vec::new();
        visited.push(root_real);
        let r = TreeScanner {
            root,
            pending,
            visited,
            current: None,
            structure: ProjectStructure::new(),
        };
        proof {
            assert(r.state().queue =~= seq![Seq::<Seq<char>>::empty()]);
            assert(r.state().visited =~= seq![root_real@]);
        }
        r.establish_pruned();
        r
    }

    fn placeholder() -> (r: TreeScanner) {
        TreeScanner {
            root: String::new(),
            pending: Vec::new(),
            visited: Vec::new(),
            current: None,
            structure: ProjectStructure::new(),
        }
    }

    /// Takes the next directory off the stack, makes it the one being read, and returns its
    /// path; `None` once the stack is empty.
    pub fn next_dir(&mut self) -> (r: Option<String>)
        ensures
            final(self).root_path() == old(self).root_path(),
            final(self).pruned(),
            old(self).state().queue.len() == 0 ==> {
                &&& r is None
                &&& final(self).state() == old(self).state()
                &&& final(self).current_dir() is None
            },
            old(self).state().queue.len() > 0 ==> {
                let q = old(self).state().queue;
                &&& r matches Some(p) && p@ == under(old(self).root_path(), q.last())
                &&& final(self).state() == (ScanState { queue: q.drop_last(), ..old(self).state() })
                &&& final(self).current_dir() == Some(q.last())
            },
    {
        let mut s = Self::placeholder();
        core::mem::swap(self, &mut s);
        proof {
            use_type_invariant(&s);
        }
        let TreeScanner { root, mut pending, visited, current: _, structure } = s;
        let ghost q = pending@;
        let popped = pending.pop();
        proof {
            if q.len() > 0 {
                assert(pending@.map_values(|d: PendingDir| d.comps@) =~= q.map_values(
                    |d: PendingDir| d.comps@,
                ).drop_last());
            }
        }
        match popped {
            Some(d) => {
                let p = d.path.clone();
                *self = TreeScanner { root, pending, visited, current: Some(d), structure };
                self.establish_pruned();
                Some(p)
            },
            None => {
                *self = TreeScanner { root, pending, visited, current: None, structure };
                self.establish_pruned();
                None
            },
        }
    }

    /// Takes in the entries of the directory being read: records each file, and queues each
    /// subdirectory that is not excluded by name and whose real path was not queued before.
    /// Nothing changes where no directory is being read.
    pub fn feed(&mut self, entries: &Vec<ScanEntry>)
        ensures
            fed(*old(self), entries@, *final(self)),
    {
        let mut s = Self::placeholder();
        core::mem::swap(self, &mut s);
        proof {
            use_type_invariant(&s);
        }
        let ghost st0 = s.state();
        let TreeScanner { root, mut pending, mut visited, current, mut structure } = s;
        let cur = match current {
            Some(c) => c,
            None => {
                *self = TreeScanner { root, pending, visited, current: None, structure };
                self.establish_pruned();
                return;
            },
        };
        let ghost comps = cur.comps@;
        let ghost dir = cur.path@;
        let mut i: usize = 0;
        while i < entries.len()
            invariant
                i <= entries@.len(),
                cur.placed(root@),
                comps == cur.comps@,
                dir == cur.path@,
                forall|k: int| 0 <= k < pending@.len() ==> (#[trigger] pending@[k]).placed(root@),
                (ScanState {
                    structure: structure@,
                    queue: pending@.map_values(|d: PendingDir| d.comps@),
                    visited: visited@.map_values(|s: String| s@),
                }) == after_entries(st0, dir, comps, entries@.take(i as int)),
            decreases entries@.len() - i,
        {
            proof {
                assert(entries@.take(i + 1).drop_last() =~= entries@.take(i as int));
                assert(entries@.take(i + 1).last() == entries@[i as int]);
            }
            let e = &entries[i];
            match e.kind {
                EntryKind::File => {
                    let p = child_path_of(cur.path.as_str(), e.name.as_str());
                    structure.categorize_file(p.as_str());
                },
                EntryKind::Dir => {
                    let seen = contains_name(&visited, e.real_path.as_str());
                    proof {
                        let vv = visited@.map_values(|s: String| s@);
                        if vv.contains(e.real_path@) {
                            let j = choose|j: int| 0 <= j < vv.len() && vv[j] == e.real_path@;
                            assert(visited@[j]@ == e.real_path@);
                        }
                        if seen {
                            let j = choose|j: int|
                                0 <= j < visited@.len() && visited@[j]@ == e.real_path@;
                            assert(vv[j] == e.real_path@);
                        }
                    }
                    if !is_excluded_dir_name(e.name.as_str()) && !seen {
                        let ghost qv = pending@;
                        let ghost vis = visited@;
                        let d = PendingDir {
                            path: child_path_of(cur.path.as_str(), e.name.as_str()),
                            comps: Ghost(comps.push(e.name@)),
                        };
                        proof {
                            assert(comps.push(e.name@).drop_last() =~= comps);
                            assert(clean(comps.push(e.name@))) by {
                                assert forall|m: int| 0 <= m < comps.push(e.name@).len() implies !excluded_dir_name(
                                    #[trigger] comps.push(e.name@)[m],
                                ) by {
                                    if m < comps.len() {
                                        assert(comps.push(e.name@)[m] == comps[m]);
                                    }
                                }
                            }
                        }
                        pending.push(d);
                        visited.push(e.real_path.clone());
                        proof {
                            assert(pending@.map_values(|d: PendingDir| d.comps@) =~= qv.map_values(
                                |d: PendingDir| d.comps@,
                            ).push(comps.push(e.name@)));
                            assert(visited@.map_values(|s: String| s@) =~= vis.map_values(
                                |s: String| s@,
                            ).push(e.real_path@));
                        }
                    }
                },
                EntryKind::Other => {},
            }
            i = i + 1;
        }
        proof {
            assert(entries@.take(i as int) =~= entries@);
        }
        *self = TreeScanner { root, pending, visited, current: Some(cur), structure };
        self.establish_pruned();
    }

    /// The structure gathered so far.
    pub fn structure(&self) -> (r: &ProjectStructure)
        ensures
            r@ == self.state().structure,
    {
        &self.structure
    }

    /// Ends the scan, handing back the structure it gathered.
    pub fn into_structure(self) -> (r: ProjectStructure)
        ensures
            r@ == self.state().structure,
    {
        self.structure
    }
}

} // verus!
