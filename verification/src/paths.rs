//! Socket paths, and the filesystem model that binding and cleanup act on.
//!
//! A path is a sequence of components together with an absolute/relative
//! flag. The part of the filesystem this core touches is modelled as two
//! sets of absolute paths: the entries (files, sockets) and the directories.
//! Binding the listening channel is a verified transition on that model; the
//! unverified shell replays the same transition against the real filesystem,
//! where an operation can also fail for external reasons (permissions, a
//! directory sitting at the entry's path) that surface as `FilesystemError`.

use vstd::prelude::*;

verus! {

/// Mathematical value of a [`SockPath`]: whether the path is absolute, and
/// its components in order.
#[verifier::ext_equal]
pub struct PathView {
    pub absolute: bool,
    pub components: Seq<Seq<char>>,
}

impl PathView {
    /// A usable path names at least one component.
    pub open spec fn wf(self) -> bool {
        self.components.len() >= 1
    }

    /// The directory holding the path's last component.
    pub open spec fn parent(self) -> PathView {
        PathView { absolute: self.absolute, components: self.components.drop_last() }
    }

    /// The prefix of the path that keeps its first `k` components.
    pub open spec fn prefix(self, k: int) -> PathView {
        PathView { absolute: self.absolute, components: self.components.take(k) }
    }

    /// Every proper, nonempty prefix of the path: the directories that must
    /// exist before an entry can be created at the path.
    pub open spec fn ancestors(self) -> Set<PathView> {
        Set::new(
            |d: PathView|
                d.absolute == self.absolute && 1 <= d.components.len() < self.components.len()
                    && d.components == self.components.take(d.components.len() as int),
        )
    }
}

/// An operating-system path, split into its components. A relative path can
/// be represented (`absolute == false`) but is never bound.
pub struct SockPath {
    pub absolute: bool,
    pub components: Vec<String>,
}

impl View for SockPath {
    type V = PathView;

    open spec fn view(&self) -> PathView {
        PathView {
            absolute: self.absolute,
            components: Seq::new(self.components@.len(), |i: int| self.components@[i]@),
        }
    }
}

impl SockPath {
    /// A fresh path with the same value.
    #[verifier::loop_isolation(false)]
    pub fn clone_of(&self) -> (r: SockPath)
        ensures
            r@ == self@,
    {
        let mut comps: Vec<String> = Vec::new();
        let mut i: usize = 0;
        while i < self.components.len()
            invariant
                i <= self.components.len(),
                comps@.len() == i as int,
                forall|j: int| 0 <= j < i ==> comps@[j]@ == self.components@[j]@,
            decreases self.components.len() - i,
        {
            comps.push(self.components[i].clone());
            i += 1;
        }
        let r = SockPath { absolute: self.absolute, components: comps };
        proof {
            assert(r@.components =~= self@.components);
            assert(r@ =~= self@);
        }
        r
    }

    /// Whether `self` and `other` name the same path.
    #[verifier::loop_isolation(false)]
    pub fn same_path(&self, other: &SockPath) -> (r: bool)
        ensures
            r == (self@ == other@),
    {
        if self.absolute != other.absolute {
            return false;
        }
        if self.components.len() != other.components.len() {
            assert(self@.components.len() != other@.components.len());
            return false;
        }
        let n = self.components.len();
        let mut i: usize = 0;
        while i < n
            invariant
                i <= n,
                forall|j: int| 0 <= j < i ==> self@.components[j] == other@.components[j],
            decreases n - i,
        {
            if !(self.components[i] == other.components[i]) {
                assert(self@.components[i as int] != other@.components[i as int]);
                return false;
            }
            i += 1;
        }
        proof {
            assert(self@.components =~= other@.components);
            assert(self@ =~= other@);
        }
        true
    }
}

/// The values of a sequence of paths.
pub open spec fn path_views(s: Seq<SockPath>) -> Seq<PathView> {
    s.map_values(|p: SockPath| p@)
}

/// No two paths of the sequence have the same value.
pub open spec fn distinct_views(s: Seq<SockPath>) -> bool {
    forall|i: int, j: int| 0 <= i < j < s.len() ==> s[i]@ != s[j]@
}

/// Model of the part of the filesystem the lifecycle touches: the entries
/// (files, sockets) and the directories, each named by an absolute path.
#[verifier::ext_equal]
pub struct FsState {
    pub files: Set<PathView>,
    pub dirs: Set<PathView>,
}

impl FsState {
    /// Every recorded path is absolute and nonempty, and both entries and
    /// directories sit in directories that exist, as on a real filesystem.
    pub open spec fn wf(self) -> bool {
        &&& forall|d: PathView| #[trigger]
            self.dirs.contains(d) ==> d.absolute && d.wf() && (d.components.len() > 1
                ==> self.dirs.contains(d.parent()))
        &&& forall|f: PathView| #[trigger]
            self.files.contains(f) ==> f.absolute && f.wf() && (f.components.len() > 1
                ==> self.dirs.contains(f.parent()))
    }

    /// Whether the directory that would hold `p` exists. A single-component
    /// absolute path sits in the root, which always exists.
    pub open spec fn parent_exists(self, p: PathView) -> bool {
        p.components.len() <= 1 || self.dirs.contains(p.parent())
    }
}

/// The filesystem after a successful bind of the listening channel at `p`:
/// a stale entry is replaced in place; otherwise the missing ancestor
/// directories and then the entry are created.
pub open spec fn fs_after_bind(fs: FsState, p: PathView) -> FsState {
    if fs.files.contains(p) {
        fs
    } else {
        FsState { files: fs.files.insert(p), dirs: fs.dirs.union(p.ancestors()) }
    }
}

/// An executable mirror of [`FsState`]: one representative per recorded path.
pub struct FsSim {
    pub files: Vec<SockPath>,
    pub dirs: Vec<SockPath>,
}

impl View for FsSim {
    type V = FsState;

    open spec fn view(&self) -> FsState {
        FsState {
            files: path_views(self.files@).to_set(),
            dirs: path_views(self.dirs@).to_set(),
        }
    }
}

/// Appending a path to a list adds its value to the list's value set, and
/// keeps the representatives distinct when the value is new.
proof fn lemma_push_view(s: Seq<SockPath>, x: SockPath)
    ensures
        path_views(s.push(x)).to_set() =~= path_views(s).to_set().insert(x@),
        distinct_views(s) && !path_views(s).to_set().contains(x@) ==> distinct_views(s.push(x)),
{
    assert(path_views(s.push(x)) =~= path_views(s).push(x@));
    assert forall|y: PathView| path_views(s).push(x@).contains(y) implies path_views(
        s,
    ).to_set().insert(x@).contains(y) by {
        let i = choose|i: int|
            0 <= i < path_views(s).push(x@).len() && path_views(s).push(x@)[i] == y;
        if i < s.len() {
            assert(path_views(s)[i] == y);
            assert(path_views(s).contains(y));
        }
    }
    assert forall|y: PathView| path_views(s).to_set().insert(x@).contains(y) implies path_views(
        s,
    ).push(x@).contains(y) by {
        if y == x@ {
            assert(path_views(s).push(x@)[s.len() as int] == y);
        } else {
            let i = choose|i: int| 0 <= i < path_views(s).len() && path_views(s)[i] == y;
            assert(path_views(s).push(x@)[i] == y);
        }
    }
    if distinct_views(s) && !path_views(s).to_set().contains(x@) {
        assert forall|i: int, j: int| 0 <= i < j < s.push(x).len() implies s.push(x)[i]@ != s.push(
            x,
        )[j]@ by {
            if j == s.len() {
                assert(path_views(s)[i] == s[i]@);
                assert(s[i]@ != x@) by {
                    if s[i]@ == x@ {
                        assert(path_views(s).contains(x@));
                    }
                }
            }
        }
    }
}

/// Removing the representative at `i` from a distinct list removes exactly
/// its value from the list's value set.
proof fn lemma_remove_view(s: Seq<SockPath>, i: int)
    requires
        0 <= i < s.len(),
        distinct_views(s),
    ensures
        path_views(s.remove(i)).to_set() =~= path_views(s).to_set().remove(s[i]@),
        distinct_views(s.remove(i)),
{
    s.remove_ensures(i);
    path_views(s).remove_ensures(i);
    assert(path_views(s.remove(i)) =~= path_views(s).remove(i));
    let t = path_views(s).remove(i);
    assert forall|y: PathView| t.contains(y) implies path_views(s).to_set().remove(
        s[i]@,
    ).contains(y) by {
        let k = choose|k: int| 0 <= k < t.len() && t[k] == y;
        if k < i {
            assert(path_views(s)[k] == y);
            assert(path_views(s).contains(y));
            assert(s[k]@ != s[i]@);
        } else {
            assert(path_views(s)[k + 1] == y);
            assert(path_views(s).contains(y));
            assert(s[k + 1]@ != s[i]@);
        }
    }
    assert forall|y: PathView| path_views(s).to_set().remove(s[i]@).contains(y) implies t.contains(
        y,
    ) by {
        let k = choose|k: int| 0 <= k < path_views(s).len() && path_views(s)[k] == y;
        if k < i {
            assert(t[k] == y);
        } else {
            assert(k != i);
            assert(t[k - 1] == y);
        }
    }
    assert forall|a: int, b: int| 0 <= a < b < s.remove(i).len() implies s.remove(i)[a]@ != s.remove(
        i,
    )[b]@ by {
        if b < i {
            assert(s.remove(i)[a] == s[a] && s.remove(i)[b] == s[b]);
        } else if a < i {
            assert(s.remove(i)[a] == s[a] && s.remove(i)[b] == s[b + 1]);
        } else {
            assert(s.remove(i)[a] == s[a + 1] && s.remove(i)[b] == s[b + 1]);
        }
    }
}

/// Whether the value of `p` occurs in `list`.
#[verifier::loop_isolation(false)]
fn contains_path(list: &Vec<SockPath>, p: &SockPath) -> (r: bool)
    ensures
        r == path_views(list@).to_set().contains(p@),
{
    let n = list.len();
    let mut i: usize = 0;
    while i < n
        invariant
            i <= n,
            forall|j: int| 0 <= j < i ==> list@[j]@ != p@,
        decreases n - i,
    {
        if list[i].same_path(p) {
            assert(path_views(list@)[i as int] == p@);
            assert(path_views(list@).contains(p@));
            return true;
        }
        i += 1;
    }
    assert forall|k: int| 0 <= k < path_views(list@).len() implies path_views(list@)[k] != p@ by {
        assert(list@[k]@ != p@);
    }
    assert(!path_views(list@).contains(p@));
    false
}

impl FsSim {
    /// The representation holds each path at most once and mirrors a
    /// well-formed filesystem.
    pub open spec fn wf(self) -> bool {
        distinct_views(self.files@) && distinct_views(self.dirs@) && self@.wf()
    }

    /// An empty filesystem.
    pub fn new() -> (r: FsSim)
        ensures
            r.wf(),
            r@.files == Set::<PathView>::empty(),
            r@.dirs == Set::<PathView>::empty(),
    {
        let r = FsSim { files: Vec::new(), dirs: Vec::new() };
        proof {
            assert(r@.files =~= Set::<PathView>::empty());
            assert(r@.dirs =~= Set::<PathView>::empty());
        }
        r
    }

    /// Whether an entry exists at `p`.
    pub fn exists_file(&self, p: &SockPath) -> (r: bool)
        ensures
            r == self@.files.contains(p@),
    {
        contains_path(&self.files, p)
    }

    /// Whether a directory exists at `p`.
    pub fn exists_dir(&self, p: &SockPath) -> (r: bool)
        ensures
            r == self@.dirs.contains(p@),
    {
        contains_path(&self.dirs, p)
    }

    /// Create an entry at `p`, whose holding directory must exist.
    pub fn create_entry(&mut self, p: &SockPath)
        requires
            old(self).wf(),
            p@.absolute,
            p@.wf(),
            !old(self)@.files.contains(p@),
            old(self)@.parent_exists(p@),
        ensures
            final(self).wf(),
            final(self)@.files == old(self)@.files.insert(p@),
            final(self)@.dirs == old(self)@.dirs,
    {
        let ghost before = self.files@;
        let fresh = p.clone_of();
        self.files.push(fresh);
        proof {
            lemma_push_view(before, self.files@.last());
            assert(self@.files =~= old(self)@.files.insert(p@));
            assert(self@.dirs =~= old(self)@.dirs);
            assert forall|f: PathView| #[trigger] self@.files.contains(f) implies f.absolute
                && f.wf() && (f.components.len() > 1 ==> self@.dirs.contains(f.parent())) by {
                if f != p@ {
                    assert(old(self)@.files.contains(f));
                }
            }
        }
    }

    /// Remove the entry at `p`.
    pub fn remove_entry(&mut self, p: &SockPath)
        requires
            old(self).wf(),
            old(self)@.files.contains(p@),
        ensures
            final(self).wf(),
            final(self)@.files == old(self)@.files.remove(p@),
            final(self)@.dirs == old(self)@.dirs,
    {
        let n = self.files.len();
        let mut i: usize = 0;
        #[verifier::loop_isolation(false)]
        while i < n
            invariant
                i <= n,
                n == self.files@.len(),
                *self == *old(self),
                forall|j: int| 0 <= j < i ==> self.files@[j]@ != p@,
            decreases n - i,
        {
            if self.files[i].same_path(p) {
                let ghost before = self.files@;
                let ghost idx = i as int;
                self.files.remove(i);
                proof {
                    lemma_remove_view(before, idx);
                    assert(self@.files =~= old(self)@.files.remove(p@));
                    assert(self@.dirs =~= old(self)@.dirs);
                    assert forall|f: PathView| #[trigger] self@.files.contains(f) implies f.absolute
                        && f.wf() && (f.components.len() > 1 ==> self@.dirs.contains(
                        f.parent(),
                    )) by {
                        assert(old(self)@.files.contains(f));
                    }
                }
                return ;
            }
            i += 1;
        }
        proof {
            assert forall|k: int| 0 <= k < path_views(self.files@).len() implies path_views(
                self.files@,
            )[k] != p@ by {
                assert(self.files@[k]@ != p@);
            }
            assert(!old(self)@.files.contains(p@));
            assert(false);
        }
    }

    /// Create the directory that would hold `p`, and any missing ancestors.
    /// Directories that already exist are kept; nothing else changes.
    #[verifier::loop_isolation(false)]
    pub fn create_dir_all(&mut self, p: &SockPath)
        requires
            old(self).wf(),
            p@.absolute,
            p@.wf(),
        ensures
            final(self).wf(),
            final(self)@.files == old(self)@.files,
            final(self)@.dirs == old(self)@.dirs.union(p@.ancestors()),
            final(self)@.parent_exists(p@),
    {
        let n = p.components.len();
        proof {
            assert(ancestors_upto(p@, 0) =~= Set::<PathView>::empty());
            assert(self@.dirs =~= old(self)@.dirs.union(ancestors_upto(p@, 0)));
        }
        let mut k: usize = 1;
        while k < n
            invariant
                1 <= k,
                k <= n || n == 0,
                self.files == old(self).files,
                distinct_views(self.dirs@),
                self@.dirs =~= old(self)@.dirs.union(ancestors_upto(p@, k as int - 1)),
                self@.wf(),
            decreases n - k,
        {
            let pre = prefix_path(p, k);
            let ghost pv = pre@;
            proof {
                assert(pv.components =~= p@.components.take(k as int));
                assert(pv == p@.prefix(k as int));
            }
            if !contains_path(&self.dirs, &pre) {
                let ghost before = self.dirs@;
                self.dirs.push(pre);
                proof {
                    lemma_push_view(before, self.dirs@.last());
                    assert(self@.dirs =~= old(self)@.dirs.union(
                        ancestors_upto(p@, k as int - 1),
                    ).insert(pv));
                    lemma_ancestors_upto_step(p@, k as int);
                    assert(self@.dirs =~= old(self)@.dirs.union(ancestors_upto(p@, k as int)));
                    assert forall|d: PathView| #[trigger] self@.dirs.contains(d) implies d.absolute
                        && d.wf() && (d.components.len() > 1 ==> self@.dirs.contains(
                        d.parent(),
                    )) by {
                        if d == pv {
                            assert(pv.components.len() == k as int);
                            if k > 1 {
                                assert(pv.parent().components =~= p@.components.take(k as int - 1));
                                assert(pv.parent() == p@.prefix(k as int - 1));
                                assert(ancestors_upto(p@, k as int - 1).contains(pv.parent()));
                            }
                        } else {
                            assert(old(self)@.dirs.union(
                                ancestors_upto(p@, k as int - 1),
                            ).contains(d));
                            if !old(self)@.dirs.contains(d) {
                                assert(ancestors_upto(p@, k as int - 1).contains(d));
                                if d.components.len() > 1 {
                                    let m = d.components.len() as int;
                                    assert(d.components == p@.components.take(m));
                                    assert(d.parent().components =~= p@.components.take(m - 1));
                                    assert(d.parent() == p@.prefix(m - 1));
                                    assert(ancestors_upto(p@, k as int - 1).contains(d.parent()));
                                }
                            }
                        }
                    }
                    assert forall|f: PathView| #[trigger] self@.files.contains(f) implies f.absolute
                        && f.wf() && (f.components.len() > 1 ==> self@.dirs.contains(
                        f.parent(),
                    )) by {
                        assert(old(self)@.files.contains(f));
                    }
                }
            } else {
                proof {
                    assert(self@.dirs.contains(pv));
                    lemma_ancestors_upto_step(p@, k as int);
                    assert(self@.dirs =~= old(self)@.dirs.union(ancestors_upto(p@, k as int)));
                }
            }
            k += 1;
        }
        proof {
            if n >= 1 {
                assert(ancestors_upto(p@, n as int - 1) =~= p@.ancestors());
            }
            assert(self@.dirs =~= old(self)@.dirs.union(p@.ancestors()));
            assert(self@.files =~= old(self)@.files);
            if n > 1 {
                let m = n as int - 1;
                assert(p@.parent().components =~= p@.components.take(m));
                assert(p@.parent() == p@.prefix(m));
                assert(p@.ancestors().contains(p@.parent()));
                assert(self@.dirs.contains(p@.parent()));
            }
        }
    }
}

/// A fresh path that keeps the first `k` components of `p`.
#[verifier::loop_isolation(false)]
fn prefix_path(p: &SockPath, k: usize) -> (r: SockPath)
    requires
        k <= p.components@.len(),
    ensures
        r@.absolute == p@.absolute,
        r@.components == p@.components.take(k as int),
{
    let mut comps: Vec<String> = Vec::new();
    let mut i: usize = 0;
    while i < k
        invariant
            i <= k,
            comps@.len() == i as int,
            forall|j: int| 0 <= j < i ==> comps@[j]@ == p.components@[j]@,
        decreases k - i,
    {
        comps.push(p.components[i].clone());
        i += 1;
    }
    let r = SockPath { absolute: p.absolute, components: comps };
    proof {
        assert(r@.components =~= p@.components.take(k as int));
    }
    r
}

/// The ancestors of `p` whose length is at most `k`.
pub open spec fn ancestors_upto(p: PathView, k: int) -> Set<PathView> {
    Set::new(
        |d: PathView|
            d.absolute == p.absolute && 1 <= d.components.len() <= k && d.components.len()
                < p.components.len() && d.components == p.components.take(
                d.components.len() as int,
            ),
    )
}

/// Raising the length bound by one brings in exactly the prefix of that length.
proof fn lemma_ancestors_upto_step(p: PathView, k: int)
    requires
        1 <= k,
    ensures
        k < p.components.len() ==> ancestors_upto(p, k) =~= ancestors_upto(p, k - 1).insert(
            p.prefix(k),
        ),
        k >= p.components.len() ==> ancestors_upto(p, k) =~= ancestors_upto(p, k - 1),
{
    if k < p.components.len() {
        assert forall|d: PathView| ancestors_upto(p, k).contains(d) implies ancestors_upto(
            p,
            k - 1,
        ).insert(p.prefix(k)).contains(d) by {
            if d.components.len() == k {
                assert(d.components == p.components.take(k));
                assert(d =~= p.prefix(k));
            }
        }
        assert(p.prefix(k).components.len() == k);
    }
}

/// Binding at an absolute path whose holding directory already exists, and
/// where no entry exists, creates exactly the one entry and no directories.
pub proof fn lemma_bind_parent_exists(fs: FsState, p: PathView)
    requires
        fs.wf(),
        p.absolute,
        p.wf(),
        fs.parent_exists(p),
        !fs.files.contains(p),
    ensures
        fs_after_bind(fs, p).files == fs.files.insert(p),
        fs_after_bind(fs, p).dirs == fs.dirs,
{
    assert forall|d: PathView| p.ancestors().contains(d) implies fs.dirs.contains(d) by {
        let m = d.components.len() as int;
        assert(d.components == p.components.take(m));
        assert(d =~= p.prefix(m));
        assert(p.parent().components =~= p.components.take(p.components.len() - 1));
        assert(p.parent() == p.prefix(p.components.len() - 1));
        lemma_prefix_dirs(fs, p, m, p.components.len() - 1);
    }
    assert(fs_after_bind(fs, p).dirs =~= fs.dirs);
}

/// In a well-formed filesystem that holds the prefix of `p` of length `m`,
/// every shorter nonempty prefix is held too.
proof fn lemma_prefix_dirs(fs: FsState, p: PathView, k: int, m: int)
    requires
        fs.wf(),
        1 <= k <= m,
        m < p.components.len(),
        fs.dirs.contains(p.prefix(m)),
    ensures
        fs.dirs.contains(p.prefix(k)),
    decreases m - k,
{
    if k < m {
        assert(p.prefix(m).components.len() == m);
        assert(p.prefix(m).parent().components =~= p.components.take(m - 1));
        assert(p.prefix(m).parent() == p.prefix(m - 1));
        assert(fs.dirs.contains(p.prefix(m - 1)));
        lemma_prefix_dirs(fs, p, k, m - 1);
    }
}

/// Binding at an absolute path whose holding directory is missing creates
/// that directory and any needed ancestors, then the entry.
pub proof fn lemma_bind_creates_ancestors(fs: FsState, p: PathView)
    requires
        p.absolute,
        p.wf(),
        !fs.files.contains(p),
    ensures
        fs_after_bind(fs, p).files == fs.files.insert(p),
        fs_after_bind(fs, p).dirs == fs.dirs.union(p.ancestors()),
        fs_after_bind(fs, p).files.contains(p),
        forall|d: PathView| p.ancestors().contains(d) ==> fs_after_bind(fs, p).dirs.contains(d),
        p.components.len() > 1 ==> fs_after_bind(fs, p).dirs.contains(p.parent()),
{
    if p.components.len() > 1 {
        assert(p.parent().components =~= p.components.take(p.components.len() - 1));
        assert(p.parent() == p.prefix(p.components.len() - 1));
        assert(p.ancestors().contains(p.parent()));
    }
}

/// Binding at an absolute path where an entry already exists removes the
/// stale entry and binds anew: afterwards exactly the one entry is at the
/// path and nothing else has changed.
pub proof fn lemma_bind_replaces_stale(fs: FsState, p: PathView)
    requires
        fs.files.contains(p),
    ensures
        fs_after_bind(fs, p) == fs,
        fs_after_bind(fs, p).files.contains(p),
{
}

} // verus!
