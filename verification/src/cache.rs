//! Clearing the embedded browser's response caches.
//!
//! The caches live in two directories below the application's local data
//! directory, `Cache` and `Code Cache`, either directly or under
//! `EBWebView/Default`. Everything else below the data directory (structured
//! storage, key-value storage, the bucket of downloaded map tiles) belongs to
//! the user and is never touched.
//!
//! Paths are relative to the data directory and written as their components,
//! so that nothing here depends on a separator. A directory tree is the set of
//! the paths that exist in it.

use crate::platform::Capabilities;
use vstd::prelude::*;
use vstd::string::StringExecFns;

verus! {

/// One of the two cache directories.
#[derive(Clone, Copy, Debug, PartialEq, Eq, Structural)]
pub enum CacheDir {
    /// The HTTP response cache.
    Http,
    /// The cache of compiled scripts.
    Code,
}

/// Where the cache directories sit below the data directory.
#[derive(Clone, Copy, Debug, PartialEq, Eq, Structural)]
pub enum Layout {
    /// Directly below the data directory.
    Direct,
    /// Below `EBWebView/Default`.
    Nested,
}

/// A directory that a cache clear removes if it exists.
#[derive(Clone, Copy, Debug, PartialEq, Eq, Structural)]
pub struct CacheTarget {
    pub layout: Layout,
    pub dir: CacheDir,
}

/// What the shell found when it looked for a target.
#[derive(Clone, Copy, Debug, PartialEq, Eq, Structural)]
pub struct Probe {
    pub target: CacheTarget,
    pub present: bool,
}

impl CacheDir {
    /// The directory's name.
    pub open spec fn name(self) -> Seq<char> {
        match self {
            CacheDir::Http => "Cache"@,
            CacheDir::Code => "Code Cache"@,
        }
    }

    /// The directory's name, as a string.
    pub fn to_name(&self) -> (s: String)
        ensures
            s@ == self.name(),
    {
        match self {
            CacheDir::Http => String::from_str("Cache"),
            CacheDir::Code => String::from_str("Code Cache"),
        }
    }
}

impl Layout {
    /// The directories between the data directory and the cache directories.
    pub open spec fn prefix(self) -> Seq<Seq<char>> {
        match self {
            Layout::Direct => Seq::empty(),
            Layout::Nested => seq!["EBWebView"@, "Default"@],
        }
    }
}

impl CacheTarget {
    /// The target's path below the data directory.
    pub open spec fn path(self) -> Seq<Seq<char>> {
        self.layout.prefix().push(self.dir.name())
    }

    /// The components of the target's path below the data directory, outermost
    /// first.
    pub fn components(&self) -> (parts: Vec<String>)
        ensures
            parts.deep_view() == self.path(),
    {
        let mut parts: Vec<String> = Vec::new();
        match self.layout {
            Layout::Direct => {},
            Layout::Nested => {
                parts.push(String::from_str("EBWebView"));
                parts.push(String::from_str("Default"));
            },
        }
        parts.push(self.dir.to_name());
        parts
    }
}

/// The targets of a cache clear, in the order in which they are visited: each
/// cache directory first in the direct layout, then in the nested one. A
/// platform whose browser keeps no cache there has none.
pub open spec fn targets(caps: Capabilities) -> Seq<CacheTarget> {
    if caps.webview_cache {
        seq![
            CacheTarget { layout: Layout::Direct, dir: CacheDir::Http },
            CacheTarget { layout: Layout::Nested, dir: CacheDir::Http },
            CacheTarget { layout: Layout::Direct, dir: CacheDir::Code },
            CacheTarget { layout: Layout::Nested, dir: CacheDir::Code },
        ]
    } else {
        Seq::empty()
    }
}

/// The directories that a cache clear looks for on this platform.
pub fn cache_targets(caps: &Capabilities) -> (out: Vec<CacheTarget>)
    ensures
        out@ == targets(*caps),
{
    let mut out: Vec<CacheTarget> = Vec::new();
    if caps.webview_cache {
        out.push(CacheTarget { layout: Layout::Direct, dir: CacheDir::Http });
        out.push(CacheTarget { layout: Layout::Nested, dir: CacheDir::Http });
        out.push(CacheTarget { layout: Layout::Direct, dir: CacheDir::Code });
        out.push(CacheTarget { layout: Layout::Nested, dir: CacheDir::Code });
    }
    out
}

/// The targets that were found, in the order in which they were looked for.
/// These are the directories that the clear removes.
pub open spec fn due(probes: Seq<Probe>) -> Seq<CacheTarget> {
    probes.filter(|p: Probe| p.present).map_values(|p: Probe| p.target)
}

/// Picks the directories to remove: every target that exists, and no other.
/// A target that does not exist is passed over in silence.
pub fn removals(probes: &Vec<Probe>) -> (out: Vec<CacheTarget>)
    ensures
        out@ == due(probes@),
{
    let mut out: Vec<CacheTarget> = Vec::new();
    let mut i: usize = 0;
    assert(due(Seq::<Probe>::empty()) =~= Seq::<CacheTarget>::empty()) by {
        reveal(Seq::filter);
    }
    while i < probes.len()
        invariant
            i <= probes.len(),
            out@ == due(probes@.take(i as int)),
        decreases probes.len() - i,
    {
        proof {
            lemma_due_push(probes@.take(i as int), probes@[i as int]);
            assert(probes@.take(i + 1) =~= probes@.take(i as int).push(probes@[i as int]));
        }
        if probes[i].present {
            out.push(probes[i].target);
        }
        i += 1;
    }
    assert(probes@.take(probes.len() as int) =~= probes@);
    out
}

/// Looking at one more target adds it to the removals if it exists, and
/// changes nothing if it does not.
proof fn lemma_due_push(probes: Seq<Probe>, last: Probe)
    ensures
        due(probes.push(last)) == if last.present {
            due(probes).push(last.target)
        } else {
            due(probes)
        },
{
    let found = |p: Probe| p.present;
    probes.lemma_filter_push(last, found);
    if last.present {
        assert(probes.filter(found).push(last).map_values(|p: Probe| p.target) =~= due(
            probes,
        ).push(last.target));
    }
}

/// Whether `path` is the directory `root` or lies below it.
pub open spec fn within(path: Seq<Seq<char>>, root: Seq<Seq<char>>) -> bool {
    root.is_prefix_of(path)
}

/// Whether every path of the tree has all its parent directories in the
/// tree, as the paths of a real directory do.
pub open spec fn rooted(tree: Set<Seq<Seq<char>>>) -> bool {
    forall|path: Seq<Seq<char>>, depth: int|
        tree.contains(path) && 0 <= depth <= path.len() ==> tree.contains(
            #[trigger] path.take(depth),
        )
}

/// What looking for each of the targets finds in a tree.
pub open spec fn probes_in(tree: Set<Seq<Seq<char>>>, wanted: Seq<CacheTarget>) -> Seq<Probe> {
    wanted.map_values(|t: CacheTarget| Probe { target: t, present: tree.contains(t.path()) })
}

/// The tree once the given directories are removed with all they hold.
pub open spec fn without(tree: Set<Seq<Seq<char>>>, removed: Seq<CacheTarget>) -> Set<
    Seq<Seq<char>>,
> {
    Set::new(
        |path: Seq<Seq<char>>|
            tree.contains(path) && forall|i: int|
                0 <= i < removed.len() ==> !within(path, #[trigger] removed[i].path()),
    )
}

/// The tree after a cache clear that looks for every target, and removes
/// those it finds.
pub open spec fn cleared(tree: Set<Seq<Seq<char>>>, caps: Capabilities) -> Set<Seq<Seq<char>>> {
    without(tree, due(probes_in(tree, targets(caps))))
}

/// A target is removed exactly if it was looked for and found.
proof fn lemma_due_members(probes: Seq<Probe>, target: CacheTarget)
    ensures
        due(probes).contains(target) <==> exists|i: int|
            0 <= i < probes.len() && (#[trigger] probes[i]).present && probes[i].target == target,
    decreases probes.len(),
{
    if probes.len() == 0 {
        assert(due(probes) =~= Seq::<CacheTarget>::empty()) by {
            reveal(Seq::filter);
        }
    } else {
        let front = probes.drop_last();
        let last = probes.last();
        assert(probes =~= front.push(last));
        lemma_due_push(front, last);
        lemma_due_members(front, target);
        if exists|i: int|
            0 <= i < probes.len() && (#[trigger] probes[i]).present && probes[i].target == target {
            let i = choose|i: int|
                0 <= i < probes.len() && (#[trigger] probes[i]).present && probes[i].target
                    == target;
            if i == probes.len() - 1 {
                assert(due(probes)[due(front).len() as int] == target);
            } else {
                let k = choose|k: int| 0 <= k < due(front).len() && due(front)[k] == target;
                assert(due(probes)[k] == target);
            }
        }
    }
}

/// A clear removes a directory exactly if it is one of the targets that the
/// clear looks for, and the tree holds it.
pub proof fn law_clear_removes_what_it_finds(
    tree: Set<Seq<Seq<char>>>,
    wanted: Seq<CacheTarget>,
    target: CacheTarget,
)
    ensures
        due(probes_in(tree, wanted)).contains(target) <==> wanted.contains(target)
            && tree.contains(target.path()),
{
    let probes = probes_in(tree, wanted);
    lemma_due_members(probes, target);
    if wanted.contains(target) && tree.contains(target.path()) {
        let i = choose|i: int| 0 <= i < wanted.len() && wanted[i] == target;
        assert(probes[i].present && probes[i].target == target);
    }
}

/// A second clear finds nothing to remove and leaves the tree as the first
/// one left it.
pub proof fn law_clear_is_idempotent(tree: Set<Seq<Seq<char>>>, caps: Capabilities)
    ensures
        due(probes_in(cleared(tree, caps), targets(caps))) == Seq::<CacheTarget>::empty(),
        cleared(cleared(tree, caps), caps) == cleared(tree, caps),
{
    let once = cleared(tree, caps);
    let second = due(probes_in(once, targets(caps)));
    if second.len() > 0 {
        // A target that the second clear finds was in the tree before, so the
        // first clear removed it: it cannot be there to be found.
        let target = second[0];
        law_clear_removes_what_it_finds(once, targets(caps), target);
        law_clear_removes_what_it_finds(tree, targets(caps), target);
        assert(within(target.path(), target.path()));
    }
}

/// A clear leaves every path as it was that lies in none of the cache
/// directories: it neither removes such a path nor creates one.
pub proof fn law_clear_spares_the_rest(
    tree: Set<Seq<Seq<char>>>,
    caps: Capabilities,
    path: Seq<Seq<char>>,
)
    requires
        forall|i: int|
            0 <= i < targets(caps).len() ==> !within(path, #[trigger] targets(caps)[i].path()),
    ensures
        cleared(tree, caps).contains(path) == tree.contains(path),
{
    let removed = due(probes_in(tree, targets(caps)));
    assert forall|k: int| 0 <= k < removed.len() implies !within(
        path,
        #[trigger] removed[k].path(),
    ) by {
        law_clear_removes_what_it_finds(tree, targets(caps), removed[k]);
    }
}

/// After a clear, nothing is left in any of the cache directories, nor the
/// directories themselves.
pub proof fn law_clear_empties_the_caches(
    tree: Set<Seq<Seq<char>>>,
    caps: Capabilities,
    path: Seq<Seq<char>>,
    i: int,
)
    requires
        rooted(tree),
        0 <= i < targets(caps).len(),
        within(path, targets(caps)[i].path()),
    ensures
        !cleared(tree, caps).contains(path),
{
    let target = targets(caps)[i];
    if tree.contains(path) {
        // The tree holds the target, being a parent of the path, so the
        // clear finds and removes it.
        assert(path.take(target.path().len() as int) == target.path());
        law_clear_removes_what_it_finds(tree, targets(caps), target);
    }
}

/// No target lies in another. Removing one therefore leaves the others where
/// they were, and the order in which they are looked for and removed does not
/// matter.
pub proof fn law_targets_lie_apart(
    tree: Set<Seq<Seq<char>>>,
    caps: Capabilities,
    i: int,
    j: int,
)
    requires
        0 <= i < targets(caps).len(),
        0 <= j < targets(caps).len(),
        i != j,
    ensures
        !within(targets(caps)[i].path(), targets(caps)[j].path()),
        without(tree, seq![targets(caps)[j]]).contains(targets(caps)[i].path()) == tree.contains(
            targets(caps)[i].path(),
        ),
{
    reveal_strlit("Cache");
    reveal_strlit("Code Cache");
    reveal_strlit("EBWebView");
    reveal_strlit("Default");
    let inner = targets(caps)[i].path();
    let outer = targets(caps)[j].path();
    if within(inner, outer) {
        // The two paths would agree in the last component of the outer one,
        // but these names differ in length.
        assert(inner[outer.len() - 1].len() == outer[outer.len() - 1].len());
    }
}

} // verus!
