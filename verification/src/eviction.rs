//! Evicting what an earlier install left behind in the page.
//!
//! A page that was installed before may still be served by background workers
//! and script-controlled cache buckets of that install. After the page has
//! loaded, the shell unregisters every worker and deletes every bucket but the
//! one that holds the map tiles the user downloaded. If that changed anything
//! the page is reloaded, once per session, to pick up the fresh assets.
//!
//! A worker registration is known by its scope and a bucket by its name. A
//! page without support for workers or for buckets has none of them.

use vstd::prelude::*;
use vstd::string::StringExecFns;

verus! {

/// The name of the bucket that holds the downloaded map tiles.
pub open spec fn tiles_bucket() -> Seq<char> {
    "protomaps-tiles-precache"@
}

/// The buckets that an eviction deletes: all but the tiles bucket, in the
/// order in which the page lists them.
pub open spec fn stale(buckets: Seq<Seq<char>>) -> Seq<Seq<char>> {
    buckets.filter(|name: Seq<char>| name != tiles_bucket())
}

/// The buckets that an eviction leaves in the page.
pub open spec fn kept(buckets: Seq<Seq<char>>) -> Seq<Seq<char>> {
    buckets.filter(|name: Seq<char>| name == tiles_bucket())
}

/// Whether an eviction changes the page: it unregisters a worker or deletes a
/// bucket.
pub open spec fn changes(workers: Seq<Seq<char>>, buckets: Seq<Seq<char>>) -> bool {
    workers.len() > 0 || stale(buckets).len() > 0
}

/// Whether an eviction reloads the page: it changed something, and the
/// session has not reloaded before.
pub open spec fn reload_due(reloaded: bool, changed: bool) -> bool {
    changed && !reloaded
}

/// The session's flag after an eviction.
pub open spec fn reloaded_after(reloaded: bool, changed: bool) -> bool {
    reloaded || changed
}

/// How many reloads a run of evictions in one session triggers. `runs` tells
/// of each eviction, in order, whether it changed the page.
pub open spec fn reloads(reloaded: bool, runs: Seq<bool>) -> nat
    decreases runs.len(),
{
    if runs.len() == 0 {
        0
    } else {
        let now: nat = if reload_due(reloaded, runs[0]) {
            1
        } else {
            0
        };
        now + reloads(reloaded_after(reloaded, runs[0]), runs.drop_first())
    }
}

/// One session of the user interface. It remembers, in memory only, whether
/// an eviction has reloaded the page.
#[derive(Debug)]
pub struct Session {
    reloaded: bool,
}

/// What one eviction does.
#[derive(Clone, Debug, PartialEq, Eq)]
pub struct Eviction {
    /// The scopes of the workers to unregister.
    pub unregister: Vec<String>,
    /// The names of the buckets to delete.
    pub delete: Vec<String>,
    /// Whether to reload the page afterwards.
    pub reload: bool,
}

/// The name of the bucket that holds the downloaded map tiles.
pub fn tiles_bucket_name() -> (name: String)
    ensures
        name@ == tiles_bucket(),
{
    String::from_str("protomaps-tiles-precache")
}

impl Session {
    /// Whether an eviction has reloaded the page in this session.
    pub closed spec fn reloaded(&self) -> bool {
        self.reloaded
    }

    /// A session that has not reloaded yet.
    pub fn new() -> (session: Session)
        ensures
            !session.reloaded(),
    {
        Session { reloaded: false }
    }

    /// Whether an eviction has reloaded the page in this session.
    pub fn has_reloaded(&self) -> (flag: bool)
        ensures
            flag == self.reloaded(),
    {
        self.reloaded
    }

    /// Decides one eviction. Every worker is unregistered and every bucket but
    /// the tiles bucket is deleted. The page is reloaded if that changed
    /// anything and this session has not reloaded before; the session
    /// remembers it.
    pub fn evict(&mut self, workers: &Vec<String>, buckets: &Vec<String>) -> (plan: Eviction)
        ensures
            plan.unregister.deep_view() == workers.deep_view(),
            plan.delete.deep_view() == stale(buckets.deep_view()),
            plan.reload == reload_due(
                old(self).reloaded(),
                changes(workers.deep_view(), buckets.deep_view()),
            ),
            final(self).reloaded() == reloaded_after(
                old(self).reloaded(),
                changes(workers.deep_view(), buckets.deep_view()),
            ),
    {
        let unregister = copy_names(workers);
        let delete = stale_names(buckets);
        let changed = unregister.len() > 0 || delete.len() > 0;
        let reload = changed && !self.reloaded;
        if reload {
            self.reloaded = true;
        }
        Eviction { unregister, delete, reload }
    }
}

/// Copies a list of names.
fn copy_names(names: &Vec<String>) -> (out: Vec<String>)
    ensures
        out.deep_view() == names.deep_view(),
{
    let mut out: Vec<String> = Vec::new();
    let mut i: usize = 0;
    while i < names.len()
        invariant
            i <= names.len(),
            out.len() == i,
            forall|k: int| 0 <= k < i ==> out@[k]@ == names@[k]@,
        decreases names.len() - i,
    {
        out.push(names[i].clone());
        i += 1;
    }
    out
}

/// Copies the names of the buckets to delete.
fn stale_names(buckets: &Vec<String>) -> (out: Vec<String>)
    ensures
        out.deep_view() == stale(buckets.deep_view()),
{
    let tiles = tiles_bucket_name();
    let ghost names = buckets.deep_view();
    let mut out: Vec<String> = Vec::new();
    let mut i: usize = 0;
    assert(stale(Seq::<Seq<char>>::empty()) =~= Seq::<Seq<char>>::empty()) by {
        reveal(Seq::filter);
    }
    while i < buckets.len()
        invariant
            i <= buckets.len(),
            names == buckets.deep_view(),
            tiles@ == tiles_bucket(),
            out.deep_view() == stale(names.take(i as int)),
        decreases buckets.len() - i,
    {
        proof {
            names.take(i as int).lemma_filter_push(
                names[i as int],
                |name: Seq<char>| name != tiles_bucket(),
            );
            assert(names.take(i + 1) =~= names.take(i as int).push(names[i as int]));
        }
        if buckets[i] != tiles {
            out.push(buckets[i].clone());
        }
        i += 1;
    }
    assert(names.take(buckets.len() as int) =~= names);
    out
}

/// Where no worker is registered and every bucket is the tiles bucket, an
/// eviction deletes nothing and does not reload, whatever the session's flag.
pub proof fn law_nothing_stale_nothing_done(
    reloaded: bool,
    workers: Seq<Seq<char>>,
    buckets: Seq<Seq<char>>,
)
    requires
        workers.len() == 0,
        forall|i: int| 0 <= i < buckets.len() ==> buckets[i] == tiles_bucket(),
    ensures
        stale(buckets) == Seq::<Seq<char>>::empty(),
        !changes(workers, buckets),
        !reload_due(reloaded, changes(workers, buckets)),
        reloaded_after(reloaded, changes(workers, buckets)) == reloaded,
{
    let is_stale = |name: Seq<char>| name != tiles_bucket();
    if stale(buckets).len() > 0 {
        buckets.lemma_filter_pred(is_stale, 0);
        buckets.lemma_filter_contains_rev(is_stale, stale(buckets)[0]);
    }
}

/// A session that has reloaded does not reload again, even where an eviction
/// unregisters workers or deletes buckets, and its flag stays set.
pub proof fn law_no_second_reload(changed: bool)
    ensures
        !reload_due(true, changed),
        reloaded_after(true, changed),
{
}

/// An eviction that reloads sets the session's flag, and the flag is set
/// only by an eviction that changed the page.
pub proof fn law_reload_is_remembered(reloaded: bool, changed: bool)
    ensures
        reload_due(reloaded, changed) ==> reloaded_after(reloaded, changed),
        reloaded_after(reloaded, changed) ==> reloaded || changed,
{
}

/// However many evictions run in one session, and whatever they find, the
/// page is reloaded at most once; a session that has reloaded already is not
/// reloaded at all.
pub proof fn law_at_most_one_reload(reloaded: bool, runs: Seq<bool>)
    ensures
        reloads(reloaded, runs) <= 1,
        reloaded ==> reloads(reloaded, runs) == 0,
    decreases runs.len(),
{
    if runs.len() > 0 {
        law_at_most_one_reload(reloaded_after(reloaded, runs[0]), runs.drop_first());
    }
}

/// Eviction is idempotent: what one eviction leaves in the page, a second
/// one leaves alone. The first leaves no worker and of the buckets only the
/// tiles bucket, so the second deletes nothing and does not reload.
pub proof fn law_eviction_is_idempotent(reloaded: bool, buckets: Seq<Seq<char>>)
    ensures
        stale(kept(buckets)) == Seq::<Seq<char>>::empty(),
        kept(kept(buckets)) == kept(buckets),
        !changes(Seq::<Seq<char>>::empty(), kept(buckets)),
        !reload_due(reloaded, changes(Seq::<Seq<char>>::empty(), kept(buckets))),
{
    let is_tiles = |name: Seq<char>| name == tiles_bucket();
    let left = kept(buckets);
    assert forall|i: int| 0 <= i < left.len() implies left[i] == tiles_bucket() by {
        buckets.lemma_filter_pred(is_tiles, i);
    }
    law_nothing_stale_nothing_done(reloaded, Seq::<Seq<char>>::empty(), left);
    lemma_filter_keeps_all(left);
}

/// Filtering for the tiles bucket keeps a list that holds nothing else.
proof fn lemma_filter_keeps_all(names: Seq<Seq<char>>)
    requires
        forall|i: int| 0 <= i < names.len() ==> names[i] == tiles_bucket(),
    ensures
        kept(names) == names,
    decreases names.len(),
{
    reveal(Seq::filter);
    if names.len() > 0 {
        lemma_filter_keeps_all(names.drop_last());
    }
}

/// What an eviction deletes is a bucket of the page, and never the tiles
/// bucket.
pub proof fn law_tiles_are_never_deleted(buckets: Seq<Seq<char>>, i: int)
    requires
        0 <= i < stale(buckets).len(),
    ensures
        stale(buckets)[i] != tiles_bucket(),
        buckets.contains(stale(buckets)[i]),
{
    let is_stale = |name: Seq<char>| name != tiles_bucket();
    buckets.lemma_filter_pred(is_stale, i);
    buckets.lemma_filter_contains_rev(is_stale, stale(buckets)[i]);
}

/// An eviction skips no stale bucket: every bucket of the page that is not
/// the tiles bucket is deleted.
pub proof fn law_every_stale_bucket_is_deleted(buckets: Seq<Seq<char>>, i: int)
    requires
        0 <= i < buckets.len(),
        buckets[i] != tiles_bucket(),
    ensures
        stale(buckets).contains(buckets[i]),
{
    buckets.lemma_filter_contains(|name: Seq<char>| name != tiles_bucket(), i);
}

} // verus!
