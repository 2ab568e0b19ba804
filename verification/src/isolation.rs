//! The isolation-mode resolver: which enforcement boundary the container
//! engine must use for a guest image, given the host's and the guest's OS
//! build numbers; with the process-lifetime cache that makes each expensive
//! guest query happen at most once per image.
use vstd::prelude::*;

use crate::docker::DockerEnv;
use crate::errors::Error;
use crate::errors::IncompatibilityReason;
use crate::version::WindowsBuild;

verus! {

/// The build number at and above which revision-level drift between host and
/// guest no longer blocks lightweight isolation.
pub const REVISION_TOLERANT_BUILD: u32 = 16299;

/// The type of isolation a container can be run with.
///
/// Containers which can be run with `Process` isolation can also be run
/// using `HyperV`.
#[derive(Copy, Clone, Debug, PartialEq, Eq, Structural, PartialOrd, Ord)]
pub enum ContainerIsolation {
    HyperV,
    Process,
}

/// The host/guest compatibility rule: major and minor versions must agree,
/// the host build must not be older than the guest's; a strictly newer host
/// build takes the virtual-machine boundary, an equal build takes process
/// isolation unless the revisions differ below the tolerant baseline.
pub open spec fn isolation_decision(host: WindowsBuild, guest: WindowsBuild) -> Result<
    ContainerIsolation,
    IncompatibilityReason,
> {
    if host.major != guest.major {
        Err(IncompatibilityReason::MajorVersionMismatch)
    } else if host.minor != guest.minor {
        Err(IncompatibilityReason::MinorVersionMismatch)
    } else if host.build < guest.build {
        Err(IncompatibilityReason::HostOlderThanGuest)
    } else if host.build > guest.build {
        Ok(ContainerIsolation::HyperV)
    } else if host.revision == guest.revision || host.build >= REVISION_TOLERANT_BUILD {
        Ok(ContainerIsolation::Process)
    } else {
        Err(IncompatibilityReason::RevisionMismatch)
    }
}

/// Decide which isolation mode a (host, guest) build pair permits, following
/// `isolation_decision` exactly.
pub fn decide_isolation(host: WindowsBuild, guest: WindowsBuild) -> (r: Result<
    ContainerIsolation,
    IncompatibilityReason,
>)
    ensures
        r == isolation_decision(host, guest),
{
    if host.major != guest.major {
        Err(IncompatibilityReason::MajorVersionMismatch)
    } else if host.minor != guest.minor {
        Err(IncompatibilityReason::MinorVersionMismatch)
    } else if host.build < guest.build {
        Err(IncompatibilityReason::HostOlderThanGuest)
    } else if host.build > guest.build {
        Ok(ContainerIsolation::HyperV)
    } else if host.revision == guest.revision || host.build >= REVISION_TOLERANT_BUILD {
        Ok(ContainerIsolation::Process)
    } else {
        Err(IncompatibilityReason::RevisionMismatch)
    }
}

/// Decide which isolation mode a (host, guest) build pair permits; an
/// incompatible pair is reported with the rule that rejected it.
pub fn container_isolation(host: WindowsBuild, guest: WindowsBuild) -> (r: Result<
    ContainerIsolation,
    Error,
>)
    ensures
        r is Ok <==> isolation_decision(host, guest) is Ok,
        r matches Ok(m) ==> Ok::<ContainerIsolation, IncompatibilityReason>(m)
            == isolation_decision(host, guest),
        r matches Err(e) ==> (e matches Error::IsolationIncompatible { reason }
            && Err::<ContainerIsolation, IncompatibilityReason>(reason) == isolation_decision(
            host,
            guest,
        )),
{
    match decide_isolation(host, guest) {
        Ok(m) => Ok(m),
        Err(reason) => Err(Error::IsolationIncompatible { reason }),
    }
}

/// Why a resolution failed; failures are cached and shared exactly like
/// successes, so they are plain copyable values.
#[derive(Copy, Clone, Debug, PartialEq, Eq, Structural)]
pub enum ResolveFailure {
    /// The host/guest comparison rejected every mode, for this rule.
    Incompatible { reason: IncompatibilityReason },
    /// The throwaway-container query for the guest build failed.
    GuestQueryFailed,
    /// The guest build query ran but its output was not a build string.
    GuestVersionUnparsable,
}

/// A resolution as the cache stores and shares it.
pub type CachedIsolation = Result<ContainerIsolation, ResolveFailure>;

/// The resolution computed by one (uncached) invocation, from the host
/// build and the outcome of reading the guest build.
pub open spec fn resolve_outcome(host: WindowsBuild, guest: Result<WindowsBuild, Error>) -> CachedIsolation {
    match guest {
        Err(e) => Err(
            if e is VersionParseFailure {
                ResolveFailure::GuestVersionUnparsable
            } else {
                ResolveFailure::GuestQueryFailed
            },
        ),
        Ok(g) => match isolation_decision(host, g) {
            Ok(m) => Ok(m),
            Err(reason) => Err(ResolveFailure::Incompatible { reason }),
        },
    }
}

/// One resolver invocation against the cache model: a present entry is
/// returned as stored, untouched; an absent one stores and returns the
/// value this invocation computed.
pub open spec fn resolve_step(
    m: Map<Seq<char>, CachedIsolation>,
    k: Seq<char>,
    computed: CachedIsolation,
) -> (Map<Seq<char>, CachedIsolation>, CachedIsolation) {
    if m.contains_key(k) {
        (m, m[k])
    } else {
        (m.insert(k, computed), computed)
    }
}

/// The map denoted by an association list of environments and resolutions.
spec fn entries_map(s: Seq<(DockerEnv, CachedIsolation)>) -> Map<Seq<char>, CachedIsolation>
    decreases s.len(),
{
    if s.len() == 0 {
        Map::empty()
    } else {
        entries_map(s.drop_last()).insert(s.last().0.image_view(), s.last().1)
    }
}

proof fn lemma_entries_map_contains(s: Seq<(DockerEnv, CachedIsolation)>, k: Seq<char>)
    ensures
        entries_map(s).contains_key(k) <==> (exists|i: int|
            0 <= i < s.len() && #[trigger] s[i].0.image_view() == k),
    decreases s.len(),
{
    if s.len() > 0 {
        lemma_entries_map_contains(s.drop_last(), k);
        assert(forall|i: int| 0 <= i < s.len() - 1 ==> s.drop_last()[i] == #[trigger] s[i]);
        if s.last().0.image_view() == k {
            assert(s[s.len() - 1].0.image_view() == k);
        } else if entries_map(s).contains_key(k) {
            let w = choose|i: int|
                0 <= i < s.drop_last().len() && #[trigger] s.drop_last()[i].0.image_view() == k;
            assert(s[w].0.image_view() == k);
        } else {
            assert(forall|i: int|
                0 <= i < s.drop_last().len() ==> #[trigger] s.drop_last()[i].0.image_view()
                    != k);
        }
    }
}

proof fn lemma_entries_map_value(s: Seq<(DockerEnv, CachedIsolation)>, i: int)
    requires
        0 <= i < s.len(),
        forall|a: int, b: int|
            0 <= a < b < s.len() ==> #[trigger] s[a].0.image_view()
                != #[trigger] s[b].0.image_view(),
    ensures
        entries_map(s).contains_key(s[i].0.image_view()),
        entries_map(s)[s[i].0.image_view()] == s[i].1,
    decreases s.len(),
{
    if i == s.len() - 1 {
    } else {
        assert(forall|a: int| 0 <= a < s.len() - 1 ==> s.drop_last()[a] == #[trigger] s[a]);
        lemma_entries_map_value(s.drop_last(), i);
        assert(s[i].0.image_view() != s[s.len() - 1].0.image_view());
    }
}

/// The lazily populated, process-lifetime mapping from environment identity
/// to resolution. Entries are only ever added, never changed or removed, so
/// a stored resolution — success or shared failure — is what every later
/// caller for that identity observes. The embedding program guards one
/// cache with one mutex, holding it across a whole lookup/compute/store
/// sequence.
pub struct IsolationCache {
    entries: Vec<(DockerEnv, CachedIsolation)>,
}

impl View for IsolationCache {
    type V = Map<Seq<char>, CachedIsolation>;

    closed spec fn view(&self) -> Map<Seq<char>, CachedIsolation> {
        entries_map(self.entries@)
    }
}

impl IsolationCache {
    /// No two entries name the same image.
    pub closed spec fn wf(&self) -> bool {
        forall|a: int, b: int|
            0 <= a < b < self.entries@.len() ==> #[trigger] self.entries@[a].0.image_view()
                != #[trigger] self.entries@[b].0.image_view()
    }

    /// An empty cache.
    pub fn new() -> (c: IsolationCache)
        ensures
            c.wf(),
            c@ == Map::<Seq<char>, CachedIsolation>::empty(),
    {
        IsolationCache { entries: Vec::new() }
    }

    /// The stored resolution for an environment, if one exists. A present
    /// entry is returned exactly as stored, however often it is asked for.
    pub fn lookup(&self, env: &DockerEnv) -> (r: Option<CachedIsolation>)
        requires
            self.wf(),
        ensures
            self@.contains_key(env.image_view()) ==> r == Some(self@[env.image_view()]),
            !self@.contains_key(env.image_view()) ==> r is None,
    {
        let mut i: usize = 0;
        while i < self.entries.len()
            invariant
                self.wf(),
                i <= self.entries@.len(),
                forall|j: int|
                    0 <= j < i ==> #[trigger] self.entries@[j].0.image_view()
                        != env.image_view(),
            decreases self.entries@.len() - i,
        {
            if self.entries[i].0.same_image(env) {
                proof {
                    lemma_entries_map_value(self.entries@, i as int);
                }
                return Some(self.entries[i].1);
            }
            i = i + 1;
        }
        proof {
            lemma_entries_map_contains(self.entries@, env.image_view());
        }
        None
    }

    /// Store the resolution for an environment not yet present; entries are
    /// computed at most once, so overwriting is never allowed.
    pub fn store(&mut self, env: DockerEnv, resolution: CachedIsolation)
        requires
            old(self).wf(),
            !old(self)@.contains_key(env.image_view()),
        ensures
            final(self).wf(),
            final(self)@ == old(self)@.insert(env.image_view(), resolution),
    {
        proof {
            lemma_entries_map_contains(self.entries@, env.image_view());
        }
        let ghost before = self.entries@;
        self.entries.push((env, resolution));
        proof {
            assert(self.entries@.drop_last() =~= before);
            assert(forall|j: int|
                0 <= j < before.len() ==> #[trigger] before[j].0.image_view()
                    != env.image_view());
            assert(forall|j: int| 0 <= j < before.len() ==> self.entries@[j] == before[j]);
        }
    }
}

/// Resolve the isolation mode for an environment through the cache: a
/// cached resolution — success or failure — is returned as stored and the
/// cache is untouched; otherwise the resolution computed from the host
/// build and the guest-build outcome is stored and returned. Either way the
/// call behaves as one `resolve_step` on the cache's map.
pub fn container_isolation_for_env(
    cache: &mut IsolationCache,
    env: &DockerEnv,
    host: WindowsBuild,
    guest: Result<WindowsBuild, Error>,
) -> (r: CachedIsolation)
    requires
        old(cache).wf(),
    ensures
        final(cache).wf(),
        (final(cache)@, r) == resolve_step(
            old(cache)@,
            env.image_view(),
            resolve_outcome(host, guest),
        ),
{
    match cache.lookup(env) {
        Some(r) => r,
        None => {
            let computed: CachedIsolation = match guest {
                Err(e) => {
                    match e {
                        Error::VersionParseFailure => Err(ResolveFailure::GuestVersionUnparsable),
                        _ => Err(ResolveFailure::GuestQueryFailed),
                    }
                },
                Ok(g) => {
                    match decide_isolation(host, g) {
                        Ok(m) => Ok(m),
                        Err(reason) => Err(ResolveFailure::Incompatible { reason }),
                    }
                },
            };
            cache.store(env.clone(), computed);
            computed
        },
    }
}

/// The cache's map after a sequence of resolver invocations, each given as
/// the identity asked for and the resolution that invocation would compute
/// on a cache miss.
pub open spec fn trace_cache(
    m0: Map<Seq<char>, CachedIsolation>,
    ops: Seq<(Seq<char>, CachedIsolation)>,
) -> Map<Seq<char>, CachedIsolation>
    decreases ops.len(),
{
    if ops.len() == 0 {
        m0
    } else {
        resolve_step(trace_cache(m0, ops.drop_last()), ops.last().0, ops.last().1).0
    }
}

/// What invocation `i` of the sequence returns.
pub open spec fn trace_result(
    m0: Map<Seq<char>, CachedIsolation>,
    ops: Seq<(Seq<char>, CachedIsolation)>,
    i: int,
) -> CachedIsolation
    recommends
        0 <= i < ops.len(),
{
    resolve_step(trace_cache(m0, ops.take(i)), ops[i].0, ops[i].1).1
}

/// How many invocations for identity `k` missed the cache and so actually
/// performed the expensive computation.
pub open spec fn trace_computes(
    m0: Map<Seq<char>, CachedIsolation>,
    ops: Seq<(Seq<char>, CachedIsolation)>,
    k: Seq<char>,
) -> nat
    decreases ops.len(),
{
    if ops.len() == 0 {
        0
    } else {
        trace_computes(m0, ops.drop_last(), k) + (
        if ops.last().0 == k && !trace_cache(m0, ops.drop_last()).contains_key(k) {
            1nat
        } else {
            0nat
        })
    }
}

proof fn lemma_trace_preserves(
    m0: Map<Seq<char>, CachedIsolation>,
    ops: Seq<(Seq<char>, CachedIsolation)>,
    k: Seq<char>,
)
    ensures
        m0.contains_key(k) ==> trace_cache(m0, ops).contains_key(k) && trace_cache(m0, ops)[k]
            == m0[k],
    decreases ops.len(),
{
    if ops.len() > 0 {
        lemma_trace_preserves(m0, ops.drop_last(), k);
    }
}

proof fn lemma_computed_implies_cached(
    m0: Map<Seq<char>, CachedIsolation>,
    ops: Seq<(Seq<char>, CachedIsolation)>,
    k: Seq<char>,
)
    ensures
        trace_computes(m0, ops, k) >= 1 ==> trace_cache(m0, ops).contains_key(k),
    decreases ops.len(),
{
    if ops.len() > 0 {
        lemma_computed_implies_cached(m0, ops.drop_last(), k);
    }
}

/// Law of at-most-one computation: over any sequence of resolver
/// invocations against one cache, the expensive computation for a given
/// identity happens at most once, and never if the identity was already
/// cached. Invocations that arrive after the first — however many, and
/// whatever resolution they would have computed — find the entry and reuse
/// it.
pub proof fn lemma_resolve_at_most_once(
    m0: Map<Seq<char>, CachedIsolation>,
    ops: Seq<(Seq<char>, CachedIsolation)>,
    k: Seq<char>,
)
    ensures
        trace_computes(m0, ops, k) <= 1,
        m0.contains_key(k) ==> trace_computes(m0, ops, k) == 0,
    decreases ops.len(),
{
    if ops.len() > 0 {
        lemma_resolve_at_most_once(m0, ops.drop_last(), k);
        lemma_computed_implies_cached(m0, ops.drop_last(), k);
        if m0.contains_key(k) {
            lemma_trace_preserves(m0, ops.drop_last(), k);
        }
    }
}

proof fn lemma_result_cached(
    m0: Map<Seq<char>, CachedIsolation>,
    ops: Seq<(Seq<char>, CachedIsolation)>,
    i: int,
)
    requires
        0 <= i < ops.len(),
    ensures
        trace_cache(m0, ops.take(i + 1)).contains_key(ops[i].0),
        trace_cache(m0, ops.take(i + 1))[ops[i].0] == trace_result(m0, ops, i),
{
    assert(ops.take(i + 1).drop_last() =~= ops.take(i));
    assert(ops.take(i + 1).last() == ops[i]);
}

proof fn lemma_take_preserves(
    m0: Map<Seq<char>, CachedIsolation>,
    ops: Seq<(Seq<char>, CachedIsolation)>,
    k: Seq<char>,
    t1: int,
    t2: int,
)
    requires
        0 <= t1 <= t2 <= ops.len(),
        trace_cache(m0, ops.take(t1)).contains_key(k),
    ensures
        trace_cache(m0, ops.take(t2)).contains_key(k),
        trace_cache(m0, ops.take(t2))[k] == trace_cache(m0, ops.take(t1))[k],
    decreases t2 - t1,
{
    if t1 < t2 {
        lemma_take_preserves(m0, ops, k, t1, t2 - 1);
        assert(ops.take(t2).drop_last() =~= ops.take(t2 - 1));
        assert(ops.take(t2).last() == ops[t2 - 1]);
    }
}

/// Law of agreement: any two resolver invocations for the same identity in
/// one sequence observe equal results — the first stored resolution,
/// success or shared failure, is what every later invocation for that
/// identity receives, with interleaved invocations for other identities
/// changing nothing.
pub proof fn lemma_resolve_agreement(
    m0: Map<Seq<char>, CachedIsolation>,
    ops: Seq<(Seq<char>, CachedIsolation)>,
    i: int,
    j: int,
)
    requires
        0 <= i <= j < ops.len(),
        ops[i].0 == ops[j].0,
    ensures
        trace_result(m0, ops, i) == trace_result(m0, ops, j),
{
    if i < j {
        lemma_result_cached(m0, ops, i);
        lemma_take_preserves(m0, ops, ops[i].0, i + 1, j);
    }
}

} // verus!
