//! The bookkeeping of a test world: its tick counter and the chunk requests
//! that keep chunks loaded.
use vstd::prelude::*;
use rustc_hash::{FxBuildHasher, FxHashMap};
use crate::chunk::{BlockPos, ChunkKey, chunk_of, spec_chunk_of};

verus! {

/// The hasher builder of `rustc_hash`, which the chunk request map uses. It is
/// deterministic: every hasher it builds starts from the same state.
#[verifier::external_type_specification]
#[verifier::external_body]
pub struct ExFxBuildHasher(FxBuildHasher);

/// `FxHashMap::get` (std's `HashMap::get` with the deterministic Fx hasher):
/// returns the value stored under `key`, or `None` when the key is absent.
#[verifier::external_body]
fn fx_get<'a, V>(map: &'a FxHashMap<ChunkKey, V>, key: &ChunkKey) -> (r: Option<&'a V>)
    ensures
        match r {
            Some(v) => map@.contains_key(*key) && *v == map@[*key],
            None => !map@.contains_key(*key),
        },
{
    map.get(key)
}

/// `FxHashMap::insert` (std's `HashMap::insert` with the deterministic Fx
/// hasher): afterwards `key` maps to `value` and every other entry is kept; the
/// value it replaced, if any, is handed back.
#[verifier::external_body]
fn fx_insert<V>(map: &mut FxHashMap<ChunkKey, V>, key: ChunkKey, value: V) -> (r: Option<V>)
    ensures
        final(map)@ == old(map)@.insert(key, value),
        match r {
            Some(v) => old(map)@.contains_key(key) && v == old(map)@[key],
            None => !old(map)@.contains_key(key),
        },
{
    map.insert(key, value)
}

/// The tick that follows `t`; the counter wraps around at `u64::MAX`.
pub open spec fn next_tick(t: u64) -> u64 {
    if t == u64::MAX { 0 } else { (t + 1) as u64 }
}

/// What a test world keeps besides the world itself: the number of ticks run
/// so far and, for each chunk it has loaded, the request handle `H` that keeps
/// that chunk loaded for the world's lifetime.
pub struct TestWorldState<H> {
    tick: u64,
    chunk_requests: FxHashMap<ChunkKey, H>,
}

impl<H> TestWorldState<H> {
    /// The number of ticks run so far.
    pub closed spec fn ticks(&self) -> u64 {
        self.tick
    }

    /// The retained chunk requests, by chunk column.
    pub closed spec fn requests(&self) -> Map<ChunkKey, H> {
        self.chunk_requests@
    }

    /// A fresh state: no tick run, no chunk requested.
    pub fn new() -> (s: Self)
        ensures
            s.ticks() == 0,
            s.requests() == Map::<ChunkKey, H>::empty(),
    {
        TestWorldState { tick: 0, chunk_requests: FxHashMap::default() }
    }

    /// The number of ticks run so far.
    pub fn current_tick(&self) -> (t: u64)
        ensures
            t == self.ticks(),
    {
        self.tick
    }

    /// Advances the counter by one tick and returns the number of the tick to
    /// run (the count before the increment).
    pub fn do_tick(&mut self) -> (t: u64)
        ensures
            t == old(self).ticks(),
            final(self).ticks() == next_tick(old(self).ticks()),
            final(self).requests() == old(self).requests(),
    {
        let t = self.tick;
        self.tick = t.wrapping_add(1);
        t
    }

    /// The request handle retained for a chunk column, if any.
    pub fn chunk_request(&self, key: ChunkKey) -> (r: Option<&H>)
        ensures
            match r {
                Some(h) => self.requests().contains_key(key) && *h == self.requests()[key],
                None => !self.requests().contains_key(key),
            },
    {
        fx_get(&self.chunk_requests, &key)
    }

    /// Which chunk, if any, has to be requested before the block at `pos` can
    /// be used: none when a handle is retained for its chunk and `is_ready`
    /// reports it ready, and that chunk otherwise. Nothing is requested here;
    /// the caller requests the chunk and hands the handle to `retain_chunk`.
    pub fn chunk_to_request<P>(&self, pos: BlockPos, is_ready: P) -> (r: Option<ChunkKey>)
        where
            P: Fn(&H) -> bool,
        requires
            forall|h: &H| #[trigger] is_ready.requires((h,)),
        ensures
            needs_request(self.requests(), spec_chunk_of(pos), is_ready, r),
            r matches Some(k) ==> 16 * k.0 <= pos[0] < 16 * k.0 + 16 && 16 * k.1 <= pos[2] < 16 * k.1 + 16,
            r is None ==> exists|k: ChunkKey| {
                &&& 16 * k.0 <= pos[0] < 16 * k.0 + 16
                &&& 16 * k.1 <= pos[2] < 16 * k.1 + 16
                &&& #[trigger] self.requests().contains_key(k)
                &&& is_ready.ensures((&self.requests()[k],), true)
            },
    {
        let key = chunk_of(pos);
        match fx_get(&self.chunk_requests, &key) {
            Some(handle) => {
                if is_ready(handle) {
                    assert(self.requests().contains_key(key));
                    None
                } else {
                    Some(key)
                }
            },
            None => Some(key),
        }
    }

    /// Retains the request handle of a chunk for the world's lifetime, in
    /// place of any earlier one, so that the chunk stays loaded.
    pub fn retain_chunk(&mut self, key: ChunkKey, handle: H)
        ensures
            final(self).ticks() == old(self).ticks(),
            final(self).requests() == old(self).requests().insert(key, handle),
    {
        let _replaced = fx_insert(&mut self.chunk_requests, key, handle);
    }

    /// What placing a block at `pos` takes. An unknown block (`state` is
    /// `None`) is skipped and no chunk is requested; a known one is placed,
    /// after its chunk is requested when `chunk_to_request` would ask for it.
    pub fn plan_set_block<S, P>(&self, pos: BlockPos, state: Option<S>, is_ready: P) -> (plan: SetBlockPlan<S>)
        where
            P: Fn(&H) -> bool,
        requires
            forall|h: &H| #[trigger] is_ready.requires((h,)),
        ensures
            match state {
                None => plan == SetBlockPlan::<S>::Skip,
                Some(s) => match plan {
                    SetBlockPlan::Skip => false,
                    SetBlockPlan::Place(t) => t == s && needs_request(self.requests(), spec_chunk_of(pos), is_ready, None)
                        && exists|k: ChunkKey| {
                            &&& 16 * k.0 <= pos[0] < 16 * k.0 + 16
                            &&& 16 * k.1 <= pos[2] < 16 * k.1 + 16
                            &&& #[trigger] self.requests().contains_key(k)
                            &&& is_ready.ensures((&self.requests()[k],), true)
                        },
                    SetBlockPlan::RequestThenPlace(k, t) => t == s && needs_request(self.requests(), spec_chunk_of(pos), is_ready, Some(k))
                        && 16 * k.0 <= pos[0] < 16 * k.0 + 16 && 16 * k.1 <= pos[2] < 16 * k.1 + 16,
                },
            },
    {
        match state {
            None => SetBlockPlan::Skip,
            Some(s) => match self.chunk_to_request(pos, is_ready) {
                None => SetBlockPlan::Place(s),
                Some(key) => SetBlockPlan::RequestThenPlace(key, s),
            },
        }
    }
}

/// What to do to place a block.
#[derive(Debug, PartialEq, Eq)]
pub enum SetBlockPlan<S> {
    /// The block is unknown: place nothing, request nothing.
    Skip,
    /// Its chunk is loaded: place this block state.
    Place(S),
    /// Request this chunk, retain its handle, then place this block state.
    RequestThenPlace(ChunkKey, S),
}

/// Whether `r` is the right answer to "which chunk must be requested" for the
/// chunk `key`, given the retained `requests`: none exactly when a handle is
/// retained for `key` and `is_ready` reports it ready; `key` itself otherwise.
pub open spec fn needs_request<H, P: Fn(&H) -> bool>(
    requests: Map<ChunkKey, H>,
    key: ChunkKey,
    is_ready: P,
    r: Option<ChunkKey>,
) -> bool {
    match r {
        None => requests.contains_key(key) && is_ready.ensures((&requests[key],), true),
        Some(k) => k == key && (requests.contains_key(key) ==> is_ready.ensures((&requests[key],), false)),
    }
}

/// The tick counter after `n` ticks from `start`.
pub open spec fn ticks_after(start: u64, n: nat) -> u64
    decreases n,
{
    if n == 0 { start } else { next_tick(ticks_after(start, (n - 1) as nat)) }
}

/// A world that has run `n` ticks reports `n` modulo 2^64.
pub proof fn lemma_ticks_count(n: nat)
    ensures
        ticks_after(0, n) == n % 0x1_0000_0000_0000_0000,
    decreases n,
{
    if n > 0 {
        lemma_ticks_count((n - 1) as nat);
        let k: int = n as int;
        let m: int = 0x1_0000_0000_0000_0000;
        let q: int = (k - 1) / m;
        let r: int = (k - 1) % m;
        assert((k - 1) == q * m + r && 0 <= r < m && q >= 0) by (nonlinear_arith)
            requires m > 0, k >= 1, q == (k - 1) / m, r == (k - 1) % m;
        if r == m - 1 {
            assert(k % m == 0) by (nonlinear_arith)
                requires k - 1 == q * m + r, r == m - 1, m > 0, q >= 0;
        } else {
            assert(k % m == r + 1) by (nonlinear_arith)
                requires k - 1 == q * m + r, 0 <= r, r + 1 < m, q >= 0, m > 0;
        }
    }
}

/// A retained chunk request is never dropped: after retaining a handle for
/// `key`, every chunk retained before still is, with the same handle unless it
/// is `key` itself, and `key` is retained with the new handle.
pub proof fn lemma_requests_retained<H>(before: Map<ChunkKey, H>, key: ChunkKey, handle: H)
    ensures
        before.insert(key, handle).contains_key(key),
        before.insert(key, handle)[key] == handle,
        before.insert(key, handle).dom() == before.dom().insert(key),
        forall|k: ChunkKey| k != key && #[trigger] before.contains_key(k) ==> before.insert(key, handle)[k] == before[k],
{
    assert(before.insert(key, handle).dom() =~= before.dom().insert(key));
}

} // verus!
