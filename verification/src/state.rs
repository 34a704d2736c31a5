//! The server's shared state: connected clients, the current chord, the
//! MIDI connection as last reported, and the cache that keeps a chord from
//! being broadcast twice in quick succession.
use vstd::prelude::*;
use std::collections::HashMap;
use crate::chord_finder::ChordResult;

verus! {

/// A chord that was broadcast within this many nanoseconds is not
/// broadcast again.
pub const CACHE_TIMEOUT_NANOS: u64 = 100_000_000;

/// The chord the server last broadcast.
#[derive(Debug, Clone, Copy, Default, PartialEq, Eq, Structural)]
pub struct CurrentChord {
    pub root: u8,
    pub chord_type: u8,
}

impl From<ChordResult> for CurrentChord {
    fn from(result: ChordResult) -> (r: Self) {
        Self { root: result.root, chord_type: result.chord_type }
    }
}

impl vstd::std_specs::convert::FromSpecImpl<ChordResult> for CurrentChord {
    open spec fn obeys_from_spec() -> bool {
        true
    }

    open spec fn from_spec(result: ChordResult) -> CurrentChord {
        CurrentChord { root: result.root, chord_type: result.chord_type }
    }
}

/// What the control panel shows of the server.
#[derive(Debug, Clone, Default)]
pub struct GuiStateSnapshot {
    pub connected_clients: usize,
    pub current_chord: CurrentChord,
    pub midi_port: String,
    pub midi_channel: u8,
    pub midi_connected: bool,
    pub midi_ports: Vec<String>,
    pub running: bool,
}

/// The server's shared state. `message_cache` maps a chord's key
/// (`cache_key`) to the time, in nanoseconds, it was last broadcast.
#[derive(Debug)]
pub struct AppState {
    pub connected_clients: usize,
    pub current_chord: CurrentChord,
    pub midi_port: String,
    pub midi_connected: bool,
    pub midi_ports: Vec<String>,
    pub midi_channel: u8,
    pub message_cache: HashMap<u16, u64>,
}

/// The cache key of the chord `(root, chord_type)`.
pub open spec fn cache_key(root: u8, chord_type: u8) -> u16 {
    (root as int * 256 + chord_type as int) as u16
}

/// The time from `then` to `now`, zero when `then` is later.
pub open spec fn elapsed(now: u64, then: u64) -> int {
    if now >= then {
        now - then
    } else {
        0
    }
}

/// Whether the chord with key `key` was broadcast less than the timeout ago.
pub open spec fn recently_sent(cache: Map<u16, u64>, key: u16, now: u64) -> bool {
    cache.contains_key(key) && elapsed(now, cache[key]) < CACHE_TIMEOUT_NANOS
}

/// The cache after broadcasting `key` at `now`: `key` stamped with `now`,
/// and every entry older than the timeout dropped.
pub open spec fn refreshed_cache(cache: Map<u16, u64>, key: u16, now: u64) -> Map<u16, u64> {
    let stamped = cache.insert(key, now);
    Map::new(
        |k: u16| stamped.contains_key(k) && elapsed(now, stamped[k]) <= CACHE_TIMEOUT_NANOS,
        |k: u16| stamped[k],
    )
}

/// Law: a chord broadcast at `t` is not broadcast again before the
/// timeout has passed, and is broadcast again once it has.
pub proof fn lemma_broadcast_window(cache: Map<u16, u64>, key: u16, t: u64, later: u64)
    requires
        t <= later,
    ensures
        later - t < CACHE_TIMEOUT_NANOS ==> recently_sent(refreshed_cache(cache, key, t), key, later),
        later - t >= CACHE_TIMEOUT_NANOS ==> !recently_sent(
            refreshed_cache(cache, key, t),
            key,
            later,
        ),
{
}

/// Law: after a broadcast the cache holds the broadcast chord stamped with
/// its time, and only entries no older than the timeout.
pub proof fn lemma_refreshed_cache_is_fresh(cache: Map<u16, u64>, key: u16, now: u64)
    ensures
        refreshed_cache(cache, key, now).contains_key(key),
        refreshed_cache(cache, key, now)[key] == now,
        forall|k: u16| #[trigger]
            refreshed_cache(cache, key, now).contains_key(k) ==> elapsed(
                now,
                refreshed_cache(cache, key, now)[k],
            ) <= CACHE_TIMEOUT_NANOS,
{
}

/// Law: broadcasting one chord never holds back a different chord.
pub proof fn lemma_broadcast_does_not_block_others(
    cache: Map<u16, u64>,
    key: u16,
    now: u64,
    other: u16,
    later: u64,
)
    requires
        other != key,
    ensures
        recently_sent(refreshed_cache(cache, key, now), other, later) ==> recently_sent(
            cache,
            other,
            later,
        ),
{
}

/// Law: a broadcast never removes an entry younger than the timeout. A
/// chord stamped at time `t` keeps blocking itself until `t` plus the
/// timeout, whatever other chord is broadcast in between: if it is in the
/// cache at `t <= now <= later < t + timeout`, it is recently sent at
/// `later` in the cache after broadcasting any `key` at `now`.
pub proof fn lemma_entries_block_until_timeout(
    cache: Map<u16, u64>,
    key: u16,
    now: u64,
    k: u16,
    later: u64,
)
    requires
        cache.contains_key(k),
        cache[k] <= now <= later,
        later - cache[k] < CACHE_TIMEOUT_NANOS,
    ensures
        recently_sent(refreshed_cache(cache, key, now), k, later),
        k != key ==> refreshed_cache(cache, key, now).contains_key(k) && refreshed_cache(
            cache,
            key,
            now,
        )[k] == cache[k],
{
}

/// The cache after a run of broadcast requests, each a cache key and the
/// time of the request: a request for a chord that was recently sent leaves
/// the cache as it is, any other is broadcast and refreshes it.
pub open spec fn cache_after_requests(cache: Map<u16, u64>, requests: Seq<(u16, u64)>) -> Map<
    u16,
    u64,
>
    decreases requests.len(),
{
    if requests.len() == 0 {
        cache
    } else {
        let (k, t) = requests[0];
        let next = if recently_sent(cache, k, t) {
            cache
        } else {
            refreshed_cache(cache, k, t)
        };
        cache_after_requests(next, requests.skip(1))
    }
}

/// Law: once a chord is broadcast at `t`, it stays suppressed until the
/// timeout has passed, whatever other chords are requested in between: after
/// any run of requests made between `t` and `later < t + timeout`, the
/// chord is still recently sent at `later`, with its stamp `t` unchanged.
pub proof fn lemma_suppressed_through_requests(
    cache: Map<u16, u64>,
    key: u16,
    t: u64,
    requests: Seq<(u16, u64)>,
    later: u64,
)
    requires
        t <= later,
        later - t < CACHE_TIMEOUT_NANOS,
        forall|j: int| 0 <= j < requests.len() ==> t <= (#[trigger] requests[j]).1 <= later,
    ensures
        cache_after_requests(refreshed_cache(cache, key, t), requests).contains_key(key),
        cache_after_requests(refreshed_cache(cache, key, t), requests)[key] == t,
        recently_sent(cache_after_requests(refreshed_cache(cache, key, t), requests), key, later),
{
    lemma_stamp_kept_through_requests(refreshed_cache(cache, key, t), key, t, requests, later);
}

proof fn lemma_stamp_kept_through_requests(
    cache: Map<u16, u64>,
    key: u16,
    t: u64,
    requests: Seq<(u16, u64)>,
    later: u64,
)
    requires
        cache.contains_key(key),
        cache[key] == t,
        t <= later,
        later - t < CACHE_TIMEOUT_NANOS,
        forall|j: int| 0 <= j < requests.len() ==> t <= (#[trigger] requests[j]).1 <= later,
    ensures
        cache_after_requests(cache, requests).contains_key(key),
        cache_after_requests(cache, requests)[key] == t,
    decreases requests.len(),
{
    if requests.len() > 0 {
        let (k, tk) = requests[0];
        assert(t <= requests[0].1 <= later);
        let next = if recently_sent(cache, k, tk) {
            cache
        } else {
            refreshed_cache(cache, k, tk)
        };
        if !recently_sent(cache, k, tk) {
            lemma_entries_block_until_timeout(cache, k, tk, key, later);
        }
        let rest = requests.skip(1);
        assert forall|j: int| 0 <= j < rest.len() implies t <= (#[trigger] rest[j]).1 <= later by {
            assert(rest[j] == requests[j + 1]);
        }
        lemma_stamp_kept_through_requests(next, key, t, rest, later);
    }
}

/// Law: distinct chords have distinct cache keys.
pub proof fn lemma_cache_key_injective(r1: u8, t1: u8, r2: u8, t2: u8)
    ensures
        cache_key(r1, t1) == cache_key(r2, t2) ==> r1 == r2 && t1 == t2,
{
}

/// A copy of `v`, string by string.
pub fn clone_strings(v: &Vec<String>) -> (r: Vec<String>)
    ensures
        r.deep_view() == v.deep_view(),
{
    let mut r: Vec<String> = Vec::new();
    for i in 0..v.len()
        invariant
            r@.len() == i,
            i <= v@.len(),
            forall|j: int| 0 <= j < i ==> #[trigger] r@[j]@ == v@[j]@,
    {
        r.push(v[i].clone());
    }
    assert(r.deep_view() =~= v.deep_view());
    r
}

impl AppState {
    pub fn new(midi_port: String, midi_channel: u8) -> (r: Self)
        ensures
            r.connected_clients == 0,
            r.current_chord == (CurrentChord { root: 0, chord_type: 0 }),
            r.midi_port@ == midi_port@,
            !r.midi_connected,
            r.midi_ports@.len() == 0,
            r.midi_channel == midi_channel,
            r.message_cache@ == Map::<u16, u64>::empty(),
    {
        AppState {
            connected_clients: 0,
            current_chord: CurrentChord { root: 0, chord_type: 0 },
            midi_port,
            midi_connected: false,
            midi_ports: Vec::new(),
            midi_channel,
            message_cache: HashMap::new(),
        }
    }

    /// The state as the control panel shows it.
    pub fn snapshot(&self, running: bool) -> (r: GuiStateSnapshot)
        ensures
            r.connected_clients == self.connected_clients,
            r.current_chord == self.current_chord,
            r.midi_port@ == self.midi_port@,
            r.midi_channel == self.midi_channel,
            r.midi_connected == self.midi_connected,
            r.midi_ports.deep_view() == self.midi_ports.deep_view(),
            r.running == running,
    {
        GuiStateSnapshot {
            connected_clients: self.connected_clients,
            current_chord: self.current_chord,
            midi_port: self.midi_port.clone(),
            midi_channel: self.midi_channel,
            midi_connected: self.midi_connected,
            midi_ports: clone_strings(&self.midi_ports),
            running,
        }
    }

    /// Decides whether the chord `(root, chord_type)` is broadcast at time
    /// `now` (nanoseconds): not when it was broadcast less than the timeout
    /// ago; otherwise it is stamped with `now` and stale entries are dropped.
    pub fn should_broadcast(&mut self, root: u8, chord_type: u8, now: u64) -> (r: bool)
        ensures
            r == !recently_sent(old(self).message_cache@, cache_key(root, chord_type), now),
            r ==> final(self).message_cache@ == refreshed_cache(
                old(self).message_cache@,
                cache_key(root, chord_type),
                now,
            ),
            !r ==> final(self).message_cache@ == old(self).message_cache@,
            final(self).connected_clients == old(self).connected_clients,
            final(self).current_chord == old(self).current_chord,
            final(self).midi_port == old(self).midi_port,
            final(self).midi_connected == old(self).midi_connected,
            final(self).midi_ports == old(self).midi_ports,
            final(self).midi_channel == old(self).midi_channel,
    {
        broadcast use vstd::std_specs::hash::group_hash_axioms;

        let key: u16 = (root as u16) * 256 + (chord_type as u16);
        assert(key == cache_key(root, chord_type));
        match self.message_cache.get(&key) {
            Some(last_time) => {
                if now.saturating_sub(*last_time) < CACHE_TIMEOUT_NANOS {
                    return false;
                }
            },
            None => {},
        }
        self.message_cache.insert(key, now);
        let ghost stamped = self.message_cache@;
        let mut kept: HashMap<u16, u64> = HashMap::new();
        let ghost mut covered: Set<u16> = Set::empty();
        for (k, t) in it: self.message_cache.iter()
            invariant
                stamped == self.message_cache@,
                forall|j: int|
                    0 <= j < it.seq().len() ==> #[trigger] stamped.contains_key(*it.seq()[j].0)
                        && stamped[*it.seq()[j].0] == *it.seq()[j].1,
                forall|k: u16|
                    #[trigger] kept@.contains_key(k) ==> stamped.contains_key(k) && kept@[k]
                        == stamped[k] && elapsed(now, stamped[k]) <= CACHE_TIMEOUT_NANOS,
                forall|k: u16|
                    #[trigger] covered.contains(k) && elapsed(now, stamped[k]) <= CACHE_TIMEOUT_NANOS
                        ==> kept@.contains_key(k),
                forall|k: u16|
                    #[trigger] stamped.contains_key(k) ==> covered.contains(k) || exists|j: int|
                        it.index() <= j < it.seq().len() && #[trigger] it.seq()[j] == (&k, &stamped[k]),
        {
            proof {
                covered = covered.insert(*k);
            }
            if now.saturating_sub(*t) <= CACHE_TIMEOUT_NANOS {
                kept.insert(*k, *t);
            }
        }
        proof {
            let target = refreshed_cache(old(self).message_cache@, key, now);
            assert forall|k: u16| #[trigger] target.contains_key(k) implies kept@.contains_key(k) by {
                assert(stamped.contains_key(k));
                assert(covered.contains(k));
            }
            assert(kept@ =~= target);
        }
        self.message_cache = kept;
        true
    }
}

} // verus!
