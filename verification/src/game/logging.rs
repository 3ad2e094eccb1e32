use vstd::prelude::*;

use crate::logging::{channel_to_level, level_of, LogLevel};
use crate::text::{comes_before, decimal_string, lemma_text_before_irreflexive, lemma_text_before_total, lemma_text_before_transitive, text_before};

verus! {

/// Who sends or receives a logged event.
#[derive(Debug, Clone, Copy, PartialEq, Eq, Structural)]
pub enum ActorType {
    Planet,
    Explorer,
    Orchestrator,
    User,
    Broadcast,
    SelfActor,
}

/// The severity of a logged event.
#[derive(Debug, Clone, Copy, PartialEq, Eq, Structural)]
pub enum Channel {
    Error,
    Warning,
    Info,
    Debug,
    Trace,
}

/// The kind of a logged event.
#[derive(Debug, Clone, Copy, PartialEq, Eq, Structural)]
pub enum EventType {
    MessagePlanetToOrchestrator,
    MessagePlanetToExplorer,
    MessageOrchestratorToExplorer,
    MessageOrchestratorToPlanet,
    MessageExplorerToPlanet,
    MessageExplorerToOrchestrator,
    InternalPlanetAction,
    InternalExplorerAction,
    InternalOrchestratorAction,
    UserToPlanet,
    UserToExplorer,
    UserToOrchestrator,
}

/// Key/value data attached to an event; a key occurs at most once.
#[derive(Debug)]
pub struct Payload {
    entries: Vec<(String, String)>,
}

/// The keys of a list of entries.
pub open spec fn entry_keys(s: Seq<(String, String)>) -> Seq<Seq<char>> {
    s.map_values(|e: (String, String)| e.0@)
}

/// The position of key `k`, if present.
pub open spec fn has_key(s: Seq<(String, String)>, k: Seq<char>) -> bool {
    exists|j: int| 0 <= j < s.len() && s[j].0@ == k
}

pub open spec fn key_index(s: Seq<(String, String)>, k: Seq<char>) -> int {
    choose|j: int| 0 <= j < s.len() && s[j].0@ == k
}

/// The map the entries stand for.
pub open spec fn entries_map(s: Seq<(String, String)>) -> Map<Seq<char>, Seq<char>> {
    Map::new(|k: Seq<char>| has_key(s, k), |k: Seq<char>| s[key_index(s, k)].1@)
}

proof fn lemma_key_index(s: Seq<(String, String)>, j: int)
    requires
        entry_keys(s).no_duplicates(),
        0 <= j < s.len(),
    ensures
        has_key(s, s[j].0@),
        key_index(s, s[j].0@) == j,
{
    let k = s[j].0@;
    assert(has_key(s, k));
    let j2 = key_index(s, k);
    assert(entry_keys(s)[j] == k);
    assert(entry_keys(s)[j2] == k);
}

proof fn lemma_set_entry(s: Seq<(String, String)>, i: int, e: (String, String))
    requires
        entry_keys(s).no_duplicates(),
        0 <= i < s.len(),
        s[i].0@ == e.0@,
    ensures
        entry_keys(s.update(i, e)) == entry_keys(s),
        entries_map(s.update(i, e)) == entries_map(s).insert(e.0@, e.1@),
{
    let t = s.update(i, e);
    assert(entry_keys(t) =~= entry_keys(s));
    assert forall|k: Seq<char>| #[trigger] has_key(t, k) <==> has_key(s, k) by {
        if has_key(s, k) {
            let j = key_index(s, k);
            assert(t[j].0@ == k);
        }
        if has_key(t, k) {
            let j = key_index(t, k);
            assert(s[j].0@ == k);
        }
    }
    lemma_key_index(s, i);
    lemma_key_index(t, i);
    assert forall|k: Seq<char>| has_key(t, k) && k != e.0@ implies #[trigger] t[key_index(t, k)].1@ == s[key_index(s, k)].1@ by {
        let j = key_index(s, k);
        lemma_key_index(s, j);
        assert(t[j].0@ == k);
        lemma_key_index(t, j);
    }
    assert(entries_map(t) =~= entries_map(s).insert(e.0@, e.1@));
}

proof fn lemma_push_entry(s: Seq<(String, String)>, e: (String, String))
    requires
        entry_keys(s).no_duplicates(),
        !has_key(s, e.0@),
    ensures
        entry_keys(s.push(e)).no_duplicates(),
        entries_map(s.push(e)) == entries_map(s).insert(e.0@, e.1@),
{
    let t = s.push(e);
    let n = s.len() as int;
    assert(entry_keys(t) =~= entry_keys(s).push(e.0@));
    assert forall|a: int, b: int| 0 <= a < b < entry_keys(t).len() implies entry_keys(t)[a] != entry_keys(t)[b] by {
        if b == n {
            assert(entry_keys(t)[a] == s[a].0@);
        }
    }
    assert forall|k: Seq<char>| #[trigger] has_key(t, k) <==> (has_key(s, k) || k == e.0@) by {
        if has_key(s, k) {
            let j = key_index(s, k);
            assert(t[j].0@ == k);
        }
        if has_key(t, k) && k != e.0@ {
            let j = key_index(t, k);
            assert(s[j].0@ == k);
        }
        if k == e.0@ {
            assert(t[n].0@ == k);
        }
    }
    lemma_key_index(t, n);
    assert forall|k: Seq<char>| has_key(t, k) && k != e.0@ implies #[trigger] t[key_index(t, k)].1@ == s[key_index(s, k)].1@ by {
        let j = key_index(s, k);
        lemma_key_index(s, j);
        assert(t[j].0@ == k);
        lemma_key_index(t, j);
    }
    assert(entries_map(t) =~= entries_map(s).insert(e.0@, e.1@));
}

/// Keys strictly in text order (each key once).
pub open spec fn keys_sorted(ks: Seq<Seq<char>>) -> bool {
    forall|i: int, j: int| 0 <= i < j < ks.len() ==> text_before(#[trigger] ks[i], #[trigger] ks[j])
}

proof fn lemma_sorted_distinct(ks: Seq<Seq<char>>)
    requires
        keys_sorted(ks),
    ensures
        ks.no_duplicates(),
{
    assert forall|i: int, j: int| 0 <= i < j < ks.len() implies ks[i] != ks[j] by {
        assert(text_before(ks[i], ks[j]));
        lemma_text_before_irreflexive(ks[i]);
    }
}

proof fn lemma_insert_entry(s: Seq<(String, String)>, i: int, e: (String, String))
    requires
        keys_sorted(entry_keys(s)),
        0 <= i < s.len(),
        forall|j: int| 0 <= j < i ==> text_before(#[trigger] s[j].0@, e.0@),
        text_before(e.0@, s[i].0@),
    ensures
        keys_sorted(entry_keys(s.insert(i, e))),
        entries_map(s.insert(i, e)) == entries_map(s).insert(e.0@, e.1@),
{
    let t = s.insert(i, e);
    let ks = entry_keys(s);
    let kt = entry_keys(t);
    assert(kt.len() == t.len());
    assert forall|a: int| 0 <= a < t.len() implies #[trigger] kt[a] == (if a < i { ks[a] } else if a == i { e.0@ } else { ks[a - 1] }) by {}
    assert forall|a: int, b: int| 0 <= a < b < kt.len() implies text_before(#[trigger] kt[a], #[trigger] kt[b]) by {
        if b < i {
            assert(text_before(ks[a], ks[b]));
        } else if b == i {
            assert(text_before(s[a].0@, e.0@));
        } else if a < i {
            assert(text_before(s[a].0@, e.0@));
            if b - 1 == i {
                assert(text_before(e.0@, ks[b - 1]));
            } else {
                assert(text_before(ks[i], ks[b - 1]));
                lemma_text_before_transitive(e.0@, ks[i], ks[b - 1]);
            }
            lemma_text_before_transitive(ks[a], e.0@, ks[b - 1]);
        } else if a == i {
            if b - 1 == i {
                assert(text_before(e.0@, ks[b - 1]));
            } else {
                assert(text_before(ks[i], ks[b - 1]));
                lemma_text_before_transitive(e.0@, ks[i], ks[b - 1]);
            }
        } else {
            assert(text_before(ks[a - 1], ks[b - 1]));
        }
    }
    lemma_sorted_distinct(ks);
    lemma_sorted_distinct(kt);
    assert(!has_key(s, e.0@)) by {
        if has_key(s, e.0@) {
            let j = key_index(s, e.0@);
            if j < i {
                assert(text_before(s[j].0@, e.0@));
                lemma_text_before_irreflexive(e.0@);
            } else if j == i {
                lemma_text_before_irreflexive(e.0@);
            } else {
                assert(text_before(ks[i], ks[j]));
                lemma_text_before_transitive(e.0@, ks[i], ks[j]);
                lemma_text_before_irreflexive(e.0@);
            }
        }
    }
    assert forall|k: Seq<char>| #[trigger] has_key(t, k) <==> (has_key(s, k) || k == e.0@) by {
        if has_key(s, k) {
            let j = key_index(s, k);
            if j < i {
                assert(t[j].0@ == k);
            } else {
                assert(t[j + 1].0@ == k);
            }
        }
        if has_key(t, k) && k != e.0@ {
            let j = key_index(t, k);
            if j < i {
                assert(s[j].0@ == k);
            } else {
                assert(j != i);
                assert(s[j - 1].0@ == k);
            }
        }
        if k == e.0@ {
            assert(t[i].0@ == k);
        }
    }
    lemma_key_index(t, i);
    assert forall|k: Seq<char>| has_key(t, k) && k != e.0@ implies #[trigger] t[key_index(t, k)].1@ == s[key_index(s, k)].1@ by {
        let j = key_index(s, k);
        lemma_key_index(s, j);
        if j < i {
            assert(t[j].0@ == k);
            lemma_key_index(t, j);
        } else {
            assert(t[j + 1].0@ == k);
            lemma_key_index(t, j + 1);
        }
    }
    assert(entries_map(t) =~= entries_map(s).insert(e.0@, e.1@));
}

impl View for Payload {
    type V = Map<Seq<char>, Seq<char>>;

    closed spec fn view(&self) -> Map<Seq<char>, Seq<char>> {
        entries_map(self.entries@)
    }
}

impl Payload {
    #[verifier::type_invariant]
    closed spec fn wf(&self) -> bool {
        keys_sorted(entry_keys(self.entries@))
    }

    /// The entries, in key order.
    pub closed spec fn listing(&self) -> Seq<(String, String)> {
        self.entries@
    }

    /// The entries, each key once, in text order of the keys.
    pub fn entries(&self) -> (v: &Vec<(String, String)>)
        ensures
            v@ == self.listing(),
            keys_sorted(entry_keys(v@)),
            self@ == entries_map(v@),
    {
        proof {
            use_type_invariant(self);
        }
        &self.entries
    }

    /// An empty payload.
    pub fn new() -> (p: Payload)
        ensures
            p@ == Map::<Seq<char>, Seq<char>>::empty(),
    {
        let p = Payload { entries: Vec::new() };
        assert(p@ =~= Map::<Seq<char>, Seq<char>>::empty());
        p
    }

    /// A payload with the single entry `k = v`.
    pub fn kv(k: String, v: String) -> (p: Payload)
        ensures
            p@ == Map::<Seq<char>, Seq<char>>::empty().insert(k@, v@),
    {
        let mut p = Payload::new();
        p.insert(k, v);
        p
    }

    /// Sets `k` to `v`, replacing any earlier value of `k`.
    pub fn insert(&mut self, k: String, v: String)
        ensures
            final(self)@ == old(self)@.insert(k@, v@),
    {
        proof {
            use_type_invariant(&*self);
        }
        let ghost kv = k@;
        let ghost vv = v@;
        let mut entries: Vec<(String, String)> = Vec::new();
        std::mem::swap(&mut entries, &mut self.entries);
        let ghost old_entries = entries@;
        assert(old_entries == old(self).entries@);
        let mut i: usize = 0;
        while i < entries.len()
            invariant
                i <= entries@.len(),
                entries@ == old_entries,
                old_entries == old(self).entries@,
                keys_sorted(entry_keys(entries@)),
                k@ == kv,
                v@ == vv,
                forall|j: int| 0 <= j < i ==> text_before(#[trigger] entries@[j].0@, kv),
            decreases entries@.len() - i,
        {
            let same = entries[i].0.eq(&k);
            if same {
                let ghost before = entries@;
                proof {
                    lemma_sorted_distinct(entry_keys(before));
                    lemma_set_entry(before, i as int, (k, v));
                }
                entries.set(i, (k, v));
                self.entries = entries;
                return;
            }
            if comes_before(k.as_str(), entries[i].0.as_str()) {
                let ghost before = entries@;
                proof {
                    lemma_insert_entry(before, i as int, (k, v));
                }
                entries.insert(i, (k, v));
                self.entries = entries;
                return;
            }
            proof {
                lemma_text_before_total(entries@[i as int].0@, kv);
            }
            i = i + 1;
        }
        let ghost before = entries@;
        proof {
            lemma_sorted_distinct(entry_keys(before));
            assert(!has_key(before, kv)) by {
                if has_key(before, kv) {
                    let j = key_index(before, kv);
                    assert(text_before(before[j].0@, kv));
                    lemma_text_before_irreflexive(kv);
                }
            }
            lemma_push_entry(before, (k, v));
            let kt = entry_keys(before.push((k, v)));
            assert forall|a: int, b: int| 0 <= a < b < kt.len() implies text_before(#[trigger] kt[a], #[trigger] kt[b]) by {
                if b == before.len() {
                    assert(text_before(before[a].0@, kv));
                } else {
                    assert(entry_keys(before)[a] == kt[a] && entry_keys(before)[b] == kt[b]);
                }
            }
        }
        entries.push((k, v));
        self.entries = entries;
    }
}

impl Default for Payload {
    fn default() -> (p: Payload)
        ensures
            p@ == Map::<Seq<char>, Seq<char>>::empty(),
    {
        Payload::new()
    }
}

/// One logged event: who sent it to whom, what kind it is, how severe, and
/// its data.
#[derive(Debug)]
pub struct LogEvent {
    pub timestamp_unix: i64,
    pub sender_type: ActorType,
    pub sender_id: u64,
    pub receiver_type: ActorType,
    pub receiver_id: String,
    pub event_type: EventType,
    pub channel: Channel,
    pub payload: Payload,
}

/// The seconds since the Unix epoch, read from the system clock (0 when
/// the clock is before the epoch). Nothing is stated of the value: it is
/// whatever the clock reads.
#[verifier::external_body]
fn unix_now() -> i64 {
    std::time::SystemTime::now().duration_since(std::time::UNIX_EPOCH).unwrap_or_default().as_secs() as i64
}

/// The name of what std's `DefaultHasher`, as made by `new`, gives for a
/// text hashed with `Hash::hash`: std leaves the algorithm unspecified, but
/// every hasher made by `new` is the same.
pub uninterp spec fn default_str_hash(s: Seq<char>) -> u64;

/// A hash of `s` by std's `DefaultHasher` (as made by `new`, then
/// `Hash::hash` and `finish`); its result is named [`default_str_hash`].
#[verifier::external_body]
fn default_hash_of(s: &str) -> (h: u64)
    ensures
        h == default_str_hash(s@),
{
    let mut hasher = std::collections::hash_map::DefaultHasher::new();
    std::hash::Hash::hash(s, &mut hasher);
    std::hash::Hasher::finish(&hasher)
}

impl LogEvent {
    /// An event stamped `timestamp_unix` (seconds since the Unix epoch).
    pub fn stamped(
        timestamp_unix: i64,
        sender_type: ActorType,
        sender_id: u64,
        receiver_type: ActorType,
        receiver_id: String,
        event_type: EventType,
        channel: Channel,
        payload: Payload,
    ) -> (e: LogEvent)
        ensures
            e.timestamp_unix == timestamp_unix,
            e.sender_type == sender_type,
            e.sender_id == sender_id,
            e.receiver_type == receiver_type,
            e.receiver_id@ == receiver_id@,
            e.event_type == event_type,
            e.channel == channel,
            e.payload@ == payload@,
    {
        LogEvent { timestamp_unix, sender_type, sender_id, receiver_type, receiver_id, event_type, channel, payload }
    }

    /// An event stamped with the current time: the system clock's whole
    /// seconds since the Unix epoch (0 before it), as
    /// [`LogEvent::stamped`] builds it.
    pub fn new(
        sender_type: ActorType,
        sender_id: u64,
        receiver_type: ActorType,
        receiver_id: String,
        event_type: EventType,
        channel: Channel,
        payload: Payload,
    ) -> (e: LogEvent)
        ensures
            e.sender_type == sender_type,
            e.sender_id == sender_id,
            e.receiver_type == receiver_type,
            e.receiver_id@ == receiver_id@,
            e.event_type == event_type,
            e.channel == channel,
            e.payload@ == payload@,
    {
        LogEvent::stamped(unix_now(), sender_type, sender_id, receiver_type, receiver_id, event_type, channel, payload)
    }

    /// An `Info` event with no data.
    pub fn empty(
        sender_type: ActorType,
        sender_id: u64,
        receiver_type: ActorType,
        receiver_id: String,
        event_type: EventType,
    ) -> (e: LogEvent)
        ensures
            e.sender_type == sender_type,
            e.sender_id == sender_id,
            e.receiver_type == receiver_type,
            e.receiver_id@ == receiver_id@,
            e.event_type == event_type,
            e.channel == Channel::Info,
            e.payload@ == Map::<Seq<char>, Seq<char>>::empty(),
    {
        LogEvent::new(sender_type, sender_id, receiver_type, receiver_id, event_type, Channel::Info, Payload::new())
    }

    /// An `Info` event.
    pub fn info(
        sender_type: ActorType,
        sender_id: u64,
        receiver_type: ActorType,
        receiver_id: String,
        event_type: EventType,
        payload: Payload,
    ) -> (e: LogEvent)
        ensures
            e.sender_type == sender_type,
            e.sender_id == sender_id,
            e.receiver_type == receiver_type,
            e.receiver_id@ == receiver_id@,
            e.event_type == event_type,
            e.channel == Channel::Info,
            e.payload@ == payload@,
    {
        LogEvent::new(sender_type, sender_id, receiver_type, receiver_id, event_type, Channel::Info, payload)
    }

    /// An `Error` event.
    pub fn error(
        sender_type: ActorType,
        sender_id: u64,
        receiver_type: ActorType,
        receiver_id: String,
        event_type: EventType,
        payload: Payload,
    ) -> (e: LogEvent)
        ensures
            e.sender_type == sender_type,
            e.sender_id == sender_id,
            e.receiver_type == receiver_type,
            e.receiver_id@ == receiver_id@,
            e.event_type == event_type,
            e.channel == Channel::Error,
            e.payload@ == payload@,
    {
        LogEvent::new(sender_type, sender_id, receiver_type, receiver_id, event_type, Channel::Error, payload)
    }

    /// A numeric id derived from a name by std's default hasher.
    pub fn id_from_str(s: &str) -> (id: u64)
        ensures
            id == default_str_hash(s@),
    {
        default_hash_of(s)
    }

    /// The level the event is emitted at, by its channel; the caller
    /// writes the event to the log at that level.
    pub fn emit(&self) -> (level: LogLevel)
        ensures
            level == level_of(self.channel),
    {
        channel_to_level(self.channel)
    }

    /// The event with `k` set to `v` in its data.
    pub fn with_kv(self, k: String, v: String) -> (e: LogEvent)
        ensures
            e.payload@ == self.payload@.insert(k@, v@),
            e.timestamp_unix == self.timestamp_unix,
            e.sender_type == self.sender_type,
            e.sender_id == self.sender_id,
            e.receiver_type == self.receiver_type,
            e.receiver_id == self.receiver_id,
            e.event_type == self.event_type,
            e.channel == self.channel,
    {
        let mut e = self;
        e.payload.insert(k, v);
        e
    }

    /// A planet's message to the orchestrator.
    pub fn planet_to_orchestrator(planet_id: u32, payload: Payload) -> (e: LogEvent)
        ensures
            e.sender_type == ActorType::Planet,
            e.sender_id == planet_id,
            e.receiver_type == ActorType::Orchestrator,
            e.receiver_id@ == "orchestrator"@,
            e.event_type == EventType::MessagePlanetToOrchestrator,
            e.channel == Channel::Info,
            e.payload@ == payload@,
    {
        LogEvent::info(
            ActorType::Planet,
            planet_id as u64,
            ActorType::Orchestrator,
            String::from_str("orchestrator"),
            EventType::MessagePlanetToOrchestrator,
            payload,
        )
    }

    /// The orchestrator's (id 0) message to a planet.
    pub fn orchestrator_to_planet(planet_id: u32, payload: Payload) -> (e: LogEvent)
        ensures
            e.sender_type == ActorType::Orchestrator,
            e.sender_id == 0,
            e.receiver_type == ActorType::Planet,
            e.receiver_id@ == crate::text::decimal(planet_id as nat),
            e.event_type == EventType::MessageOrchestratorToPlanet,
            e.channel == Channel::Info,
            e.payload@ == payload@,
    {
        LogEvent::info(
            ActorType::Orchestrator,
            0u64,
            ActorType::Planet,
            decimal_string(planet_id as u64),
            EventType::MessageOrchestratorToPlanet,
            payload,
        )
    }

    /// An explorer's message to a planet.
    pub fn explorer_to_planet(explorer_id: u32, planet_id: u32, payload: Payload) -> (e: LogEvent)
        ensures
            e.sender_type == ActorType::Explorer,
            e.sender_id == explorer_id,
            e.receiver_type == ActorType::Planet,
            e.receiver_id@ == crate::text::decimal(planet_id as nat),
            e.event_type == EventType::MessageExplorerToPlanet,
            e.channel == Channel::Info,
            e.payload@ == payload@,
    {
        LogEvent::info(
            ActorType::Explorer,
            explorer_id as u64,
            ActorType::Planet,
            decimal_string(planet_id as u64),
            EventType::MessageExplorerToPlanet,
            payload,
        )
    }
}

} // verus!
