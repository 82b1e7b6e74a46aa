use vstd::prelude::*;
use std::collections::HashMap;
use futures::sync::oneshot::Sender;
use crate::error::Outcome;
use crate::key::{key_code, lemma_key_code_injective, OneTimeKey};
use crate::notifier::send_outcome;
use crate::packet::MqttPacket;

verus! {

broadcast use vstd::std_specs::hash::group_hash_axioms;

/// A request awaiting its acknowledgment: the packet as it was sent, and the
/// notifier through which its caller is completed.
pub struct PendingEntry {
    pub packet: MqttPacket,
    pub notifier: Sender<Outcome>,
}

/// What became of a completion addressed to a key.
#[derive(PartialEq, Eq, Structural, Clone, Copy, Debug)]
pub enum Delivery {
    /// No request was pending under the key; no notifier was fired.
    NoEntry,
    /// The pending request's notifier was fired and its caller received the outcome.
    Delivered,
    /// The pending request's notifier was fired, but its caller had gone away.
    CallerGone,
}

impl PendingEntry {
    pub fn new(packet: MqttPacket, notifier: Sender<Outcome>) -> (r: PendingEntry)
        ensures
            r.packet == packet,
            r.notifier == notifier,
    {
        PendingEntry { packet, notifier }
    }

    /// Fires the notifier with `outcome`. The entry is consumed, so its
    /// notifier cannot be fired again.
    pub fn fire(self, outcome: Outcome) -> (r: Delivery)
        ensures
            r != Delivery::NoEntry,
    {
        if send_outcome(self.notifier, outcome) {
            Delivery::Delivered
        } else {
            Delivery::CallerGone
        }
    }
}

/// Whether a completion addressed to `key` fires a notifier in a table whose
/// contents are `m`.
pub open spec fn fires(m: Map<OneTimeKey, PendingEntry>, key: OneTimeKey) -> bool {
    m.contains_key(key)
}

/// The correlation table of one connection: at most one pending entry per key.
pub struct CorrelationTable {
    entries: HashMap<u32, PendingEntry>,
}

impl View for CorrelationTable {
    type V = Map<OneTimeKey, PendingEntry>;

    closed spec fn view(&self) -> Map<OneTimeKey, PendingEntry> {
        Map::new(
            |k: OneTimeKey| self.entries@.contains_key(key_code(k)),
            |k: OneTimeKey| self.entries@[key_code(k)],
        )
    }
}

proof fn lemma_codes_injective()
    ensures
        forall|a: OneTimeKey, b: OneTimeKey| #[trigger]
            key_code(a) == #[trigger] key_code(b) ==> a == b,
{
    assert forall|a: OneTimeKey, b: OneTimeKey| #[trigger]
        key_code(a) == #[trigger] key_code(b) implies a == b by {
        lemma_key_code_injective(a, b);
    }
}

impl CorrelationTable {
    /// An empty table.
    pub fn new() -> (r: CorrelationTable)
        ensures
            r@ == Map::<OneTimeKey, PendingEntry>::empty(),
    {
        let r = CorrelationTable { entries: HashMap::new() };
        assert(r@ =~= Map::<OneTimeKey, PendingEntry>::empty());
        r
    }

    /// Inserts `entry` under `key`. An entry already under `key` is displaced
    /// and handed back, its notifier unfired.
    pub fn insert(&mut self, key: OneTimeKey, entry: PendingEntry) -> (displaced: Option<
        PendingEntry,
    >)
        ensures
            final(self)@ == old(self)@.insert(key, entry),
            displaced == (if old(self)@.contains_key(key) {
                Some(old(self)@[key])
            } else {
                None
            }),
    {
        let code = key.code();
        let displaced = self.entries.insert(code, entry);
        proof {
            lemma_codes_injective();
            assert(self@ =~= old(self)@.insert(key, entry));
        }
        displaced
    }

    pub fn contains_key(&self, key: &OneTimeKey) -> (r: bool)
        ensures
            r == self@.contains_key(*key),
    {
        let code = key.code();
        self.entries.contains_key(&code)
    }

    /// The entry pending under `key`, if any.
    pub fn get(&self, key: &OneTimeKey) -> (r: Option<&PendingEntry>)
        ensures
            match r {
                Some(e) => self@.contains_key(*key) && *e == self@[*key],
                None => !self@.contains_key(*key),
            },
    {
        let code = key.code();
        self.entries.get(&code)
    }

    /// Removes and returns the entry pending under `key`, if any.
    pub fn remove(&mut self, key: &OneTimeKey) -> (r: Option<PendingEntry>)
        ensures
            final(self)@ == old(self)@.remove(*key),
            r == (if old(self)@.contains_key(*key) {
                Some(old(self)@[*key])
            } else {
                None
            }),
    {
        let code = key.code();
        let r = self.entries.remove(&code);
        proof {
            lemma_codes_injective();
            assert(self@ =~= old(self)@.remove(*key));
        }
        r
    }

    /// Completes the request pending under `key`: removes its entry and fires
    /// its notifier with `outcome`. Where nothing is pending under `key`,
    /// nothing is fired and the table is unchanged.
    pub fn complete(&mut self, key: &OneTimeKey, outcome: Outcome) -> (r: Delivery)
        ensures
            final(self)@ == old(self)@.remove(*key),
            (r != Delivery::NoEntry) == fires(old(self)@, *key),
    {
        match self.remove(key) {
            Some(entry) => entry.fire(outcome),
            None => Delivery::NoEntry,
        }
    }
}

/// A notifier fires at most once: once a completion addressed to `key` has
/// fired, the entry is gone, and no later completion to `key` fires again
/// until a new request is registered under it.
pub proof fn lemma_no_double_fire(m: Map<OneTimeKey, PendingEntry>, key: OneTimeKey)
    ensures
        !fires(m.remove(key), key),
{
}

} // verus!

verus! {

/// The mutable state of one connection that registration touches: the table
/// of requests awaiting acknowledgment.
pub struct LoopData {
    pub one_time: CorrelationTable,
}

impl LoopData {
    pub fn new() -> (r: LoopData)
        ensures
            r.one_time@ == Map::<OneTimeKey, PendingEntry>::empty(),
    {
        LoopData { one_time: CorrelationTable::new() }
    }
}

} // verus!
