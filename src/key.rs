use vstd::prelude::*;

verus! {

/// The acknowledgment-bearing operation kinds of the protocol.
#[derive(PartialEq, Eq, Structural, Clone, Copy, Debug)]
pub enum OperationKind {
    Publish,
    Subscribe,
    Unsubscribe,
}

/// Identifies one outstanding request: its operation kind and packet identifier.
#[derive(PartialEq, Eq, Structural, Clone, Copy, Debug, Hash)]
pub enum OneTimeKey {
    Publish(u16),
    Subscribe(u16),
    Unsubscribe(u16),
}

/// The number of distinct packet identifiers of one operation kind.
pub const IDS_PER_KIND: u32 = 65536;

/// The key of a request of kind `kind` that carries packet identifier `id`.
pub open spec fn key_of(kind: OperationKind, id: u16) -> OneTimeKey {
    match kind {
        OperationKind::Publish => OneTimeKey::Publish(id),
        OperationKind::Subscribe => OneTimeKey::Subscribe(id),
        OperationKind::Unsubscribe => OneTimeKey::Unsubscribe(id),
    }
}

pub open spec fn kind_of(key: OneTimeKey) -> OperationKind {
    match key {
        OneTimeKey::Publish(_) => OperationKind::Publish,
        OneTimeKey::Subscribe(_) => OperationKind::Subscribe,
        OneTimeKey::Unsubscribe(_) => OperationKind::Unsubscribe,
    }
}

pub open spec fn id_of(key: OneTimeKey) -> u16 {
    match key {
        OneTimeKey::Publish(id) => id,
        OneTimeKey::Subscribe(id) => id,
        OneTimeKey::Unsubscribe(id) => id,
    }
}

/// Position of an operation kind among the kinds.
pub open spec fn kind_index(kind: OperationKind) -> u32 {
    match kind {
        OperationKind::Publish => 0,
        OperationKind::Subscribe => 1,
        OperationKind::Unsubscribe => 2,
    }
}

/// A dense integer encoding of a key: one block of identifiers per kind.
pub open spec fn key_code(key: OneTimeKey) -> u32 {
    (kind_index(kind_of(key)) * IDS_PER_KIND + id_of(key) as u32) as u32
}

/// Distinct keys have distinct codes.
pub proof fn lemma_key_code_injective(a: OneTimeKey, b: OneTimeKey)
    ensures
        key_code(a) == key_code(b) <==> a == b,
{
}

impl OneTimeKey {
    /// The key of a request of kind `kind` with packet identifier `id`.
    pub fn new(kind: OperationKind, id: u16) -> (r: OneTimeKey)
        ensures
            r == key_of(kind, id),
    {
        match kind {
            OperationKind::Publish => OneTimeKey::Publish(id),
            OperationKind::Subscribe => OneTimeKey::Subscribe(id),
            OperationKind::Unsubscribe => OneTimeKey::Unsubscribe(id),
        }
    }

    pub fn kind(&self) -> (r: OperationKind)
        ensures
            r == kind_of(*self),
    {
        match self {
            OneTimeKey::Publish(_) => OperationKind::Publish,
            OneTimeKey::Subscribe(_) => OperationKind::Subscribe,
            OneTimeKey::Unsubscribe(_) => OperationKind::Unsubscribe,
        }
    }

    pub fn packet_id(&self) -> (r: u16)
        ensures
            r == id_of(*self),
    {
        match self {
            OneTimeKey::Publish(id) => *id,
            OneTimeKey::Subscribe(id) => *id,
            OneTimeKey::Unsubscribe(id) => *id,
        }
    }

    /// The key's integer encoding, as used to index the correlation table.
    pub fn code(&self) -> (r: u32)
        ensures
            r == key_code(*self),
    {
        match self {
            OneTimeKey::Publish(id) => *id as u32,
            OneTimeKey::Subscribe(id) => IDS_PER_KIND + *id as u32,
            OneTimeKey::Unsubscribe(id) => 2 * IDS_PER_KIND + *id as u32,
        }
    }
}

} // verus!
