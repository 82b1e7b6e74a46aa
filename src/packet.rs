use vstd::prelude::*;
use crate::error::ClientError;
use crate::key::{key_of, OneTimeKey, OperationKind};

verus! {

/// An outbound packet: its packet-identifier header, if it has one, and its
/// encoded remainder, which this layer only stores.
#[derive(Clone, Debug)]
pub struct MqttPacket {
    pub packet_id: Option<u16>,
    pub payload: Vec<u8>,
}

/// The key derived from a packet sent for an operation of kind `kind`, or
/// `None` where the packet has no identifier.
pub open spec fn derived_key(kind: OperationKind, packet_id: Option<u16>) -> Option<OneTimeKey> {
    match packet_id {
        Some(id) => Some(key_of(kind, id)),
        None => None,
    }
}

impl MqttPacket {
    pub fn new(packet_id: Option<u16>, payload: Vec<u8>) -> (r: MqttPacket)
        ensures
            r.packet_id == packet_id,
            r.payload@ == payload@,
    {
        MqttPacket { packet_id, payload }
    }

    pub fn packet_id(&self) -> (r: Option<u16>)
        ensures
            r == self.packet_id,
    {
        self.packet_id
    }
}

/// Derives the correlation key of a packet sent for an operation of kind
/// `kind`. A packet without an identifier yields `MissingPacketId`.
pub fn derive_key(kind: OperationKind, packet: &MqttPacket) -> (r: Result<OneTimeKey, ClientError>)
    ensures
        match derived_key(kind, packet.packet_id) {
            Some(k) => r == Ok::<OneTimeKey, ClientError>(k),
            None => r == Err::<OneTimeKey, ClientError>(ClientError::MissingPacketId),
        },
{
    match packet.packet_id {
        Some(id) => Ok(OneTimeKey::new(kind, id)),
        None => Err(ClientError::MissingPacketId),
    }
}

/// Deriving a key twice from packets with the same identifier, for the same
/// operation kind, gives equal keys; and keys derived for different kinds or
/// different identifiers differ.
pub proof fn lemma_derivation_deterministic(
    kind1: OperationKind,
    p1: MqttPacket,
    kind2: OperationKind,
    p2: MqttPacket,
)
    requires
        p1.packet_id is Some,
        p2.packet_id is Some,
    ensures
        derived_key(kind1, p1.packet_id) == derived_key(kind2, p2.packet_id) <==> (kind1 == kind2
            && p1.packet_id == p2.packet_id),
{
}

} // verus!
