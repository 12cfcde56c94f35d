//! Packets of the transfer protocol.

use vstd::prelude::*;

verus! {

/// What a packet is for.
#[derive(Debug, Clone, Copy, PartialEq, Eq, Structural)]
pub enum PacketType {
    Data,
    Ack,
    Start,
    Finish,
    Close,
    Resume,
    Accept,
    Auth,
}

/// A packet: its type, its sequence number and what it carries.
#[derive(Debug, PartialEq, Eq)]
pub struct Packet<B = Vec<u8>> {
    pub packet_type: PacketType,
    pub sequence_no: u32,
    pub payload: B,
}

impl View for Packet {
    type V = Packet<Seq<u8>>;

    open spec fn view(&self) -> Packet<Seq<u8>> {
        Packet {
            packet_type: self.packet_type,
            sequence_no: self.sequence_no,
            payload: self.payload@,
        }
    }
}

impl Packet {
    pub fn new(packet_type: PacketType, sequence_no: u32, payload: Vec<u8>) -> (packet: Packet)
        ensures
            packet@ == (Packet { packet_type, sequence_no, payload: payload@ }),
    {
        Packet { packet_type, sequence_no, payload }
    }
}

} // verus!
