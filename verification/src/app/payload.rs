//! What the packets of a handshake carry.
//!
//! A start packet names the file. Without a device name it is the size of the file
//! in eight bytes and then its name; with one it starts with a marker byte, and the
//! length of the name stands before the name, so that the device name can follow.

use vstd::prelude::*;
use vstd::string::*;
use vstd::utf8::encode_utf8;

use crate::app::error::AppError;
use crate::text::{from_utf8_lossy, lemma_lossy_of_text, lossy, owned_text};
use crate::wire::{
    be_bytes, be_value, lemma_be_bytes_len, lemma_be_limits, lemma_be_round_trip, push_all, push_be,
    read_be,
};

verus! {

/// The first byte of a start packet that carries a device name.
pub const START_PAYLOAD_V2_SENTINEL: u8 = 0xFF;

/// How the streaming mode is offered and confirmed, in a resume packet.
pub const STREAM_MODE_MAGIC: &'static str = "PLENUM_STREAM_V1";

/// The payload of a start packet.
pub open spec fn start_bytes(
    file_size: u64,
    file_name: Seq<u8>,
    device_name: Option<Seq<u8>>,
) -> Seq<u8> {
    match device_name {
        None => be_bytes(file_size as nat, 8) + file_name,
        Some(device) => seq![START_PAYLOAD_V2_SENTINEL] + be_bytes(file_size as nat, 8) + be_bytes(
            file_name.len(),
            2,
        ) + file_name + device,
    }
}

/// The length of the file name that a versioned start packet announces.
pub open spec fn name_len(payload: Seq<u8>) -> nat {
    be_value(payload.subrange(9, 11))
}

/// What is wrong with the payload of a start packet, if something is.
pub open spec fn start_fault(payload: Seq<u8>) -> Option<Seq<char>> {
    if payload.len() > 0 && payload[0] == START_PAYLOAD_V2_SENTINEL {
        if payload.len() < 11 {
            Some("versioned start packet payload is too short"@)
        } else if payload.len() < 11 + name_len(payload) {
            Some("start packet file name is truncated"@)
        } else {
            None
        }
    } else if payload.len() < 8 {
        Some("start packet payload must contain file size"@)
    } else {
        None
    }
}

/// The file size, the file name and the sender's name in the payload of a start
/// packet.
pub open spec fn start_fields(payload: Seq<u8>) -> (nat, Seq<char>, Option<Seq<char>>) {
    if payload.len() > 0 && payload[0] == START_PAYLOAD_V2_SENTINEL {
        let name_end = 11 + name_len(payload);
        (
            be_value(payload.subrange(1, 9)),
            lossy(payload.subrange(11, name_end as int)),
            peer_name_of(payload.skip(name_end as int)),
        )
    } else {
        (be_value(payload.take(8)), lossy(payload.skip(8)), None)
    }
}

/// A peer's name: no bytes are no name.
pub open spec fn peer_name_of(payload: Seq<u8>) -> Option<Seq<char>> {
    if payload.len() == 0 {
        None
    } else {
        Some(lossy(payload))
    }
}

/// Builds the payload of a start packet. The length of a file name is kept in two
/// bytes, so a longer name is cut when it is read back.
pub fn encode_start_payload(file_size: u64, file_name: &str, device_name: Option<&str>) -> (payload:
    Vec<u8>)
    ensures
        payload@ == start_bytes(
            file_size,
            encode_utf8(file_name@),
            match device_name {
                None => None,
                Some(device) => Some(encode_utf8(device@)),
            },
        ),
{
    let name: &[u8] = file_name.as_bytes();
    let mut payload: Vec<u8> = Vec::new();
    match device_name {
        None => {
            push_be(&mut payload, file_size, 8);
            push_all(&mut payload, name);
            assert(payload@ =~= start_bytes(file_size, name@, None));
        },
        Some(device) => {
            payload.push(START_PAYLOAD_V2_SENTINEL);
            push_be(&mut payload, file_size, 8);
            push_be(&mut payload, name.len() as u64, 2);
            push_all(&mut payload, name);
            push_all(&mut payload, device.as_bytes());
            assert(payload@ =~= start_bytes(file_size, name@, Some(encode_utf8(device@))));
        },
    }
    payload
}

/// Reads the payload of a start packet: the file size, the file name, and the
/// sender's name where it gave one.
pub fn parse_start_payload(payload: &[u8]) -> (r: Result<(u64, String, Option<String>), AppError>)
    ensures
        match r {
            Ok((size, name, sender)) => {
                &&& start_fault(payload@) is None
                &&& (size as nat, name@, owned_text(sender)) == start_fields(payload@)
            },
            Err(error) => {
                &&& start_fault(payload@) is Some
                &&& error@ == AppError::InvalidRequest(start_fault(payload@)->Some_0)
            },
        },
{
    let len: usize = payload.len();
    if len > 0 && payload[0] == START_PAYLOAD_V2_SENTINEL {
        if len < 11 {
            return Err(
                AppError::InvalidRequest(
                    "versioned start packet payload is too short".to_string(),
                ),
            );
        }
        let file_size: u64 = read_be(payload, 1, 8);
        let name_len: usize = read_be(payload, 9, 2) as usize;
        if len - 11 < name_len {
            return Err(AppError::InvalidRequest("start packet file name is truncated".to_string()));
        }
        let name_end: usize = 11 + name_len;
        let file_name: String = from_utf8_lossy(
            vstd::slice::slice_subrange(payload, 11, name_end),
        );
        let device: &[u8] = vstd::slice::slice_subrange(payload, name_end, len);
        assert(device@ =~= payload@.skip(name_end as int));
        Ok((file_size, file_name, parse_accept_payload(device)))
    } else {
        if len < 8 {
            return Err(
                AppError::InvalidRequest(
                    "start packet payload must contain file size".to_string(),
                ),
            );
        }
        let file_size: u64 = read_be(payload, 0, 8);
        assert(payload@.subrange(0, 8) =~= payload@.take(8));
        let rest: &[u8] = vstd::slice::slice_subrange(payload, 8, len);
        assert(rest@ =~= payload@.skip(8));
        Ok((file_size, from_utf8_lossy(rest), None))
    }
}

/// Reads the receiver's name from the payload of an accept packet.
pub fn parse_accept_payload(payload: &[u8]) -> (name: Option<String>)
    ensures
        owned_text(name) == peer_name_of(payload@),
{
    if payload.len() == 0 {
        None
    } else {
        Some(from_utf8_lossy(payload))
    }
}

/// A start packet without a device name comes back as it was sent. A file whose
/// size would start with the marker byte is left out: its packet reads as the
/// other kind.
pub proof fn law_start_payload_round_trip(file_size: u64, file_name: Seq<char>)
    requires
        file_size < 0xFF00_0000_0000_0000,
    ensures
        ({
            let payload = start_bytes(file_size, encode_utf8(file_name), None);
            &&& start_fault(payload) is None
            &&& start_fields(payload) == (file_size as nat, file_name, None::<Seq<char>>)
        }),
{
    let payload = start_bytes(file_size, encode_utf8(file_name), None);
    let size = be_bytes(file_size as nat, 8);
    lemma_be_bytes_len(file_size as nat, 8);
    lemma_be_limits();
    lemma_be_round_trip(file_size as nat, 8);
    lemma_lossy_of_text(file_name);
    assert(payload.take(8) =~= size);
    assert(payload.skip(8) =~= encode_utf8(file_name));
    lemma_first_byte(file_size);
    assert(payload[0] == size[0]);
}

/// A start packet with a device name comes back as it was sent, but that an empty
/// device name is none. A file name of more bytes than two bytes can count is left
/// out: the end of it would be read as part of the device name.
pub proof fn law_versioned_start_payload_round_trip(
    file_size: u64,
    file_name: Seq<char>,
    device_name: Seq<char>,
)
    requires
        encode_utf8(file_name).len() <= 0xFFFF,
    ensures
        ({
            let payload = start_bytes(
                file_size,
                encode_utf8(file_name),
                Some(encode_utf8(device_name)),
            );
            let sender = if encode_utf8(device_name).len() == 0 {
                None
            } else {
                Some(device_name)
            };
            &&& start_fault(payload) is None
            &&& start_fields(payload) == (file_size as nat, file_name, sender)
        }),
{
    let name = encode_utf8(file_name);
    let device = encode_utf8(device_name);
    let payload = start_bytes(file_size, name, Some(device));
    lemma_be_bytes_len(file_size as nat, 8);
    lemma_be_bytes_len(name.len(), 2);
    lemma_be_limits();
    lemma_be_round_trip(file_size as nat, 8);
    lemma_be_round_trip(name.len(), 2);
    lemma_lossy_of_text(file_name);
    lemma_lossy_of_text(device_name);
    assert(payload.subrange(1, 9) =~= be_bytes(file_size as nat, 8));
    assert(payload.subrange(9, 11) =~= be_bytes(name.len(), 2));
    assert(payload.subrange(11, (11 + name.len()) as int) =~= name);
    assert(payload.skip((11 + name.len()) as int) =~= device);
}

proof fn lemma_first_byte(n: u64)
    requires
        n < 0xFF00_0000_0000_0000,
    ensures
        be_bytes(n as nat, 8).len() == 8,
        be_bytes(n as nat, 8)[0] != START_PAYLOAD_V2_SENTINEL,
{
    reveal_with_fuel(be_bytes, 9);
}

/// The offer of the streaming mode is never taken for the offset at which a
/// transfer goes on, which has eight bytes.
pub proof fn law_stream_magic_is_no_offset()
    ensures
        STREAM_MODE_MAGIC.spec_bytes().len() > 8,
        forall|offset: u64| #[trigger] be_bytes(offset as nat, 8) != STREAM_MODE_MAGIC.spec_bytes(),
{
    reveal_strlit("PLENUM_STREAM_V1");
    assert(is_ascii(STREAM_MODE_MAGIC));
    is_ascii_spec_bytes(STREAM_MODE_MAGIC);
    assert forall|offset: u64| #[trigger]
        be_bytes(offset as nat, 8) != STREAM_MODE_MAGIC.spec_bytes() by {
        lemma_be_bytes_len(offset as nat, 8);
    }
}

/// A start packet that makes sense is exactly one that is long enough for what it says: one
/// that starts with the marker has eleven bytes and the name that they announce, any other
/// has the eight bytes of the size. The size, the name and the sender's name stand behind
/// each other.
pub proof fn law_start_payload_is_read_as_laid_out(payload: Seq<u8>)
    ensures
        ({
            let marked = payload.len() > 0 && payload[0] == 255;
            let announced = payload[9] * 256 + payload[10];
            let fields = start_fields(payload);
            &&& marked ==> (start_fault(payload) is None <==> payload.len() >= 11 && payload.len()
                >= 11 + announced)
            &&& !marked ==> (start_fault(payload) is None <==> payload.len() >= 8)
            &&& marked && start_fault(payload) is None ==> {
                &&& fields.0 == be_value(payload.subrange(1, 9))
                &&& fields.1 == lossy(payload.subrange(11, 11 + announced))
                &&& payload.len() == 11 + announced ==> fields.2 is None
                &&& payload.len() > 11 + announced ==> fields.2 == Some(
                    lossy(payload.skip(11 + announced)),
                )
            }
            &&& !marked && start_fault(payload) is None ==> fields == (
                be_value(payload.take(8)),
                lossy(payload.skip(8)),
                None::<Seq<char>>,
            )
        }),
{
    if payload.len() >= 11 {
        let count = payload.subrange(9, 11);
        reveal_with_fuel(be_value, 3);
        assert(count.drop_last().drop_last() =~= Seq::<u8>::empty());
        assert(count.last() == payload[10]);
        assert(count.drop_last().last() == payload[9]);
    }
}

/// A start packet is laid out as it is read: the marker only with a device name.
pub proof fn law_start_payload_layout(
    file_size: u64,
    file_name: Seq<u8>,
    device_name: Option<Seq<u8>>,
)
    ensures
        start_bytes(file_size, file_name, device_name) == match device_name {
            None => be_bytes(file_size as nat, 8) + file_name,
            Some(device) => seq![255u8] + be_bytes(file_size as nat, 8) + be_bytes(
                file_name.len(),
                2,
            ) + file_name + device,
        },
{
}

} // verus!
