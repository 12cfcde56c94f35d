//! What a script sends, reports and ends with, whatever else it asks for.

use vstd::prelude::*;
use vstd::string::*;

use crate::app::handshake::packets_sent;
use crate::app::receive::Act;
use crate::app::script::{rejection_text, Action};
use crate::app::types::{PlenumEvent, TransferDirection, TransferEvent};
use crate::protocol::Packet;

verus! {

/// The direction, the bytes transferred and the bytes in all of which an action tells,
/// if it tells of progress.
pub open spec fn progress_in(action: Act) -> Option<(TransferDirection, u64, u64)> {
    match action {
        Action::Emit(
            PlenumEvent::Transfer(
                TransferEvent::Progress { direction, transferred_bytes, total_bytes },
            ),
        ) => Some((direction, transferred_bytes, total_bytes)),
        _ => None,
    }
}

/// Whether a script tells of progress.
pub open spec fn reports(actions: Seq<Act>) -> bool {
    exists|i: int| 0 <= i < actions.len() && progress_in(#[trigger] actions[i]) is Some
}

/// Whether all that a script tells of progress is true of a transfer that has come to
/// `bytes` of a file of `file_size`.
pub open spec fn reports_truly(
    actions: Seq<Act>,
    direction: TransferDirection,
    bytes: u64,
    file_size: u64,
) -> bool {
    forall|i: int|
        0 <= i < actions.len() ==> (progress_in(#[trigger] actions[i]) matches Some(told) ==> {
            &&& told.0 == direction
            &&& told.2 == file_size
            &&& bytes <= file_size ==> told.1 == bytes
            &&& bytes > file_size ==> told.1 == file_size
        })
}

/// Whether a script says that the transfer has failed.
pub open spec fn fails(actions: Seq<Act>) -> bool {
    exists|i: int| 0 <= i < actions.len() && (#[trigger] actions[i]) is Fail
}

/// Whether an action sends a packet, in whatever way.
pub open spec fn sends(action: Act) -> bool {
    action is Send || action is TrySend || action is SendIfPossible
}

/// Whether a script sends no packet at all.
pub open spec fn sends_nothing(actions: Seq<Act>) -> bool {
    forall|i: int| 0 <= i < actions.len() ==> !sends(#[trigger] actions[i])
}

/// What two scripts send, one behind the other.
pub proof fn lemma_sent_join(a: Seq<Act>, b: Seq<Act>)
    ensures
        packets_sent(a + b) == packets_sent(a) + packets_sent(b),
    decreases a.len(),
{
    if a.len() == 0 {
        assert(a + b =~= b);
        assert(packets_sent(a) + packets_sent(b) =~= packets_sent(b));
    } else {
        assert((a + b).skip(1) =~= a.skip(1) + b);
        assert((a + b)[0] == a[0]);
        lemma_sent_join(a.skip(1), b);
        assert(packets_sent(a + b) =~= packets_sent(a) + packets_sent(b));
    }
}

/// A script without a packet sends none.
pub proof fn lemma_none_sent(actions: Seq<Act>)
    requires
        forall|i: int| 0 <= i < actions.len() ==> !((#[trigger] actions[i]) is Send),
    ensures
        packets_sent(actions) == Seq::<Packet<Seq<u8>>>::empty(),
    decreases actions.len(),
{
    if actions.len() > 0 {
        assert(!(actions[0] is Send));
        assert forall|i: int| 0 <= i < actions.skip(1).len() implies !((
        #[trigger] actions.skip(1)[i]) is Send) by {
            assert(actions.skip(1)[i] == actions[i + 1]);
        }
        lemma_none_sent(actions.skip(1));
    }
}

/// A script of one packet sends just that.
pub proof fn lemma_one_sent(packet: Packet<Seq<u8>>)
    ensures
        packets_sent(seq![Act::Send(packet)]) == seq![packet],
{
    let one: Seq<Act> = seq![Act::Send(packet)];
    reveal_with_fuel(packets_sent, 2);
    assert(one.skip(1) =~= Seq::<Act>::empty());
    assert(packets_sent(one) =~= seq![packet]);
}

/// A list of packets is sent packet by packet.
pub proof fn lemma_all_sent(packets: Seq<Packet<Seq<u8>>>)
    ensures
        packets_sent(packets.map_values(|p: Packet<Seq<u8>>| Act::Send(p))) == packets,
    decreases packets.len(),
{
    let actions = packets.map_values(|p: Packet<Seq<u8>>| Act::Send(p));
    if packets.len() > 0 {
        let rest = packets.skip(1);
        lemma_all_sent(rest);
        assert(actions.skip(1) =~= rest.map_values(|p: Packet<Seq<u8>>| Act::Send(p)));
        assert(actions[0] == Act::Send(packets[0]));
        assert(seq![packets[0]] + rest =~= packets);
    }
}

/// Whether a message says in words what a reason for closing means.
pub open spec fn means(message: Seq<char>, reason: Seq<char>) -> bool {
    &&& reason == "declined"@ ==> message == "the receiver declined the transfer"@
    &&& reason == "pin_rejected"@ ==> message == "the receiver rejected the pairing code"@
    &&& reason == "cancelled"@ ==> message == "the peer cancelled the transfer"@
    &&& reason != "declined"@ && reason != "pin_rejected"@ && reason != "cancelled"@ ==> message
        == "the peer closed the connection ("@ + reason + ")"@
}

/// What a peer's reason is turned into says what it means.
pub proof fn lemma_rejection_means(reason: Seq<char>)
    ensures
        means(rejection_text(reason), reason),
{
    reveal_strlit("declined");
    reveal_strlit("pin_rejected");
    reveal_strlit("cancelled");
    assert("declined"@.len() == 8);
    assert("pin_rejected"@.len() == 12);
    assert("cancelled"@.len() == 9);
}

} // verus!
