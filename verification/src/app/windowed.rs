//! The sending end of a transfer over a sliding window.
//!
//! Every packet is acknowledged on its own, and the window, which stands outside,
//! sends again what is not. This is the path of transports that do not promise
//! delivery, and of receivers that do not stream.

use vstd::prelude::*;
use vstd::string::*;

use crate::app::clock::{due, elapsed, elapsed_ns, is_due, plus, sat};
use crate::app::error::AppError;
use crate::app::outstanding::{
    but, in_order, just, lemma_record_keeps_order, lemma_split, matching, others, outstanding_bytes,
    record, recorded, settle_one, Unacked,
};
use crate::app::receive::{Act, DIAGNOSTIC_INTERVAL_MS, PROGRESS_EMIT_INTERVAL_NS};
use crate::app::script::{
    add_action, cancel, cancel_script, log_line, no_actions, note, one_action, progress,
    progress_event, rejected, rejection_script, script, Action,
};
use crate::app::streaming::{data_packet, next_sequence, SEND_STALL_TIMEOUT_NS};
use crate::app::types::{LogLevel, TransferDirection};
use crate::protocol::{Packet, PacketType};
use crate::text::{append_number, decimal, from_utf8_lossy, lossy, push_decimal};

verus! {

/// The sending end of a transfer over a window.
pub struct WindowedSend<O = Vec<(u32, usize)>> {
    pub file_size: u64,
    pub window_size: usize,
    pub sequence_no: u32,
    pub outstanding: O,
    pub bytes_acked: u64,
    pub file_done: bool,
    pub last_inbound_ns: u64,
    pub last_progress_ns: Option<u64>,
    pub progress_dirty: bool,
    pub acks_recv: u64,
    pub data_sent: u64,
    pub diag_last_ms: u64,
}

/// A sending end, its list taken as a sequence.
pub type Windowed = WindowedSend<Unacked>;

impl View for WindowedSend {
    type V = Windowed;

    open spec fn view(&self) -> Windowed {
        WindowedSend {
            file_size: self.file_size,
            window_size: self.window_size,
            sequence_no: self.sequence_no,
            outstanding: self.outstanding@,
            bytes_acked: self.bytes_acked,
            file_done: self.file_done,
            last_inbound_ns: self.last_inbound_ns,
            last_progress_ns: self.last_progress_ns,
            progress_dirty: self.progress_dirty,
            acks_recv: self.acks_recv,
            data_sent: self.data_sent,
            diag_last_ms: self.diag_last_ms,
        }
    }
}

/// A sender at the start of its transfer.
pub open spec fn windowed_start(
    file_size: u64,
    window_size: usize,
    sequence_no: u32,
    resume_bytes: u64,
    now_ns: u64,
    now_ms: u64,
) -> Windowed {
    WindowedSend {
        file_size,
        window_size,
        sequence_no,
        outstanding: Seq::empty(),
        bytes_acked: resume_bytes,
        file_done: resume_bytes >= file_size,
        last_inbound_ns: now_ns,
        last_progress_ns: None,
        progress_dirty: false,
        acks_recv: 0,
        data_sent: 0,
        diag_last_ms: now_ms,
    }
}

/// A sender after it has read `data` from the file. Nothing means that the file is
/// at its end.
pub open spec fn window_read(state: Windowed, data: Seq<u8>) -> Windowed {
    if data.len() == 0 {
        WindowedSend { file_done: true, ..state }
    } else {
        WindowedSend {
            outstanding: recorded(state.outstanding, state.sequence_no, data.len() as usize),
            sequence_no: next_sequence(state.sequence_no),
            ..state
        }
    }
}

/// A sender after a packet.
pub open spec fn window_heard(state: Windowed, packet: Packet<Seq<u8>>, now_ns: u64) -> Windowed {
    let heard = WindowedSend { last_inbound_ns: now_ns, ..state };
    if packet.packet_type is Ack {
        let settled = matching(state.outstanding, packet.sequence_no);
        WindowedSend {
            acks_recv: sat(state.acks_recv + 1),
            outstanding: others(state.outstanding, packet.sequence_no),
            bytes_acked: sat(state.bytes_acked + outstanding_bytes(settled)),
            progress_dirty: state.progress_dirty || settled.len() > 0,
            ..heard
        }
    } else {
        heard
    }
}

/// What a sender does with a packet.
pub enum WindowStep {
    /// Nothing.
    Ignore,
    /// Hand the packet to the window.
    Control(Packet),
    /// Carry out the actions, which end the transfer.
    End(Vec<Action>),
}

/// Whether progress is reported now.
pub open spec fn window_reports(state: Windowed, now_ns: u64) -> bool {
    &&& state.progress_dirty
    &&& due(now_ns, state.last_progress_ns, PROGRESS_EMIT_INTERVAL_NS) || state.bytes_acked
        >= state.file_size
}

/// The line that logs the state of a transfer.
pub open spec fn window_diagnostic(state: Windowed, in_flight: usize, pending: usize) -> Seq<char> {
    "DIAG send: data_sent="@ + decimal(state.data_sent as nat) + " acks_recv="@ + decimal(
        state.acks_recv as nat,
    ) + " bytes_acked="@ + decimal(state.bytes_acked as nat) + " in_flight="@ + decimal(
        in_flight as nat,
    ) + " pending="@ + decimal(pending as nat) + " seq_next="@ + decimal(state.sequence_no as nat)
}

/// What a sender does when everything is acknowledged.
pub open spec fn window_concluded(state: Windowed) -> Seq<Act> {
    (if state.progress_dirty {
        seq![progress(TransferDirection::Send, state.bytes_acked, state.file_size)]
    } else {
        Seq::empty()
    }).push(
        note(
            LogLevel::Info,
            "DIAG send: transfer loop END data_sent="@ + decimal(state.data_sent as nat)
                + " acks_recv="@ + decimal(state.acks_recv as nat) + " bytes_acked="@ + decimal(
                state.bytes_acked as nat,
            ),
        ),
    )
}

/// How a turn of the sender ends.
pub enum WindowTurn {
    /// Go on.
    Continue,
    /// The transfer is complete: carry out the actions.
    Done(Vec<Action>),
    /// Carry out the actions, which end the transfer.
    Stalled(Vec<Action>),
}

impl WindowedSend {
    /// The packets that are not acknowledged are in order.
    pub open spec fn wf(self) -> bool {
        in_order(self.outstanding@, self.sequence_no)
    }

    /// A sender at the start of its transfer.
    pub fn new(
        file_size: u64,
        window_size: usize,
        sequence_no: u32,
        resume_bytes: u64,
        now_ns: u64,
        now_ms: u64,
    ) -> (sender: WindowedSend)
        ensures
            sender@ == windowed_start(
                file_size,
                window_size,
                sequence_no,
                resume_bytes,
                now_ns,
                now_ms,
            ),
            sender.wf(),
    {
        let outstanding: Vec<(u32, usize)> = Vec::new();
        assert(outstanding@ =~= Seq::empty());
        WindowedSend {
            file_size,
            window_size,
            sequence_no,
            outstanding,
            bytes_acked: resume_bytes,
            file_done: resume_bytes >= file_size,
            last_inbound_ns: now_ns,
            last_progress_ns: None,
            progress_dirty: false,
            acks_recv: 0,
            data_sent: 0,
            diag_last_ms: now_ms,
        }
    }

    /// What is done when the local user has cancelled the transfer.
    pub fn cancel(&self) -> (actions: Vec<Action>)
        ensures
            script(actions@) == cancel_script(TransferDirection::Send, self.sequence_no),
    {
        cancel(TransferDirection::Send, self.sequence_no)
    }

    /// Whether to read the next chunk, when `pending` packets wait for the window:
    /// twice as many may wait as the window is long.
    pub fn wants_data(&self, pending: usize) -> (wants: bool)
        ensures
            wants == (!self.file_done && pending < 2 * self.window_size),
    {
        !self.file_done && pending / 2 < self.window_size
    }

    /// A chunk was read: gives the packet to hand to the window. Nothing means that
    /// the file is at its end.
    pub fn on_read(&mut self, data: Vec<u8>) -> (packet: Option<Packet>)
        requires
            old(self).wf(),
        ensures
            final(self).wf(),
            final(self)@ == window_read(old(self)@, data@),
            match packet {
                Some(p) => data@.len() > 0 && p@ == data_packet(old(self).sequence_no, data@),
                None => data@.len() == 0,
            },
    {
        let size: usize = data.len();
        if size == 0 {
            self.file_done = true;
            return None;
        }
        proof {
            lemma_record_keeps_order(self.outstanding@, self.sequence_no, size);
        }
        let sequence_no: u32 = self.sequence_no;
        record(&mut self.outstanding, sequence_no, size);
        self.sequence_no = sequence_no.saturating_add(1);
        Some(Packet::new(PacketType::Data, sequence_no, data))
    }

    /// A packet has come.
    pub fn on_packet(&mut self, packet: Packet, now_ns: u64) -> (step: WindowStep)
        requires
            old(self).wf(),
        ensures
            final(self).wf(),
            final(self)@ == window_heard(old(self)@, packet@, now_ns),
            match step {
                WindowStep::Ignore => packet.packet_type is Accept || packet.packet_type is Resume
                    || packet.packet_type is Auth,
                WindowStep::End(actions) => packet.packet_type is Close && script(actions@)
                    == rejection_script(TransferDirection::Send, lossy(packet.payload@)),
                WindowStep::Control(control) => control@ == packet@ && (packet.packet_type is Data
                    || packet.packet_type is Ack || packet.packet_type is Start
                    || packet.packet_type is Finish),
            },
    {
        self.last_inbound_ns = now_ns;
        match packet.packet_type {
            PacketType::Close => WindowStep::End(
                rejected(TransferDirection::Send, from_utf8_lossy(packet.payload.as_slice())),
            ),
            PacketType::Accept => WindowStep::Ignore,
            PacketType::Resume => WindowStep::Ignore,
            PacketType::Auth => WindowStep::Ignore,
            PacketType::Ack => {
                proof {
                    lemma_split(
                        self.outstanding@,
                        self.sequence_no,
                        but(packet.sequence_no),
                        just(packet.sequence_no),
                    );
                }
                self.acks_recv = plus(self.acks_recv, 1);
                match settle_one(&mut self.outstanding, packet.sequence_no) {
                    Some(size) => {
                        proof {
                            let settled: Unacked = seq![(packet.sequence_no, size)];
                            assert(settled.drop_last() =~= Unacked::empty());
                            reveal_with_fuel(outstanding_bytes, 2);
                        }
                        self.bytes_acked = plus(self.bytes_acked, size as u64);
                        self.progress_dirty = true;
                    },
                    None => {
                        assert(outstanding_bytes(
                            matching(old(self).outstanding@, packet.sequence_no),
                        ) == 0);
                    },
                }
                WindowStep::Control(packet)
            },
            _ => WindowStep::Control(packet),
        }
    }

    /// Reports progress after the packets that were there.
    pub fn report(&mut self, now_ns: u64) -> (actions: Vec<Action>)
        requires
            old(self).wf(),
        ensures
            final(self).wf(),
            window_reports(old(self)@, now_ns) ==> {
                &&& final(self)@ == (WindowedSend {
                    progress_dirty: false,
                    last_progress_ns: Some(now_ns),
                    ..old(self)@
                })
                &&& script(actions@) == seq![
                    progress(TransferDirection::Send, old(self).bytes_acked, old(self).file_size),
                ]
            },
            !window_reports(old(self)@, now_ns) ==> {
                &&& final(self)@ == old(self)@
                &&& script(actions@) == Seq::<Act>::empty()
            },
    {
        if self.progress_dirty && (is_due(
            now_ns,
            self.last_progress_ns,
            PROGRESS_EMIT_INTERVAL_NS,
        ) || self.bytes_acked >= self.file_size) {
            self.progress_dirty = false;
            self.last_progress_ns = Some(now_ns);
            one_action(progress_event(TransferDirection::Send, self.bytes_acked, self.file_size))
        } else {
            no_actions()
        }
    }

    /// The window has sent `just_sent` packets. Logs the state of the transfer when a
    /// second has passed.
    pub fn on_sent(
        &mut self,
        just_sent: usize,
        in_flight: usize,
        pending: usize,
        now_ms: u64,
    ) -> (actions: Vec<Action>)
        requires
            old(self).wf(),
        ensures
            final(self).wf(),
            ({
                let counted = WindowedSend {
                    data_sent: sat(old(self).data_sent + just_sent),
                    ..old(self)@
                };
                if elapsed(now_ms, old(self).diag_last_ms) >= DIAGNOSTIC_INTERVAL_MS {
                    &&& final(self)@ == (WindowedSend { diag_last_ms: now_ms, ..counted })
                    &&& script(actions@) == seq![
                        note(LogLevel::Info, window_diagnostic(counted, in_flight, pending)),
                    ]
                } else {
                    &&& final(self)@ == counted
                    &&& script(actions@) == Seq::<Act>::empty()
                }
            }),
    {
        self.data_sent = plus(self.data_sent, just_sent as u64);
        if elapsed_ns(now_ms, self.diag_last_ms) < DIAGNOSTIC_INTERVAL_MS {
            return no_actions();
        }
        self.diag_last_ms = now_ms;
        let mut message: String = "DIAG send: data_sent=".to_string();
        push_decimal(&mut message, self.data_sent);
        append_number(&mut message, " acks_recv=", self.acks_recv);
        append_number(&mut message, " bytes_acked=", self.bytes_acked);
        append_number(&mut message, " in_flight=", in_flight as u64);
        append_number(&mut message, " pending=", pending as u64);
        append_number(&mut message, " seq_next=", self.sequence_no as u64);
        one_action(log_line(LogLevel::Info, message))
    }

    /// Ends a turn, when `window_empty` says whether the window holds nothing.
    pub fn end_turn(
        &self,
        window_empty: bool,
        in_flight: usize,
        pending: usize,
        now_ns: u64,
    ) -> (turn: WindowTurn)
        ensures
            match turn {
                WindowTurn::Done(actions) => self.file_done && window_empty && script(actions@)
                    == window_concluded(self@),
                WindowTurn::Stalled(actions) => {
                    &&& !window_empty
                    &&& elapsed(now_ns, self.last_inbound_ns) >= SEND_STALL_TIMEOUT_NS
                    &&& script(actions@) == seq![
                        Act::Fail(
                            AppError::Stalled(
                                "no packets from receiver for 30s ("@ + decimal(in_flight as nat)
                                    + " in flight, "@ + decimal(pending as nat) + " pending)"@,
                            ),
                        ),
                    ]
                },
                WindowTurn::Continue => {
                    &&& !(self.file_done && window_empty)
                    &&& !(!window_empty && elapsed(now_ns, self.last_inbound_ns)
                        >= SEND_STALL_TIMEOUT_NS)
                },
            },
    {
        if self.file_done && window_empty {
            let mut actions: Vec<Action> = no_actions();
            if self.progress_dirty {
                add_action(
                    &mut actions,
                    progress_event(TransferDirection::Send, self.bytes_acked, self.file_size),
                );
            }
            let mut message: String = "DIAG send: transfer loop END data_sent=".to_string();
            push_decimal(&mut message, self.data_sent);
            append_number(&mut message, " acks_recv=", self.acks_recv);
            append_number(&mut message, " bytes_acked=", self.bytes_acked);
            add_action(&mut actions, log_line(LogLevel::Info, message));
            assert(script(actions@) =~= window_concluded(self@));
            return WindowTurn::Done(actions);
        }
        if !window_empty && elapsed_ns(now_ns, self.last_inbound_ns) >= SEND_STALL_TIMEOUT_NS {
            let mut message: String = "no packets from receiver for 30s (".to_string();
            push_decimal(&mut message, in_flight as u64);
            append_number(&mut message, " in flight, ", pending as u64);
            message.append(" pending)");
            return WindowTurn::Stalled(one_action(Action::Fail(AppError::Stalled(message))));
        }
        WindowTurn::Continue
    }
}

/// No byte is acknowledged twice: an acknowledgement moves the bytes of its packet,
/// if it is outstanding, from what is outstanding to what is acknowledged, and does
/// nothing the second time.
pub proof fn law_each_packet_is_acknowledged_once(
    state: Windowed,
    packet: Packet<Seq<u8>>,
    now_ns: u64,
    later_ns: u64,
)
    requires
        in_order(state.outstanding, state.sequence_no),
        packet.packet_type is Ack,
        state.bytes_acked + outstanding_bytes(state.outstanding) <= u64::MAX,
    ensures
        ({
            let once = window_heard(state, packet, now_ns);
            let twice = window_heard(once, packet, later_ns);
            &&& in_order(once.outstanding, once.sequence_no)
            &&& once.bytes_acked + outstanding_bytes(once.outstanding) == state.bytes_acked
                + outstanding_bytes(state.outstanding)
            &&& twice.bytes_acked == once.bytes_acked
            &&& twice.outstanding == once.outstanding
        }),
{
    let once = window_heard(state, packet, now_ns);
    lemma_split(
        state.outstanding,
        state.sequence_no,
        but(packet.sequence_no),
        just(packet.sequence_no),
    );
    lemma_filter_all(once.outstanding, but(packet.sequence_no));
    lemma_filter_none(once.outstanding, just(packet.sequence_no));
}

proof fn lemma_filter_all(s: Unacked, rule: spec_fn((u32, usize)) -> bool)
    requires
        forall|i: int| 0 <= i < s.len() ==> rule(#[trigger] s[i]),
    ensures
        s.filter(rule) == s,
    decreases s.len(),
{
    reveal(Seq::filter);
    if s.len() > 0 {
        assert(rule(s[s.len() - 1]));
        lemma_filter_all(s.drop_last(), rule);
        assert(s.drop_last().push(s.last()) =~= s);
    }
}

proof fn lemma_filter_none(s: Unacked, rule: spec_fn((u32, usize)) -> bool)
    requires
        forall|i: int| 0 <= i < s.len() ==> !rule(#[trigger] s[i]),
    ensures
        s.filter(rule) == Unacked::empty(),
    decreases s.len(),
{
    reveal(Seq::filter);
    if s.len() > 0 {
        assert(!rule(s[s.len() - 1]));
        lemma_filter_none(s.drop_last(), rule);
    }
}

} // verus!
