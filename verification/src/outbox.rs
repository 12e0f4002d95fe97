//! The outgoing side of the control channel.
//!
//! Heartbeats and mapping requests come from different tasks, yet the client
//! must see each packet whole. So nobody writes to the channel directly:
//! packets are put into the outbox whole, and one writer takes the bytes out
//! in order.

use vstd::prelude::*;
use crate::packet::{lemma_packet_round_trip, parse_packet, PacketView};
use crate::wire::{append_bytes, copy_range};

verus! {

/// The byte strings of `parts`, laid end to end.
pub open spec fn joined(parts: Seq<Seq<u8>>) -> Seq<u8>
    decreases parts.len(),
{
    if parts.len() == 0 {
        Seq::empty()
    } else {
        parts[0] + joined(parts.skip(1))
    }
}

/// Laying one more string behind the others appends it.
pub proof fn lemma_joined_push(parts: Seq<Seq<u8>>, last: Seq<u8>)
    ensures
        joined(parts.push(last)) == joined(parts) + last,
    decreases parts.len(),
{
    if parts.len() == 0 {
        assert(parts.push(last).skip(1) =~= Seq::<Seq<u8>>::empty());
        assert(joined(parts.push(last).skip(1)) =~= Seq::<u8>::empty());
        assert(joined(parts.push(last)) =~= last);
        assert(joined(parts) + last =~= last);
    } else {
        assert(parts.push(last).skip(1) =~= parts.skip(1).push(last));
        lemma_joined_push(parts.skip(1), last);
        assert(joined(parts.push(last)) =~= joined(parts) + last);
    }
}

/// Whether reading `s` packet by packet gives exactly `packets`, in order,
/// and leaves nothing over.
pub open spec fn reads_as(s: Seq<u8>, packets: Seq<PacketView>) -> bool
    decreases packets.len(),
{
    if packets.len() == 0 {
        s.len() == 0
    } else {
        match parse_packet(s) {
            Some((p, used)) => p == packets[0] && used <= s.len() && reads_as(
                s.skip(used as int),
                packets.skip(1),
            ),
            None => false,
        }
    }
}

/// The wire forms of `packets`, in order.
pub open spec fn wires(packets: Seq<PacketView>) -> Seq<Seq<u8>> {
    Seq::new(packets.len(), |i: int| packets[i].wire())
}

/// Packets laid end to end are read back as the same packets in the same
/// order: each is found whole, and none runs into the next.
pub proof fn lemma_joined_reads_back(packets: Seq<PacketView>)
    requires
        forall|i: int| 0 <= i < packets.len() ==> (#[trigger] packets[i]).fits(),
    ensures
        reads_as(joined(wires(packets)), packets),
    decreases packets.len(),
{
    if packets.len() > 0 {
        let first = packets[0];
        let rest = packets.skip(1);
        assert(wires(packets).skip(1) =~= wires(rest));
        assert(wires(packets)[0] == first.wire());
        lemma_packet_round_trip(first, joined(wires(rest)));
        assert(joined(wires(packets)).skip(first.wire().len() as int) =~= joined(wires(rest)));
        lemma_joined_reads_back(rest);
    }
}

/// The mathematical value of an [`Outbox`].
pub struct OutboxView {
    /// Every packet ever put in, oldest first.
    pub accepted: Seq<Seq<u8>>,
    /// The number of bytes that the writer has written.
    pub sent: nat,
}

impl OutboxView {
    pub open spec fn wf(self) -> bool {
        self.sent <= joined(self.accepted).len()
    }

    /// All that has been written to the channel.
    pub open spec fn wire(self) -> Seq<u8> {
        joined(self.accepted).take(self.sent as int)
    }

    /// All that is still to be written.
    pub open spec fn pending(self) -> Seq<u8> {
        joined(self.accepted).skip(self.sent as int)
    }

    /// The state after `packet` was put in.
    pub open spec fn pushed(self, packet: Seq<u8>) -> OutboxView {
        OutboxView { accepted: self.accepted.push(packet), sent: self.sent }
    }

    /// The state after the writer wrote `n` more bytes, or all that was
    /// pending where that is less.
    pub open spec fn advanced(self, n: nat) -> OutboxView {
        OutboxView {
            accepted: self.accepted,
            sent: if n <= self.pending().len() {
                self.sent + n
            } else {
                joined(self.accepted).len()
            },
        }
    }
}

/// At every moment the channel has seen a prefix of the accepted packets
/// laid end to end, and what is still to be written is the rest of them: a
/// packet that is put in changes nothing of what was written and goes behind
/// all that is pending, and a write takes the next pending bytes and no
/// others. So the bytes of two packets never mix on the channel.
pub proof fn lemma_outbox_keeps_order(v: OutboxView, packet: Seq<u8>, n: nat)
    requires
        v.wf(),
    ensures
        v.wire() + v.pending() == joined(v.accepted),
        v.pushed(packet).wf(),
        v.pushed(packet).wire() == v.wire(),
        v.pushed(packet).pending() == v.pending() + packet,
        v.advanced(n).wf(),
        n <= v.pending().len() ==> v.advanced(n).wire() == v.wire() + v.pending().take(n as int),
        n <= v.pending().len() ==> v.advanced(n).pending() == v.pending().skip(n as int),
{
    lemma_joined_push(v.accepted, packet);
    assert(v.wire() + v.pending() =~= joined(v.accepted));
    assert(v.pushed(packet).wire() =~= v.wire());
    assert(v.pushed(packet).pending() =~= v.pending() + packet);
    if n <= v.pending().len() {
        assert(v.advanced(n).wire() =~= v.wire() + v.pending().take(n as int));
        assert(v.advanced(n).pending() =~= v.pending().skip(n as int));
    }
}

/// The packets that wait to be written to the control channel.
pub struct Outbox {
    buffer: Vec<u8>,
    accepted: Ghost<Seq<Seq<u8>>>,
    sent: Ghost<nat>,
}

impl View for Outbox {
    type V = OutboxView;

    closed spec fn view(&self) -> OutboxView {
        OutboxView { accepted: self.accepted@, sent: self.sent@ }
    }
}

impl Outbox {
    /// What holds of every outbox: it holds exactly the accepted bytes that
    /// are not written yet.
    #[verifier::type_invariant]
    pub closed spec fn inv(self) -> bool {
        &&& self@.wf()
        &&& self.buffer@ == self@.pending()
    }

    /// An outbox that never held a packet.
    pub fn new() -> (outbox: Self)
        ensures
            outbox@ == (OutboxView { accepted: Seq::empty(), sent: 0 }),
    {
        let buffer: Vec<u8> = Vec::new();
        assert(joined(Seq::<Seq<u8>>::empty()).skip(0) =~= buffer@);
        Outbox { buffer, accepted: Ghost(Seq::empty()), sent: Ghost(0) }
    }

    /// Puts a whole packet behind all that is pending.
    pub fn push(&mut self, packet: &[u8])
        ensures
            final(self)@ == old(self)@.pushed(packet@),
    {
        proof {
            use_type_invariant(&*self);
            lemma_outbox_keeps_order(self@, packet@, 0);
        }
        let mut taken = Outbox::new();
        core::mem::swap(self, &mut taken);
        let Outbox { buffer, accepted, sent } = taken;
        let mut buffer = buffer;
        append_bytes(&mut buffer, packet);
        *self = Outbox { buffer, accepted: Ghost(accepted@.push(packet@)), sent };
    }

    /// The bytes to hand to the channel next: all that is pending, in order.
    pub fn front(&self) -> (bytes: &[u8])
        ensures
            self@.wf(),
            bytes@ == self@.pending(),
    {
        proof {
            use_type_invariant(self);
        }
        self.buffer.as_slice()
    }

    /// Whether anything is pending.
    pub fn is_empty(&self) -> (b: bool)
        ensures
            b == (self@.pending().len() == 0),
    {
        proof {
            use_type_invariant(self);
        }
        self.buffer.len() == 0
    }

    /// Takes note that the channel took `n` more bytes.
    pub fn wrote(&mut self, n: usize)
        ensures
            final(self)@ == old(self)@.advanced(n as nat),
    {
        proof {
            use_type_invariant(&*self);
            lemma_outbox_keeps_order(self@, Seq::empty(), n as nat);
        }
        let len = self.buffer.len();
        let taken = if n <= len {
            n
        } else {
            len
        };
        let rest = copy_range(self.buffer.as_slice(), taken, len);
        assert(rest@ =~= self@.pending().skip(taken as int));
        assert(n > len ==> joined(self@.accepted).skip(joined(self@.accepted).len() as int)
            =~= self@.pending().skip(taken as int));
        *self = Outbox {
            buffer: rest,
            accepted: Ghost(self.accepted@),
            sent: Ghost(
                if n <= len {
                    self.sent@ + n as nat
                } else {
                    joined(self.accepted@).len()
                },
            ),
        };
    }
}

} // verus!
