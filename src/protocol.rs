//! The protocol that owns one channel: the producer sends payloads under
//! sequential ids, the consumer receives messages with their integrity verdict.
use vstd::prelude::*;

use crate::buffer::{evict_push, ChannelError, CircularBuffer};
use crate::message::{xor_fold, Message};

verus! {

/// The id that follows `id`, wrapping from 65535 back to 0.
pub open spec fn next_after(id: u16) -> u16 {
    ((id + 1) % 0x10000) as u16
}

/// The id handed out `k` sends after the one that got `id`.
pub open spec fn id_after(id: u16, k: nat) -> u16
    decreases k,
{
    if k == 0 {
        id
    } else {
        next_after(id_after(id, (k - 1) as nat))
    }
}

/// Id sequencing: the send that comes `k` sends after the one that got id `n` gets
/// id `n + k`, taken modulo 65536.
pub proof fn lemma_ids_consecutive(n: u16, k: nat)
    ensures
        id_after(n, k) as int == (n + k) % 0x10000,
    decreases k,
{
    if k > 0 {
        lemma_ids_consecutive(n, (k - 1) as nat);
        vstd::arithmetic::div_mod::lemma_add_mod_noop(n + k - 1, 1, 0x10000);
        vstd::arithmetic::div_mod::lemma_mod_twice(n + k - 1, 0x10000);
        vstd::arithmetic::div_mod::lemma_small_mod(1, 0x10000);
    }
}

/// One producer and one consumer sharing a channel.
pub struct CommunicationProtocol {
    shared_buffer: CircularBuffer,
    next_message: u16,
}

impl CommunicationProtocol {
    /// The channel that the protocol owns.
    pub closed spec fn channel(&self) -> CircularBuffer {
        self.shared_buffer
    }

    /// The id that the next send will hand out.
    pub closed spec fn next_id(&self) -> u16 {
        self.next_message
    }

    /// Well-formedness of the owned channel.
    pub open spec fn wf(&self) -> bool {
        self.channel().wf()
    }

    /// Starts a session over a fresh channel of `buffer_capacity`; ids start at 1.
    pub fn new(buffer_capacity: usize) -> (r: Result<CommunicationProtocol, ChannelError>)
        ensures
            buffer_capacity == 0 <==> r is Err,
            r is Err ==> r == Err::<CommunicationProtocol, ChannelError>(
                ChannelError::ZeroCapacity,
            ),
            r matches Ok(p) ==> {
                &&& p.wf()
                &&& p.next_id() == 1
                &&& p.channel().messages() == Seq::<Message>::empty()
                &&& p.channel().cap() == buffer_capacity
                &&& p.channel().writes() == 0
                &&& p.channel().reads() == 0
            },
    {
        match CircularBuffer::new(buffer_capacity) {
            Ok(shared_buffer) => Ok(CommunicationProtocol { shared_buffer, next_message: 1 }),
            Err(e) => Err(e),
        }
    }

    /// Sends `payload` under the next id, evicting the oldest unread message when the
    /// channel is full, and returns the id it was given.
    pub fn mcu1_send(&mut self, payload: Vec<u8>) -> (r: Result<u16, ChannelError>)
        requires
            old(self).wf(),
            old(self).channel().writes() < usize::MAX,
        ensures
            final(self).wf(),
            r == Ok::<u16, ChannelError>(old(self).next_id()),
            final(self).next_id() == next_after(old(self).next_id()),
            final(self).channel().messages() == evict_push(
                old(self).channel().messages(),
                old(self).channel().cap(),
                (Message { id: old(self).next_id(), payload, checksum: xor_fold(payload@) }),
            ),
            final(self).channel().cap() == old(self).channel().cap(),
            final(self).channel().writes() == old(self).channel().writes() + 1,
            final(self).channel().reads() == old(self).channel().reads(),
    {
        let message_id = self.next_message;
        let message = Message::new(message_id, payload);
        match self.shared_buffer.send_message(message) {
            Ok(()) => {},
            Err(e) => {
                return Err(e);
            },
        }
        self.next_message = self.next_message.wrapping_add(1);
        Ok(message_id)
    }

    /// Takes the oldest message with whether its checksum still agrees with its
    /// payload; `None` when the channel is empty. A message is consumed either way.
    pub fn mcu2_receive(&mut self) -> (r: Option<(Message, bool)>)
        requires
            old(self).wf(),
            old(self).channel().reads() < usize::MAX,
        ensures
            final(self).wf(),
            final(self).next_id() == old(self).next_id(),
            final(self).channel().cap() == old(self).channel().cap(),
            final(self).channel().writes() == old(self).channel().writes(),
            match r {
                Some((m, valid)) => {
                    &&& old(self).channel().messages().len() > 0
                    &&& m == old(self).channel().messages()[0]
                    &&& valid == m.is_intact()
                    &&& final(self).channel().messages()
                        == old(self).channel().messages().drop_first()
                    &&& final(self).channel().reads() == old(self).channel().reads() + 1
                },
                None => {
                    &&& old(self).channel().messages().len() == 0
                    &&& final(self).channel().messages() == old(self).channel().messages()
                    &&& final(self).channel().reads() == old(self).channel().reads()
                },
            },
    {
        match self.shared_buffer.receive_message() {
            Some(message) => {
                let valid_checksum = message.verify_checksum();
                Some((message, valid_checksum))
            },
            None => None,
        }
    }

    /// A snapshot of the channel: its length, whether it is empty, whether it is full.
    pub fn get_buffer_status(&self) -> (r: (usize, bool, bool))
        ensures
            r.0 == self.channel().messages().len(),
            r.1 == (self.channel().messages().len() == 0),
            r.2 == (self.channel().messages().len() >= self.channel().cap()),
    {
        (self.shared_buffer.length(), self.shared_buffer.is_empty(), self.shared_buffer.is_full())
    }
}

} // verus!
