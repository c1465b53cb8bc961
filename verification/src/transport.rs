//! Transport handshake decision logic.
//!
//! One exchange hands the physical address of an envelope buffer to the
//! co-processor through the outgoing FIFO and waits on the incoming FIFO
//! for the answer, then rereads the buffer and classifies what came back.
//! The register accesses themselves and the cache maintenance around them
//! are hardware effects outside this crate's verified core; every decision
//! taken between them stands here: when a FIFO status word allows the next
//! step, how an address is tagged with the channel and the uncached alias,
//! which incoming words belong to the exchange and which are skipped, and
//! how the reread buffer is rebuilt and classified.

use vstd::prelude::*;

use crate::mailboxbatch::{spec_parse_batch, MailboxBatch};
use crate::mailboxmessage::{spec_parse_message, MailboxMessage};
use crate::propertytags::PropertyTag;
use crate::{MailboxChannel, MailboxError, MailboxResult, MessageState};

verus! {

/// Status register bit: the outgoing FIFO is full and cannot take a word.
pub const MAILBOX_FULL: u32 = 0x8000_0000;

/// Status register bit: the incoming FIFO is empty and offers no word.
pub const MAILBOX_EMPTY: u32 = 0x4000_0000;

/// Address bits instructing the co-processor to access the buffer through
/// its uncached alias, bypassing the CPU cache.
pub const UNCACHED_ALIAS: u32 = 0xC000_0000;

/// The address handed to the co-processor: the buffer address with the
/// uncached-alias bits set.
pub fn uncached_alias(addr: u32) -> (r: u32)
    ensures
        r == (addr | 0xC000_0000u32),
{
    addr | UNCACHED_ALIAS
}

/// The cached address the CPU rereads the buffer at after the exchange:
/// the uncached-alias bits cleared again.
pub fn cached_address(addr: u32) -> (r: u32)
    ensures
        r == (addr ^ 0xC000_0000u32),
{
    addr ^ UNCACHED_ALIAS
}

/// Clearing the uncached-alias bits after the exchange recovers exactly the
/// address the buffer was at before it: the reread happens at the same
/// memory, and the pre-exchange value can be discarded without running any
/// release logic on it.
pub proof fn lemma_alias_roundtrip(addr: u32)
    requires
        addr & 0xC000_0000u32 == 0u32,
    ensures
        ((addr | 0xC000_0000u32) ^ 0xC000_0000u32) == addr,
{
    assert(addr & 0xC000_0000u32 == 0u32 ==> ((addr | 0xC000_0000u32) ^ 0xC000_0000u32)
        == addr) by (bit_vector);
}

/// Whether a status word of the outgoing FIFO reports it full; the write
/// step busy-waits while this holds.
pub fn send_fifo_full(status: u32) -> (r: bool)
    ensures
        r == ((status & 0x8000_0000u32) != 0),
{
    (status & MAILBOX_FULL) != 0
}

/// Whether a status word of the incoming FIFO reports it empty; the read
/// step busy-waits while this holds.
pub fn receive_fifo_empty(status: u32) -> (r: bool)
    ensures
        r == ((status & 0x4000_0000u32) != 0),
{
    (status & MAILBOX_EMPTY) != 0
}

/// The word written to the outgoing FIFO: the buffer address with its low
/// four bits masked out and the channel number placed in them.
pub fn submit_word(addr: u32, channel: MailboxChannel) -> (r: u32)
    ensures
        r == ((addr & 0xFFFF_FFF0u32) | channel.spec_value()),
{
    (addr & 0xFFFF_FFF0) | channel.value()
}

/// Judge one word read from the incoming FIFO: a word whose low four bits
/// carry the exchange's channel answers it, and the rest of the word is the
/// address payload; a word tagged for another channel is not an answer and
/// must be skipped, not taken.
pub fn accept_read(data: u32, channel: MailboxChannel) -> (r: Option<u32>)
    ensures
        (data & 0xFu32) == channel.spec_value() ==> r == Some(data & 0xFFFF_FFF0u32),
        (data & 0xFu32) != channel.spec_value() ==> r is None,
{
    if (data & 0xF) == channel.value() {
        Some(data & 0xFFFF_FFF0)
    } else {
        None
    }
}

/// Walk the words the incoming FIFO would deliver, in order, and take the
/// first one tagged for the exchange's channel, skipping every word tagged
/// for another channel. `None` when no word of the run belongs to the
/// channel; the hardware loop would then keep waiting.
pub fn receive_for_channel(reads: &Vec<u32>, channel: MailboxChannel) -> (r: Option<
    (usize, u32),
>)
    ensures
        match r {
            Some((i, data)) => {
                &&& i < reads@.len()
                &&& (reads@[i as int] & 0xFu32) == channel.spec_value()
                &&& data == (reads@[i as int] & 0xFFFF_FFF0u32)
                &&& forall|j: int|
                    0 <= j < i ==> ((#[trigger] reads@[j]) & 0xFu32) != channel.spec_value()
            },
            None => forall|j: int|
                0 <= j < reads@.len() ==> ((#[trigger] reads@[j]) & 0xFu32)
                    != channel.spec_value(),
        },
{
    let mut i: usize = 0;
    while i < reads.len()
        invariant
            i <= reads@.len(),
            forall|j: int|
                0 <= j < i ==> ((#[trigger] reads@[j]) & 0xFu32) != channel.spec_value(),
        decreases reads@.len() - i,
    {
        match accept_read(reads[i], channel) {
            Some(data) => {
                return Some((i, data));
            },
            None => {},
        }
        i = i + 1;
    }
    None
}

/// Rebuild and classify the buffer the co-processor wrote back for a batch
/// exchange: a well-formed envelope whose state word says the request was
/// processed successfully yields the populated batch; a response error or a
/// buffer that is not a well-formed envelope is a transport failure. The
/// per-tag states inside a returned batch are the caller's to inspect; a
/// truncated tag response is data, not a failure.
pub fn complete_batch_exchange(response: &Vec<u32>) -> (r: MailboxResult<MailboxBatch>)
    ensures
        match spec_parse_batch(response@) {
            Some((st, recs)) => {
                if st == MessageState::ResponseOk {
                    &&& r matches Ok(b)
                    &&& b.wf()
                    &&& b.spec_state() == MessageState::ResponseOk
                    &&& b.recs() == recs
                    &&& b.total_size() == response@[0]
                } else {
                    r == Err::<MailboxBatch, MailboxError>(MailboxError::TransportFailure)
                }
            },
            None => r == Err::<MailboxBatch, MailboxError>(MailboxError::TransportFailure),
        },
{
    match MailboxBatch::parse(response) {
        None => Err(MailboxError::TransportFailure),
        Some(b) => match b.get_state() {
            MessageState::ResponseOk => Ok(b),
            _ => Err(MailboxError::TransportFailure),
        },
    }
}

/// Rebuild and classify the buffer the co-processor wrote back for a
/// single-tag exchange, in the same way as for a batch.
pub fn complete_message_exchange<T: PropertyTag>(response: &Vec<u32>) -> (r: MailboxResult<
    MailboxMessage<T>,
>)
    ensures
        match spec_parse_message::<T>(response@) {
            Some((st, rec)) => {
                if st == MessageState::ResponseOk {
                    &&& r matches Ok(m)
                    &&& m.wf()
                    &&& m.spec_state() == MessageState::ResponseOk
                    &&& m.tag_rec() == rec
                    &&& m.total_size() == response@[0]
                } else {
                    r == Err::<MailboxMessage<T>, MailboxError>(MailboxError::TransportFailure)
                }
            },
            None => r == Err::<MailboxMessage<T>, MailboxError>(MailboxError::TransportFailure),
        },
{
    match MailboxMessage::<T>::parse(response) {
        None => Err(MailboxError::TransportFailure),
        Some(m) => match m.state() {
            MessageState::ResponseOk => Ok(m),
            _ => Err(MailboxError::TransportFailure),
        },
    }
}

} // verus!
