//! Single-tag envelope.
//!
//! A [`MailboxMessage`] wraps exactly one property tag in the same envelope
//! shape the batch uses: total byte size, state word, the tag's words, and
//! a zero terminator. The whole buffer is handed to the co-processor and
//! read back in place after the exchange.

use vstd::prelude::*;

use crate::mailboxbatch::copy_range;
use crate::propertytags::{rec_words, PropertyTag, TagRec};
use crate::MessageState;

verus! {

/// The envelope around one property tag.
pub struct MailboxMessage<T> {
    msg_size: u32,
    msg_type: MessageState,
    msg_tag: T,
}

/// Parse the wire image of a single-tag envelope for tag type `T`: the
/// total size must count every word, the state word must be known, the
/// last word must be the zero terminator, and the one record must carry
/// `T`'s identifier and payload width.
pub open spec fn spec_parse_message<T: PropertyTag>(words: Seq<u32>) -> Option<
    (MessageState, TagRec),
> {
    let n = T::spec_payload_words() as int;
    if words.len() != 6 + n {
        None
    } else if words[0] != 4 * words.len() {
        None
    } else if words.last() != 0 {
        None
    } else if words[2] != T::spec_tagid().spec_value() {
        None
    } else if words[3] != 4 * n {
        None
    } else {
        match MessageState::spec_from_value(words[1]) {
            None => None,
            Some(st) => Some(
                (
                    st,
                    TagRec {
                        id: T::spec_tagid().spec_value(),
                        state: words[4],
                        payload: words.subrange(5, 5 + n),
                    },
                ),
            ),
        }
    }
}

impl<T: PropertyTag> MailboxMessage<T> {
    /// The record of the tag this message wraps.
    pub closed spec fn tag_rec(&self) -> TagRec {
        self.msg_tag.rec()
    }

    /// The state of this message: a request until the exchange, a response
    /// classification afterwards.
    pub closed spec fn spec_state(&self) -> MessageState {
        self.msg_type
    }

    /// The total byte size of the envelope as it stands in its first wire
    /// word.
    pub closed spec fn total_size(&self) -> u32 {
        self.msg_size
    }

    /// The internal invariant: the wrapped tag is well formed and the size
    /// word counts the eight header bytes, the tag, and the terminator.
    pub closed spec fn wf(&self) -> bool {
        &&& self.msg_tag.wf()
        &&& self.msg_size == 24 + 4 * T::spec_payload_words()
    }

    /// The full wire image of this message: total size, state word, the
    /// tag's words, and the zero terminator.
    pub open spec fn spec_wire(&self) -> Seq<u32> {
        seq![self.total_size(), self.spec_state().spec_value()] + rec_words(self.tag_rec())
            + seq![0u32]
    }

    /// Wrap a single property tag in a request envelope.
    pub fn from_tag(tag: T) -> (m: MailboxMessage<T>)
        requires
            tag.wf(),
            24 + 4 * T::spec_payload_words() <= 0xFFFF_FFFF,
        ensures
            m.wf(),
            m.spec_state() == MessageState::Request,
            m.tag_rec() == tag.rec(),
            m.total_size() == 24 + 4 * T::spec_payload_words(),
    {
        proof {
            tag.lemma_wf();
        }
        let size = tag.size();
        MailboxMessage { msg_size: 24 + size, msg_type: MessageState::Request, msg_tag: tag }
    }

    /// The response view of the wrapped tag. Meaningful only after a
    /// successful exchange has filled the payload overlay.
    pub fn response(&self) -> (r: T::Response)
        requires
            self.wf(),
        ensures
            r == T::spec_response(self.tag_rec()),
    {
        self.msg_tag.response()
    }

    /// The state of the processed message.
    pub fn state(&self) -> (r: MessageState)
        ensures
            r == self.spec_state(),
    {
        self.msg_type
    }

    /// The wrapped tag itself.
    pub fn get_tag(&self) -> (t: &T)
        requires
            self.wf(),
        ensures
            t.wf(),
            t.rec() == self.tag_rec(),
    {
        &self.msg_tag
    }

    /// The wire image of this message, as handed to the co-processor.
    pub fn words(&self) -> (r: Vec<u32>)
        requires
            self.wf(),
        ensures
            r@ == self.spec_wire(),
    {
        proof {
            self.msg_tag.lemma_wf();
        }
        let mut r: Vec<u32> = Vec::new();
        r.push(self.msg_size);
        r.push(self.msg_type.value());
        let mut body = self.msg_tag.encode();
        r.append(&mut body);
        r.push(0);
        proof {
            assert(r@ =~= self.spec_wire());
        }
        r
    }

    /// Rebuild a message of this tag type from the words the co-processor
    /// wrote back at the exchanged address. `None` when the buffer is not a
    /// well-formed single-tag envelope of this type.
    pub fn parse(words: &Vec<u32>) -> (r: Option<MailboxMessage<T>>)
        ensures
            match spec_parse_message::<T>(words@) {
                Some((st, rec)) => {
                    &&& r matches Some(m)
                    &&& m.wf()
                    &&& m.spec_state() == st
                    &&& m.tag_rec() == rec
                    &&& m.total_size() == words@[0]
                },
                None => r is None,
            },
    {
        let n = T::payload_words();
        let len = words.len();
        if len != 6 + n {
            return None;
        }
        if len > 0x3FFF_FFFF {
            proof {
                assert(words@[0] != 4 * words@.len());
            }
            return None;
        }
        let total = words[0];
        if !(total == 4 * (len as u32)) {
            return None;
        }
        if words[len - 1] != 0 {
            proof {
                assert(words@.last() != 0);
            }
            return None;
        }
        if words[2] != T::tagid_value() {
            return None;
        }
        if words[3] != 4 * (n as u32) {
            return None;
        }
        let st = match MessageState::from_value(words[1]) {
            Some(s) => s,
            None => {
                return None;
            },
        };
        let state = words[4];
        let payload = copy_range(words, 5, n);
        let tag = T::decode(state, payload);
        let m = MailboxMessage { msg_size: total, msg_type: st, msg_tag: tag };
        proof {
            assert(words@.last() == 0);
            assert(m.wf());
            assert(m.tag_rec() == spec_parse_message::<T>(words@)->Some_0.1);
        }
        Some(m)
    }
}

/// Parsing inverts encoding: the wire image of a well-formed message parses
/// back to its state and its tag record.
pub proof fn lemma_parse_message_roundtrip<T: PropertyTag>(m: &MailboxMessage<T>)
    requires
        m.wf(),
    ensures
        spec_parse_message::<T>(m.spec_wire()) == Some((m.spec_state(), m.tag_rec())),
{
    m.msg_tag.lemma_wf();
    let w = m.spec_wire();
    let rec = m.tag_rec();
    let n = T::spec_payload_words() as int;
    assert(rec_words(rec).len() == 3 + n);
    assert(w.len() == 6 + n);
    assert(w[2] == rec_words(rec)[0]);
    assert(w[3] == rec_words(rec)[1]);
    assert(w[4] == rec_words(rec)[2]);
    assert(w[3] == (4 * n) as u32);
    assert(w.last() == 0);
    assert(MessageState::spec_from_value(m.spec_state().spec_value()) == Some(m.spec_state()));
    assert forall|k: int| 0 <= k < n implies w[5 + k] == rec.payload[k] by {
        assert(w[5 + k] == rec_words(rec)[3 + k]);
    }
    assert(w.subrange(5, 5 + n) =~= rec.payload);
}

/// A transport that hands the request buffer back unchanged, save for
/// marking the envelope word as a successful response and writing a new
/// tag state, reproduces the request payload exactly: parsing the echoed
/// buffer yields the same payload words, so response fields read back the
/// request values wherever the two views of the overlay alias.
pub proof fn lemma_exchange_echo_roundtrip<T: PropertyTag>(m: &MailboxMessage<T>, new_state: u32)
    requires
        m.wf(),
    ensures
        ({
            let resp = m.spec_wire().update(1, 0x8000_0000u32).update(4, new_state);
            spec_parse_message::<T>(resp) == Some(
                (
                    MessageState::ResponseOk,
                    TagRec {
                        id: T::spec_tagid().spec_value(),
                        state: new_state,
                        payload: m.tag_rec().payload,
                    },
                ),
            )
        }),
{
    m.msg_tag.lemma_wf();
    let w = m.spec_wire();
    let resp = w.update(1, 0x8000_0000u32).update(4, new_state);
    let rec = m.tag_rec();
    let n = T::spec_payload_words() as int;
    assert(rec_words(rec).len() == 3 + n);
    assert(w.len() == 6 + n);
    assert(resp.len() == w.len());
    assert(resp[0] == w[0]);
    assert(resp[1] == 0x8000_0000u32);
    assert(resp[2] == w[2]);
    assert(resp[3] == w[3]);
    assert(resp[4] == new_state);
    assert(resp.last() == w.last());
    assert(w[2] == rec_words(rec)[0]);
    assert(w[3] == rec_words(rec)[1]);
    assert(w[3] == (4 * n) as u32);
    assert(w.last() == 0);
    assert forall|k: int| 0 <= k < n implies resp[5 + k] == rec.payload[k] by {
        assert(resp[5 + k] == w[5 + k]);
        assert(w[5 + k] == rec_words(rec)[3 + k]);
    }
    assert(resp.subrange(5, 5 + n) =~= rec.payload);
}

} // verus!
