//! Batch envelope.
//!
//! A [`MailboxBatch`] assembles several property tags of distinct types into
//! one contiguous buffer of 32-bit words that the co-processor walks as a
//! flat run of size-delimited records: the envelope header (total byte size
//! and state word), the encoded tags in insertion order, and one terminating
//! zero word. Distinctness is enforced when a tag is inserted, before any
//! hardware access, and retrieval by type resolves through a map from tag
//! identifier to word offset, so a tag is read back from exactly the words
//! it was placed in.

use vstd::prelude::*;

use crate::propertytags::{rec_bytes, rec_wf, rec_words, PropertyTag, TagRec};
use crate::{MailboxError, MailboxResult, MessageState};

verus! {

/// Every record of the sequence is well formed.
pub open spec fn recs_wf(recs: Seq<TagRec>) -> bool {
    forall|i: int| 0 <= i < recs.len() ==> rec_wf(#[trigger] recs[i])
}

/// No two records of the sequence share a tag identifier.
pub open spec fn recs_distinct(recs: Seq<TagRec>) -> bool {
    forall|i: int, j: int| 0 <= i < j < recs.len() ==> recs[i].id != recs[j].id
}

/// The concatenated wire words of a sequence of records, in order.
pub open spec fn recs_words(recs: Seq<TagRec>) -> Seq<u32>
    decreases recs.len(),
{
    if recs.len() == 0 {
        Seq::empty()
    } else {
        rec_words(recs[0]) + recs_words(recs.drop_first())
    }
}

/// The word offset at which record `i` starts within [`recs_words`]: the
/// summed word lengths of the records before it.
pub open spec fn rec_offset(recs: Seq<TagRec>, i: int) -> int
    decreases i,
{
    if i <= 0 {
        0
    } else {
        rec_offset(recs, i - 1) + rec_words(recs[i - 1]).len()
    }
}

/// Offsets are never negative.
pub proof fn lemma_rec_offset_nonneg(recs: Seq<TagRec>, i: int)
    ensures
        rec_offset(recs, i) >= 0,
    decreases i,
{
    if i > 0 {
        lemma_rec_offset_nonneg(recs, i - 1);
    }
}

/// Appending a record appends its wire words.
pub proof fn lemma_recs_words_push(recs: Seq<TagRec>, r: TagRec)
    ensures
        recs_words(recs.push(r)) == recs_words(recs) + rec_words(r),
    decreases recs.len(),
{
    if recs.len() == 0 {
        assert(recs.push(r).drop_first() =~= Seq::<TagRec>::empty());
        assert(recs.push(r)[0] == r);
        assert(recs_words(recs.push(r)) == rec_words(r) + recs_words(
            recs.push(r).drop_first(),
        ));
        assert(recs_words(Seq::<TagRec>::empty()) == Seq::<u32>::empty());
        assert(recs_words(recs.push(r)) =~= recs_words(recs) + rec_words(r));
    } else {
        assert(recs.push(r).drop_first() =~= recs.drop_first().push(r));
        lemma_recs_words_push(recs.drop_first(), r);
        assert(recs.push(r)[0] == recs[0]);
        assert(recs_words(recs.push(r)) == rec_words(recs[0]) + recs_words(
            recs.drop_first().push(r),
        ));
        assert(recs_words(recs.push(r)) =~= recs_words(recs) + rec_words(r));
    }
}

/// Offsets ignore the records at and after position `i`: two sequences that
/// agree on the records before `i` give the same offset.
pub proof fn lemma_rec_offset_prefix(recs1: Seq<TagRec>, recs2: Seq<TagRec>, i: int)
    requires
        0 <= i <= recs1.len(),
        i <= recs2.len(),
        forall|j: int| 0 <= j < i ==> recs1[j] == recs2[j],
    ensures
        rec_offset(recs1, i) == rec_offset(recs2, i),
    decreases i,
{
    if i > 0 {
        lemma_rec_offset_prefix(recs1, recs2, i - 1);
    }
}

/// The whole wire image is exactly as long as the offset past the last
/// record.
pub proof fn lemma_recs_words_len(recs: Seq<TagRec>)
    ensures
        recs_words(recs).len() == rec_offset(recs, recs.len() as int),
    decreases recs.len(),
{
    if recs.len() > 0 {
        let prefix = recs.drop_last();
        assert(prefix.push(recs.last()) =~= recs);
        lemma_recs_words_push(prefix, recs.last());
        lemma_recs_words_len(prefix);
        lemma_rec_offset_prefix(prefix, recs, recs.len() - 1);
    }
}

/// Record `i` stands in the wire image exactly at its offset: the words from
/// `rec_offset(recs, i)` for its length are its own wire words.
pub proof fn lemma_recs_words_slice(recs: Seq<TagRec>, i: int)
    requires
        0 <= i < recs.len(),
    ensures
        rec_offset(recs, i) + rec_words(recs[i]).len() <= recs_words(recs).len(),
        recs_words(recs).subrange(
            rec_offset(recs, i),
            rec_offset(recs, i) + rec_words(recs[i]).len(),
        ) == rec_words(recs[i]),
    decreases recs.len(),
{
    lemma_recs_words_len(recs);
    if i + 1 == recs.len() {
        let prefix = recs.drop_last();
        assert(prefix.push(recs.last()) =~= recs);
        lemma_recs_words_push(prefix, recs.last());
        lemma_recs_words_len(prefix);
        lemma_rec_offset_prefix(prefix, recs, i);
        assert(recs_words(recs).subrange(
            rec_offset(recs, i),
            rec_offset(recs, i) + rec_words(recs[i]).len(),
        ) =~= rec_words(recs[i]));
    } else {
        let prefix = recs.drop_last();
        assert(prefix.push(recs.last()) =~= recs);
        lemma_recs_words_push(prefix, recs.last());
        lemma_recs_words_slice(prefix, i);
        lemma_rec_offset_prefix(prefix, recs, i);
        assert(prefix[i] == recs[i]);
        assert(recs_words(recs) == recs_words(prefix) + rec_words(recs.last()));
        let off = rec_offset(recs, i);
        let n = rec_words(recs[i]).len() as int;
        lemma_rec_offset_nonneg(recs, i);
        assert(off + n <= recs_words(prefix).len());
        assert forall|k: int| 0 <= k < n implies recs_words(recs)[off + k] == rec_words(
            recs[i],
        )[k] by {
            assert(recs_words(recs)[off + k] == recs_words(prefix)[off + k]);
            assert(recs_words(prefix).subrange(off, off + n)[k] == recs_words(prefix)[off + k]);
        }
        assert(recs_words(recs).subrange(off, off + n) =~= rec_words(recs[i]));
    }
}

/// The summed byte sizes of the encoded records of a sequence.
pub open spec fn recs_bytes(recs: Seq<TagRec>) -> int
    decreases recs.len(),
{
    if recs.len() == 0 {
        0
    } else {
        rec_bytes(recs[0]) + recs_bytes(recs.drop_first())
    }
}

/// Appending a record adds its byte size.
pub proof fn lemma_recs_bytes_push(recs: Seq<TagRec>, r: TagRec)
    ensures
        recs_bytes(recs.push(r)) == recs_bytes(recs) + rec_bytes(r),
    decreases recs.len(),
{
    if recs.len() == 0 {
        assert(recs.push(r).drop_first() =~= Seq::<TagRec>::empty());
        assert(recs.push(r)[0] == r);
        assert(recs_bytes(recs.push(r)) == rec_bytes(r) + recs_bytes(
            recs.push(r).drop_first(),
        ));
        assert(recs_bytes(Seq::<TagRec>::empty()) == 0);
    } else {
        assert(recs.push(r).drop_first() =~= recs.drop_first().push(r));
        lemma_recs_bytes_push(recs.drop_first(), r);
        assert(recs.push(r)[0] == recs[0]);
        assert(recs_bytes(recs.push(r)) == rec_bytes(recs[0]) + recs_bytes(
            recs.drop_first().push(r),
        ));
    }
}

/// The byte size of a record sequence is four bytes per wire word.
pub proof fn lemma_recs_bytes_words(recs: Seq<TagRec>)
    ensures
        recs_bytes(recs) == 4 * recs_words(recs).len(),
    decreases recs.len(),
{
    if recs.len() > 0 {
        lemma_recs_bytes_words(recs.drop_first());
    }
}

/// There is a record with the given identifier in the sequence.
pub open spec fn spec_has_tag(recs: Seq<TagRec>, id: u32) -> bool {
    exists|i: int| 0 <= i < recs.len() && recs[i].id == id
}

/// The record with the given identifier. Meaningful when [`spec_has_tag`]
/// holds and the identifiers are distinct, which pins one record down.
pub open spec fn spec_tag_rec(recs: Seq<TagRec>, id: u32) -> TagRec {
    recs[choose|i: int| 0 <= i < recs.len() && recs[i].id == id]
}

/// In a duplicate-free sequence, a record with identifier `id` at position
/// `k` is the record [`spec_tag_rec`] names.
pub proof fn lemma_tag_rec_at(recs: Seq<TagRec>, id: u32, k: int)
    requires
        recs_distinct(recs),
        0 <= k < recs.len(),
        recs[k].id == id,
    ensures
        spec_has_tag(recs, id),
        spec_tag_rec(recs, id) == recs[k],
{
    assert(0 <= k < recs.len() && recs[k].id == id);
    let i = choose|i: int| 0 <= i < recs.len() && recs[i].id == id;
    if i < k {
        assert(recs[i].id != recs[k].id);
    } else if k < i {
        assert(recs[k].id != recs[i].id);
    }
}

/// Copy `n` words of `src` starting at `start` into a fresh vector.
pub(crate) fn copy_range(src: &Vec<u32>, start: usize, n: usize) -> (r: Vec<u32>)
    requires
        start + n <= src@.len(),
    ensures
        r@ == src@.subrange(start as int, start + n),
{
    let len = src.len();
    let mut r: Vec<u32> = Vec::new();
    let mut k: usize = 0;
    while k < n
        invariant
            k <= n,
            start + n <= len,
            len == src@.len(),
            r@ == src@.subrange(start as int, start + k),
        decreases n - k,
    {
        r.push(src[start + k]);
        k = k + 1;
        proof {
            assert(src@.subrange(start as int, start + k)
                == src@.subrange(start as int, start + k - 1) + seq![src@[start + k - 1]]);
        }
    }
    r
}

/// The batch envelope: several property tags of distinct types in one
/// contiguous buffer, sent and answered as a unit.
pub struct MailboxBatch {
    msg_size: u32,
    msg_type: MessageState,
    tag_words: Vec<u32>,
    index: Vec<(u32, usize, usize)>,
    tag_recs: Ghost<Seq<TagRec>>,
}

impl MailboxBatch {
    /// The records this batch holds, in insertion order.
    pub closed spec fn recs(&self) -> Seq<TagRec> {
        self.tag_recs@
    }

    /// The state of this batch: a request until the exchange, a response
    /// classification afterwards.
    pub closed spec fn spec_state(&self) -> MessageState {
        self.msg_type
    }

    /// The total byte size of the envelope as it stands in its first wire
    /// word: the eight header bytes, the encoded tags, and the four bytes of
    /// the terminator.
    pub closed spec fn total_size(&self) -> u32 {
        self.msg_size
    }

    /// The internal invariant: the index maps each record's identifier to
    /// the word offset where its encoding stands, the buffer is exactly the
    /// concatenated encodings, no identifier repeats, and the size word
    /// counts header, tags and terminator.
    pub closed spec fn wf(&self) -> bool {
        &&& self.index@.len() == self.tag_recs@.len()
        &&& recs_wf(self.tag_recs@)
        &&& recs_distinct(self.tag_recs@)
        &&& self.tag_words@ == recs_words(self.tag_recs@)
        &&& (forall|i: int|
            0 <= i < self.tag_recs@.len() ==> {
                &&& (#[trigger] self.index@[i]).0 == self.tag_recs@[i].id
                &&& self.index@[i].1 == rec_offset(self.tag_recs@, i)
                &&& self.index@[i].2 == self.tag_recs@[i].payload.len()
            })
        &&& self.msg_size == 12 + 4 * self.tag_words@.len()
    }

    /// The full wire image of this batch: total size, state word, the
    /// encoded tags in order, and the zero terminator.
    pub open spec fn spec_wire(&self) -> Seq<u32> {
        seq![self.total_size(), self.spec_state().spec_value()] + recs_words(self.recs())
            + seq![0u32]
    }

    /// Create a batch with no tags. Its total size is the twelve bytes of
    /// envelope overhead: the two header words and the terminator.
    pub fn empty() -> (b: MailboxBatch)
        ensures
            b.wf(),
            b.recs() == Seq::<TagRec>::empty(),
            b.spec_state() == MessageState::Request,
            b.total_size() == 12,
    {
        let b = MailboxBatch {
            msg_size: 12,
            msg_type: MessageState::Request,
            tag_words: Vec::new(),
            index: Vec::new(),
            tag_recs: Ghost(Seq::empty()),
        };
        proof {
            assert(recs_words(Seq::<TagRec>::empty()) == Seq::<u32>::empty());
        }
        b
    }

    /// Find the position of the record carrying the given identifier.
    fn find_entry(&self, id: u32) -> (r: Option<usize>)
        requires
            self.wf(),
        ensures
            match r {
                Some(i) => i < self.recs().len() && self.recs()[i as int].id == id,
                None => forall|j: int|
                    0 <= j < self.recs().len() ==> (#[trigger] self.recs()[j]).id != id,
            },
    {
        let mut i: usize = 0;
        while i < self.index.len()
            invariant
                self.wf(),
                i <= self.index@.len(),
                forall|j: int| 0 <= j < i ==> (#[trigger] self.index@[j]).0 != id,
            decreases self.index@.len() - i,
        {
            if self.index[i].0 == id {
                return Some(i);
            }
            i = i + 1;
        }
        proof {
            assert forall|j: int| 0 <= j < self.recs().len() implies (#[trigger] self.recs()[j]).id
                != id by {
                assert(self.index@[j].0 == self.tag_recs@[j].id);
            }
        }
        None
    }

    /// Append a tag to the batch, after every tag already present. A second
    /// tag of a type already in the batch is rejected with
    /// [`MailboxError::DuplicateTag`] and the batch stays as it was.
    pub fn add_tag<T: PropertyTag>(&mut self, tag: T) -> (r: MailboxResult<()>)
        requires
            old(self).wf(),
            tag.wf(),
            old(self).total_size() + 12 + 4 * T::spec_payload_words() <= 0xFFFF_FFFF,
        ensures
            final(self).wf(),
            final(self).spec_state() == old(self).spec_state(),
            spec_has_tag(old(self).recs(), T::spec_tagid().spec_value()) ==> {
                &&& r == Err::<(), MailboxError>(MailboxError::DuplicateTag)
                &&& final(self).recs() == old(self).recs()
                &&& final(self).total_size() == old(self).total_size()
            },
            !spec_has_tag(old(self).recs(), T::spec_tagid().spec_value()) ==> {
                &&& r == Ok::<(), MailboxError>(())
                &&& final(self).recs() == old(self).recs().push(tag.rec())
                &&& final(self).total_size() == old(self).total_size() + 12 + 4
                    * T::spec_payload_words()
            },
    {
        proof {
            tag.lemma_wf();
        }
        let id = T::tagid_value();
        match self.find_entry(id) {
            Some(i) => {
                proof {
                    assert(spec_has_tag(self.recs(), id));
                }
                return Err(MailboxError::DuplicateTag);
            },
            None => {},
        }
        proof {
            assert(!spec_has_tag(self.recs(), id));
        }
        let ghost old_recs = self.tag_recs@;
        let ghost new_recs = old_recs.push(tag.rec());
        let off = self.tag_words.len();
        let n = T::payload_words();
        proof {
            lemma_recs_words_len(old_recs);
        }
        self.index.push((id, off, n));
        let mut words = tag.encode();
        self.tag_words.append(&mut words);
        self.msg_size = self.msg_size + 12 + tag.size();
        self.tag_recs = Ghost(new_recs);
        proof {
            lemma_recs_words_push(old_recs, tag.rec());
            assert forall|k: int| 0 <= k <= old_recs.len() implies rec_offset(new_recs, k)
                == rec_offset(old_recs, k) by {
                lemma_rec_offset_prefix(new_recs, old_recs, k);
            }
            assert forall|k: int|
                0 <= k < new_recs.len() implies {
                &&& (#[trigger] self.index@[k]).0 == new_recs[k].id
                &&& self.index@[k].1 == rec_offset(new_recs, k)
                &&& self.index@[k].2 == new_recs[k].payload.len()
            } by {
                if k < old_recs.len() {
                    assert(self.index@[k] == old(self).index@[k]);
                } else {
                    assert(self.index@[k] == (id, off, n));
                }
            }
            assert(self.wf());
        }
        Ok(())
    }

    /// Append a tag to the batch, consuming and returning it, so that a
    /// batch can be composed as a chain of insertions. A second tag of a
    /// type already present is rejected with [`MailboxError::DuplicateTag`].
    pub fn with_tag<T: PropertyTag>(self, tag: T) -> (r: MailboxResult<MailboxBatch>)
        requires
            self.wf(),
            tag.wf(),
            self.total_size() + 12 + 4 * T::spec_payload_words() <= 0xFFFF_FFFF,
        ensures
            !spec_has_tag(self.recs(), T::spec_tagid().spec_value()) ==> {
                &&& r matches Ok(b)
                &&& b.wf()
                &&& b.recs() == self.recs().push(tag.rec())
                &&& b.spec_state() == self.spec_state()
                &&& b.total_size() == self.total_size() + 12 + 4 * T::spec_payload_words()
            },
            spec_has_tag(self.recs(), T::spec_tagid().spec_value()) ==> (r matches Err(e)
                && e == MailboxError::DuplicateTag),
    {
        let mut b = self;
        match b.add_tag(tag) {
            Ok(_) => Ok(b),
            Err(e) => Err(e),
        }
    }

    /// The state of this batch: [`MessageState::Request`] before an
    /// exchange; on a batch rebuilt from a response, what the co-processor
    /// answered.
    pub fn get_state(&self) -> (r: MessageState)
        ensures
            r == self.spec_state(),
    {
        self.msg_type
    }

    /// Retrieve the tag of type `T` from the batch. The lookup resolves
    /// through the identifier-to-offset map, so it reads back exactly the
    /// words the tag was placed in, wherever later insertions put their own
    /// records. `None` when no tag of this type is present, or when the
    /// record found under its identifier does not have the type's payload
    /// width.
    pub fn get_tag<T: PropertyTag>(&self) -> (r: Option<T>)
        requires
            self.wf(),
        ensures
            ({
                let id = T::spec_tagid().spec_value();
                &&& !spec_has_tag(self.recs(), id) ==> r is None
                &&& spec_has_tag(self.recs(), id) ==> {
                    if spec_tag_rec(self.recs(), id).payload.len() == T::spec_payload_words() {
                        &&& r matches Some(t)
                        &&& t.wf()
                        &&& t.rec() == spec_tag_rec(self.recs(), id)
                    } else {
                        r is None
                    }
                }
            }),
    {
        let id = T::tagid_value();
        let n = T::payload_words();
        match self.find_entry(id) {
            None => None,
            Some(i) => {
                proof {
                    lemma_tag_rec_at(self.tag_recs@, id, i as int);
                }
                let entry = self.index[i];
                if entry.2 != n {
                    return None;
                }
                proof {
                    lemma_recs_words_slice(self.tag_recs@, i as int);
                    lemma_rec_offset_nonneg(self.tag_recs@, i as int);
                }
                let off = entry.1;
                let state = self.tag_words[off + 2];
                let payload = copy_range(&self.tag_words, off + 3, n);
                proof {
                    let rec = self.tag_recs@[i as int];
                    let ghost w = rec_words(rec);
                    assert(w[2] == rec.state);
                    assert forall|k: int| 0 <= k < n implies payload@[k] == rec.payload[k] by {
                        assert(self.tag_words@.subrange(
                            off as int,
                            off + w.len(),
                        )[3 + k] == self.tag_words@[off + 3 + k]);
                        assert(w[3 + k] == rec.payload[k]);
                    }
                    assert(payload@ =~= rec.payload);
                }
                Some(T::decode(state, payload))
            },
        }
    }

    /// The wire image of this batch, as handed to the co-processor: total
    /// size, state word, every tag's words in insertion order, and the zero
    /// terminator.
    pub fn words(&self) -> (r: Vec<u32>)
        requires
            self.wf(),
        ensures
            r@ == self.spec_wire(),
    {
        let mut r: Vec<u32> = Vec::new();
        r.push(self.msg_size);
        r.push(self.msg_type.value());
        let mut body = copy_range(&self.tag_words, 0, self.tag_words.len());
        r.append(&mut body);
        r.push(0);
        proof {
            assert(self.tag_words@.subrange(0, self.tag_words@.len() as int)
                == self.tag_words@);
            assert(r@ =~= self.spec_wire());
        }
        r
    }
}

/// Whether some entry of an identifier-to-offset index carries `id`.
fn index_has_id(index: &Vec<(u32, usize, usize)>, id: u32) -> (r: bool)
    ensures
        r == exists|j: int| 0 <= j < index@.len() && (#[trigger] index@[j]).0 == id,
{
    let mut i: usize = 0;
    while i < index.len()
        invariant
            i <= index@.len(),
            forall|j: int| 0 <= j < i ==> (#[trigger] index@[j]).0 != id,
        decreases index@.len() - i,
    {
        if index[i].0 == id {
            return true;
        }
        i = i + 1;
    }
    false
}

impl MailboxBatch {
    /// Rebuild a batch from the words the co-processor wrote back at the
    /// exchanged address. The buffer must carry a well-formed envelope:
    /// a total size counting every word, a known state word, a zero
    /// terminator, a tag area that tiles into size-delimited records, and
    /// no repeated tag identifier. `None` for anything else.
    pub fn parse(words: &Vec<u32>) -> (r: Option<MailboxBatch>)
        ensures
            match spec_parse_batch(words@) {
                Some((st, recs)) => {
                    &&& r matches Some(b)
                    &&& b.wf()
                    &&& b.spec_state() == st
                    &&& b.recs() == recs
                    &&& b.total_size() == words@[0]
                },
                None => r is None,
            },
    {
        let len = words.len();
        if len < 3 {
            return None;
        }
        let total = words[0];
        if len > 0x3FFF_FFFF {
            return None;
        }
        if !(total == 4 * (len as u32)) {
            return None;
        }
        let st = match MessageState::from_value(words[1]) {
            Some(s) => s,
            None => {
                return None;
            },
        };
        if words[len - 1] != 0 {
            return None;
        }
        let end = len - 1;
        let ghost region = words@.subrange(2, end as int);
        proof {
            assert(words@.last() == 0);
        }
        let mut pos: usize = 2;
        let mut index: Vec<(u32, usize, usize)> = Vec::new();
        let ghost mut recs: Seq<TagRec> = Seq::empty();
        proof {
            assert(region.skip(0) =~= region);
            assert(recs_words(recs) =~= words@.subrange(2, 2));
        }
        while pos < end
            invariant
                2 <= pos <= end,
                end == len - 1,
                len == words@.len(),
                3 <= len,
                region == words@.subrange(2, end as int),
                spec_parse_recs(region) == match spec_parse_recs(
                    region.skip(pos - 2),
                ) {
                    Some(rest) => Some(recs + rest),
                    None => None::<Seq<TagRec>>,
                },
                recs_wf(recs),
                recs_distinct(recs),
                index@.len() == recs.len(),
                forall|i: int|
                    0 <= i < recs.len() ==> {
                        &&& (#[trigger] index@[i]).0 == recs[i].id
                        &&& index@[i].1 == rec_offset(recs, i)
                        &&& index@[i].2 == recs[i].payload.len()
                    },
                recs_words(recs) == words@.subrange(2, pos as int),
                rec_offset(recs, recs.len() as int) == pos - 2,
            decreases end - pos,
        {
            let ghost suffix = region.skip(pos - 2);
            proof {
                assert forall|k: int| 0 <= k < suffix.len() implies suffix[k] == words@[pos + k] by {
                    assert(suffix[k] == region[pos - 2 + k]);
                }
                assert(suffix.len() == end - pos);
            }
            if end - pos < 3 {
                proof {
                    assert(spec_parse_recs(suffix) is None);
                }
                return None;
            }
            let id = words[pos];
            let size = words[pos + 1];
            if size % 4 != 0 {
                proof {
                    assert(suffix[1] == size);
                    assert(spec_parse_recs(suffix) is None);
                }
                return None;
            }
            let nw = (size / 4) as usize;
            if nw > end - pos - 3 {
                proof {
                    assert(suffix[1] == size);
                    assert(suffix[1] / 4 == nw);
                    assert(spec_parse_recs(suffix) is None);
                }
                return None;
            }
            let state = words[pos + 2];
            let ghost payload = suffix.subrange(3, 3 + nw as int);
            let ghost rec = TagRec { id, state, payload };
            proof {
                assert(suffix[0] == id);
                assert(suffix[1] == size);
                assert(suffix[2] == state);
                assert(suffix[1] / 4 == nw);
                assert(3 + nw <= suffix.len());
                assert(spec_parse_recs(suffix) == match spec_parse_recs(
                    suffix.skip(3 + nw as int),
                ) {
                    Some(rest) => Some(seq![rec] + rest),
                    None => None::<Seq<TagRec>>,
                });
            }
            if index_has_id(&index, id) {
                proof {
                    let j = choose|j: int|
                        0 <= j < index@.len() && (#[trigger] index@[j]).0 == id;
                    assert(recs[j].id == id);
                    let tail = spec_parse_recs(suffix.skip(3 + nw as int));
                    if tail is Some {
                        let full = recs + (seq![rec] + tail->Some_0);
                        assert(spec_parse_recs(region) == Some(full));
                        assert(full[j].id == id);
                        assert(full[recs.len() as int].id == id);
                        assert(!recs_distinct(full));
                    }
                }
                return None;
            }
            let ghost old_index = index@;
            index.push((id, pos - 2, nw));
            let ghost old_recs = recs;
            proof {
                recs = recs.push(rec);
            }
            let new_pos = pos + 3 + nw;
            proof {
                assert forall|j: int| 0 <= j < old_recs.len() implies (#[trigger] old_recs[j]).id
                    != id by {
                    assert(index@[j].0 == old_recs[j].id);
                }
                assert(rec_wf(rec)) by {
                    assert(payload.len() == nw);
                }
                lemma_recs_words_push(old_recs, rec);
                assert(rec_words(rec) =~= words@.subrange(pos as int, new_pos as int)) by {
                    assert(4 * payload.len() == size);
                    assert(rec_words(rec)[0] == id);
                    assert(rec_words(rec)[1] == size);
                    assert(rec_words(rec)[2] == state);
                    assert(forall|k: int|
                        0 <= k < nw ==> rec_words(rec)[3 + k] == #[trigger] payload[k]);
                    assert(forall|k: int|
                        0 <= k < nw ==> payload[k] == suffix[3 + k]);
                }
                assert(recs_words(recs) =~= words@.subrange(2, new_pos as int));
                assert forall|k: int| 0 <= k <= old_recs.len() implies rec_offset(recs, k)
                    == rec_offset(old_recs, k) by {
                    lemma_rec_offset_prefix(recs, old_recs, k);
                }
                assert(rec_offset(recs, recs.len() as int) == new_pos - 2);
                assert forall|i: int|
                    0 <= i < recs.len() implies {
                    &&& (#[trigger] index@[i]).0 == recs[i].id
                    &&& index@[i].1 == rec_offset(recs, i)
                    &&& index@[i].2 == recs[i].payload.len()
                } by {
                    if i < old_recs.len() {
                        assert(index@[i] == old_index[i]);
                    }
                }
                assert(suffix.skip(3 + nw as int) =~= region.skip(new_pos - 2));
                let tail = spec_parse_recs(region.skip(new_pos - 2));
                if tail is Some {
                    assert(old_recs + (seq![rec] + tail->Some_0) =~= recs + tail->Some_0);
                }
            }
            pos = new_pos;
        }
        proof {
            assert(region.skip(pos - 2) =~= Seq::<u32>::empty());
            assert(spec_parse_recs(Seq::<u32>::empty()) == Some(Seq::<TagRec>::empty()));
            assert(recs + Seq::<TagRec>::empty() =~= recs);
            assert(spec_parse_recs(region) == Some(recs));
        }
        let tag_words = copy_range(words, 2, end - 2);
        let b = MailboxBatch {
            msg_size: total,
            msg_type: st,
            tag_words,
            index,
            tag_recs: Ghost(recs),
        };
        proof {
            assert(b.tag_words@ =~= recs_words(recs));
            assert(b.wf());
            assert(spec_parse_batch(words@) == Some((st, recs)));
        }
        Some(b)
    }
}

/// The bytes standing before record `i` are four per word of offset.
pub proof fn lemma_prefix_bytes(recs: Seq<TagRec>, i: int)
    requires
        0 <= i <= recs.len(),
    ensures
        recs_bytes(recs.subrange(0, i)) == 4 * rec_offset(recs, i),
    decreases i,
{
    if i == 0 {
        assert(recs.subrange(0, 0) =~= Seq::<TagRec>::empty());
    } else {
        lemma_prefix_bytes(recs, i - 1);
        assert(recs.subrange(0, i) =~= recs.subrange(0, i - 1).push(recs[i - 1]));
        lemma_recs_bytes_push(recs.subrange(0, i - 1), recs[i - 1]);
    }
}

/// The total size of a well-formed batch is the twelve bytes of envelope
/// overhead plus the summed byte sizes of its records, however many tags
/// were appended.
pub proof fn lemma_batch_total_size(b: &MailboxBatch)
    requires
        b.wf(),
    ensures
        b.total_size() == 12 + recs_bytes(b.recs()),
{
    lemma_recs_bytes_words(b.recs());
}

/// Each record of a well-formed batch stands in the wire image at the word
/// offset the header words and all earlier records leave it: its byte offset
/// within the tag area equals the summed byte sizes of the records inserted
/// before it, and the words found there are exactly its own encoding.
pub proof fn lemma_tag_placement(b: &MailboxBatch, i: int)
    requires
        b.wf(),
        0 <= i < b.recs().len(),
    ensures
        recs_bytes(b.recs().subrange(0, i)) == 4 * rec_offset(b.recs(), i),
        2 + rec_offset(b.recs(), i) + rec_words(b.recs()[i]).len() < b.spec_wire().len(),
        b.spec_wire().subrange(
            2 + rec_offset(b.recs(), i),
            2 + rec_offset(b.recs(), i) + rec_words(b.recs()[i]).len(),
        ) == rec_words(b.recs()[i]),
{
    let recs = b.recs();
    let off = rec_offset(recs, i);
    let n = rec_words(recs[i]).len() as int;
    lemma_prefix_bytes(recs, i);
    lemma_recs_words_slice(recs, i);
    lemma_rec_offset_nonneg(recs, i);
    assert forall|k: int| 0 <= k < n implies b.spec_wire()[2 + off + k] == rec_words(
        recs[i],
    )[k] by {
        assert(b.spec_wire()[2 + off + k] == recs_words(recs)[off + k]);
        assert(recs_words(recs).subrange(off, off + n)[k] == recs_words(recs)[off + k]);
    }
    assert(b.spec_wire().subrange(2 + off, 2 + off + n) =~= rec_words(recs[i]));
}

/// Parse a run of size-delimited records, as the co-processor writes them
/// back: each record announces its identifier, its payload byte size and
/// its state, and the next record follows right after the payload. `None`
/// when the words do not tile into records this way.
pub open spec fn spec_parse_recs(words: Seq<u32>) -> Option<Seq<TagRec>>
    decreases words.len(),
{
    if words.len() == 0 {
        Some(Seq::empty())
    } else if words.len() < 3 {
        None
    } else if words[1] % 4 != 0 {
        None
    } else {
        let n = words[1] / 4;
        if 3 + n > words.len() {
            None
        } else {
            let rec = TagRec { id: words[0], state: words[2], payload: words.subrange(3, 3 + n) };
            match spec_parse_recs(words.skip(3 + n)) {
                Some(rest) => Some(seq![rec] + rest),
                None => None,
            }
        }
    }
}

/// Parse a full batch wire image: the total size must count every word,
/// the state word must be a known state, the last word must be the zero
/// terminator, the tag area must tile into records, and no tag identifier
/// may repeat.
pub open spec fn spec_parse_batch(words: Seq<u32>) -> Option<(MessageState, Seq<TagRec>)> {
    if words.len() < 3 {
        None
    } else if words[0] != 4 * words.len() {
        None
    } else if words.last() != 0 {
        None
    } else {
        match MessageState::spec_from_value(words[1]) {
            None => None,
            Some(st) => match spec_parse_recs(words.subrange(2, words.len() - 1)) {
                None => None,
                Some(recs) => if recs_distinct(recs) {
                    Some((st, recs))
                } else {
                    None
                },
            },
        }
    }
}

/// Parsing inverts encoding on the tag area: the concatenated wire words of
/// well-formed records parse back to exactly those records.
pub proof fn lemma_parse_recs_roundtrip(recs: Seq<TagRec>)
    requires
        recs_wf(recs),
    ensures
        spec_parse_recs(recs_words(recs)) == Some(recs),
    decreases recs.len(),
{
    if recs.len() == 0 {
        assert(recs =~= Seq::<TagRec>::empty());
    } else {
        let r0 = recs[0];
        let rest = recs.drop_first();
        let w = recs_words(recs);
        assert(rec_wf(r0));
        let plen = r0.payload.len() as int;
        assert(w == rec_words(r0) + recs_words(rest));
        assert(rec_words(r0).len() == 3 + plen);
        assert(w[0] == r0.id);
        assert(w[1] == (4 * plen) as u32);
        assert(w[2] == r0.state);
        assert((4 * plen) as u32 == 4 * plen);
        assert(w[1] % 4 == 0);
        assert(w[1] / 4 == plen);
        assert forall|k: int| 0 <= k < plen implies w[3 + k] == r0.payload[k] by {
            assert(w[3 + k] == rec_words(r0)[3 + k]);
        }
        assert(w.subrange(3, 3 + plen) =~= r0.payload);
        assert(w.skip(3 + plen) =~= recs_words(rest));
        assert(recs_wf(rest)) by {
            assert(forall|i: int| 0 <= i < rest.len() ==> #[trigger] rest[i] == recs[i + 1]);
        }
        lemma_parse_recs_roundtrip(rest);
        assert(spec_parse_recs(w) == Some(seq![r0] + rest));
        assert(seq![r0] + rest =~= recs);
    }
}

/// Parsing inverts encoding on the whole envelope: the wire image of a
/// well-formed batch parses back to its state and its records.
pub proof fn lemma_parse_batch_roundtrip(b: &MailboxBatch)
    requires
        b.wf(),
    ensures
        spec_parse_batch(b.spec_wire()) == Some((b.spec_state(), b.recs())),
{
    let w = b.spec_wire();
    let body = recs_words(b.recs());
    assert(w.len() == 3 + body.len());
    assert(w[0] == b.total_size());
    assert(b.total_size() == 4 * w.len());
    assert(w.last() == 0);
    assert(w[1] == b.spec_state().spec_value());
    assert(MessageState::spec_from_value(b.spec_state().spec_value())
        == Some(b.spec_state()));
    assert(w.subrange(2, w.len() - 1) =~= body);
    lemma_parse_recs_roundtrip(b.recs());
}

/// Retrieval is stable under later insertions: in a duplicate-free sequence,
/// appending another record neither removes nor changes the record an
/// earlier identifier resolves to. Fetching a tag therefore yields the same
/// record whatever was appended after it.
pub proof fn lemma_get_tag_stable(recs: Seq<TagRec>, r: TagRec, id: u32)
    requires
        recs_distinct(recs.push(r)),
        spec_has_tag(recs, id),
    ensures
        spec_has_tag(recs.push(r), id),
        spec_tag_rec(recs.push(r), id) == spec_tag_rec(recs, id),
{
    assert forall|i: int, j: int| 0 <= i < j < recs.len() implies recs[i].id != recs[j].id by {
        assert(recs.push(r)[i] == recs[i]);
        assert(recs.push(r)[j] == recs[j]);
    }
    let i = choose|i: int| 0 <= i < recs.len() && recs[i].id == id;
    lemma_tag_rec_at(recs, id, i);
    assert(recs.push(r)[i] == recs[i]);
    lemma_tag_rec_at(recs.push(r), id, i);
}

} // verus!
