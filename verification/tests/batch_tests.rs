use ruspiro_mailbox::mailboxbatch::MailboxBatch;
use ruspiro_mailbox::propertytags::{
    BoardMACAddressGet, ClockrateGet, MaxClockrateGet, PropertyTag, PropertyTagId,
    TemperatureGet,
};
use ruspiro_mailbox::{ClockId, MailboxError, MessageState};

#[test]
fn create_single_item_batch() {
    let batch = MailboxBatch::empty()
        .with_tag(ClockrateGet::new(ClockId::Core))
        .unwrap();

    let slice = batch.words();

    assert!(slice[0] == 12 + 20);
    assert!(slice[2] == PropertyTagId::ClockrateGet.value());

    let _ = batch.get_tag::<ClockrateGet>().unwrap();
}

#[test]
fn create_multiple_item_batch() {
    let batch = MailboxBatch::empty()
        .with_tag(ClockrateGet::new(ClockId::Core))
        .unwrap()
        .with_tag(MaxClockrateGet::new(ClockId::Arm))
        .unwrap()
        .with_tag(BoardMACAddressGet::new())
        .unwrap();

    let slice = batch.words();

    assert_eq!(slice[0], 12 + (20 + 20 + 20));
    assert!(slice[2] == PropertyTagId::ClockrateGet.value());
    assert!(slice[7] == PropertyTagId::MaxClockrateGet.value());
    assert!(slice[12] == PropertyTagId::BoardMACAddressGet.value());
}

#[test]
fn empty_batch_has_envelope_overhead_only() {
    let batch = MailboxBatch::empty();
    let words = batch.words();
    assert_eq!(words.len(), 3);
    assert_eq!(words[0], 12);
    assert_eq!(words[1], MessageState::Request.value());
    assert_eq!(words[2], 0);
}

#[test]
fn one_tag_with_eight_byte_payload_gives_total_32() {
    let batch = MailboxBatch::empty()
        .with_tag(ClockrateGet::new(ClockId::Core))
        .unwrap();
    let words = batch.words();
    assert_eq!(words[0], 12 + (12 + 8));
    assert_eq!(words[0], 32);
}

#[test]
fn total_size_accumulates_per_tag() {
    let b0 = MailboxBatch::empty();
    assert_eq!(b0.words()[0], 12);
    let b1 = b0.with_tag(ClockrateGet::new(ClockId::Core)).unwrap();
    assert_eq!(b1.words()[0], 32);
    let b2 = b1.with_tag(TemperatureGet::new(0)).unwrap();
    assert_eq!(b2.words()[0], 52);
    let b3 = b2.with_tag(BoardMACAddressGet::new()).unwrap();
    assert_eq!(b3.words()[0], 72);
}

#[test]
fn duplicate_tag_is_rejected_before_any_exchange() {
    let batch = MailboxBatch::empty()
        .with_tag(ClockrateGet::new(ClockId::Core))
        .unwrap();
    let total_before = batch.words()[0];
    match batch.with_tag(ClockrateGet::new(ClockId::Arm)) {
        Ok(_) => panic!("a second tag of the same type must be rejected"),
        Err(e) => assert_eq!(e, MailboxError::DuplicateTag),
    }
    assert_eq!(total_before, 32);
}

#[test]
fn duplicate_tag_leaves_batch_unchanged() {
    let mut batch = MailboxBatch::empty();
    batch.add_tag(ClockrateGet::new(ClockId::Core)).unwrap();
    let words_before = batch.words();
    let r = batch.add_tag(ClockrateGet::new(ClockId::Arm));
    assert_eq!(r, Err(MailboxError::DuplicateTag));
    assert_eq!(batch.words(), words_before);
}

#[test]
fn retrieval_is_stable_and_order_preserving() {
    let a = ClockrateGet::new(ClockId::Core);
    let a_words = a.encode();
    let batch = MailboxBatch::empty()
        .with_tag(a)
        .unwrap()
        .with_tag(MaxClockrateGet::new(ClockId::Arm))
        .unwrap()
        .with_tag(TemperatureGet::new(7))
        .unwrap();

    let got_a = batch.get_tag::<ClockrateGet>().unwrap();
    assert_eq!(got_a.encode(), a_words);
    assert_eq!(got_a.response().clock_id, ClockId::Core.value());

    let got_t = batch.get_tag::<TemperatureGet>().unwrap();
    assert_eq!(got_t.response().temperature_id, 7);

    // a tag's words stand at the offset the earlier tags leave it
    let words = batch.words();
    assert_eq!(&words[2..7], a_words.as_slice());
    assert_eq!(words[7], PropertyTagId::MaxClockrateGet.value());
}

#[test]
fn get_tag_of_absent_type_is_none() {
    let batch = MailboxBatch::empty()
        .with_tag(ClockrateGet::new(ClockId::Core))
        .unwrap();
    assert!(batch.get_tag::<TemperatureGet>().is_none());
}

#[test]
fn batch_state_starts_as_request() {
    let batch = MailboxBatch::empty()
        .with_tag(ClockrateGet::new(ClockId::Core))
        .unwrap();
    assert_eq!(batch.get_state(), MessageState::Request);
}

#[test]
fn every_tag_type_encodes_a_multiple_of_four_bytes() {
    let sizes = [
        12 + ClockrateGet::new(ClockId::Core).size(),
        12 + MaxClockrateGet::new(ClockId::Arm).size(),
        12 + BoardMACAddressGet::new().size(),
        12 + TemperatureGet::new(0).size(),
        12 + ruspiro_mailbox::propertytags::FirmwareRevisionGet::new().size(),
        12 + ruspiro_mailbox::propertytags::ClockrateSet::new(ClockId::Arm, 1_000_000_000, 0).size(),
    ];
    for s in sizes {
        assert_eq!(s % 4, 0);
    }
    // the MAC tag's six address bytes are padded to two whole words
    assert_eq!(BoardMACAddressGet::new().size(), 8);
}
