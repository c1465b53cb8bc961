use ruspiro_mailbox::mailboxbatch::MailboxBatch;
use ruspiro_mailbox::mailboxmessage::MailboxMessage;
use ruspiro_mailbox::propertytags::{
    BoardMACAddressGet, ClockrateGet, MaxClockrateGet, PropertyTag,
};
use ruspiro_mailbox::transport::{
    accept_read, cached_address, complete_batch_exchange, complete_message_exchange,
    receive_fifo_empty, receive_for_channel, send_fifo_full, submit_word, uncached_alias,
};
use ruspiro_mailbox::{ClockId, MailboxChannel, MailboxError, MessageState};

/// A transport that echoes the request buffer, marking the envelope as a
/// successful response and setting each tag's state word to "response
/// present" with the given reported size.
fn echo_transport(mut words: Vec<u32>, tag_state: u32) -> Vec<u32> {
    words[1] = 0x8000_0000;
    words[4] = tag_state;
    words
}

#[test]
fn message_round_trip_echoes_request_fields() {
    let m = MailboxMessage::from_tag(ClockrateGet::new(ClockId::Core));
    let sent = m.words();
    assert_eq!(sent, vec![32, 0, 0x3_0002, 8, 0, ClockId::Core.value(), 0, 0]);

    let response = echo_transport(sent, 0x8000_0008);
    let back = complete_message_exchange::<ClockrateGet>(&response).unwrap();

    assert_eq!(back.state(), MessageState::ResponseOk);
    assert_eq!(back.get_tag().state(), 0x8000_0008);
    // the request field and the response field alias the same payload word
    assert_eq!(back.response().clock_id, ClockId::Core.value());
}

#[test]
fn response_error_state_is_a_transport_failure() {
    let m = MailboxMessage::from_tag(ClockrateGet::new(ClockId::Core));
    let mut response = m.words();
    response[1] = 0x8000_0001;
    response[4] = 0x8000_0008;
    let r = complete_message_exchange::<ClockrateGet>(&response);
    assert_eq!(r.err(), Some(MailboxError::TransportFailure));
}

#[test]
fn unknown_state_word_is_a_transport_failure() {
    let m = MailboxMessage::from_tag(ClockrateGet::new(ClockId::Core));
    let mut response = m.words();
    response[1] = 0x1234_5678;
    let r = complete_message_exchange::<ClockrateGet>(&response);
    assert_eq!(r.err(), Some(MailboxError::TransportFailure));
}

#[test]
fn request_state_left_unanswered_is_a_transport_failure() {
    let m = MailboxMessage::from_tag(ClockrateGet::new(ClockId::Core));
    let response = m.words();
    let r = complete_message_exchange::<ClockrateGet>(&response);
    assert_eq!(r.err(), Some(MailboxError::TransportFailure));
}

#[test]
fn malformed_response_buffer_is_a_transport_failure() {
    let r = complete_message_exchange::<ClockrateGet>(&vec![32, 0x8000_0000, 0x3_0002]);
    assert_eq!(r.err(), Some(MailboxError::TransportFailure));
    let r = complete_batch_exchange(&vec![0x8000_0000]);
    assert_eq!(r.err(), Some(MailboxError::TransportFailure));
}

#[test]
fn mac_address_bytes_come_from_the_payload_words() {
    let m = MailboxMessage::from_tag(BoardMACAddressGet::new());
    let mut response = m.words();
    response[1] = 0x8000_0000;
    response[4] = 0x8000_0006;
    response[5] = 0x4433_2211;
    response[6] = 0x0000_6655;
    let back = complete_message_exchange::<BoardMACAddressGet>(&response).unwrap();
    assert_eq!(back.response().mac_address, [0x11, 0x22, 0x33, 0x44, 0x55, 0x66]);
}

#[test]
fn batch_exchange_rebuilds_every_tag() {
    let batch = MailboxBatch::empty()
        .with_tag(ClockrateGet::new(ClockId::Core))
        .unwrap()
        .with_tag(MaxClockrateGet::new(ClockId::Arm))
        .unwrap();
    let mut response = batch.words();
    response[1] = 0x8000_0000;
    // the co-processor fills the first tag's rate word and both states
    response[4] = 0x8000_0008;
    response[6] = 250_000_000;
    response[9] = 0x8000_0008;
    response[11] = 1_400_000_000;

    let back = complete_batch_exchange(&response).unwrap();
    assert_eq!(back.get_state(), MessageState::ResponseOk);
    let core = back.get_tag::<ClockrateGet>().unwrap();
    assert_eq!(core.state(), 0x8000_0008);
    assert_eq!(core.response().clock_id, ClockId::Core.value());
    assert_eq!(core.response().clock_rate, 250_000_000);
    let arm = back.get_tag::<MaxClockrateGet>().unwrap();
    assert_eq!(arm.response().clock_rate, 1_400_000_000);
}

#[test]
fn batch_response_error_is_a_transport_failure() {
    let batch = MailboxBatch::empty()
        .with_tag(ClockrateGet::new(ClockId::Core))
        .unwrap();
    let mut response = batch.words();
    response[1] = 0x8000_0001;
    let r = complete_batch_exchange(&response);
    assert_eq!(r.err(), Some(MailboxError::TransportFailure));
}

#[test]
fn reads_for_another_channel_are_skipped_not_taken() {
    let channel = MailboxChannel::PropertyTagsVc;
    // a word for the framebuffer channel interleaves before the answer
    let buffer_addr: u32 = 0x0012_3450;
    let foreign: u32 = 0x0777_7770 | MailboxChannel::FrameBuffer.value();
    let answer: u32 = buffer_addr | channel.value();

    assert_eq!(accept_read(foreign, channel), None);
    assert_eq!(accept_read(answer, channel), Some(buffer_addr));

    let reads = vec![foreign, answer];
    let (skipped_to, data) = receive_for_channel(&reads, channel).unwrap();
    assert_eq!(skipped_to, 1);
    assert_eq!(data, buffer_addr);

    // a second exchange on the same channel, again interleaved
    let reads2 = vec![foreign, foreign, answer];
    let (skipped_to2, data2) = receive_for_channel(&reads2, channel).unwrap();
    assert_eq!(skipped_to2, 2);
    assert_eq!(data2, buffer_addr);

    // nothing for this channel: the loop would keep waiting
    assert_eq!(receive_for_channel(&vec![foreign], channel), None);
}

#[test]
fn submit_word_tags_the_address_with_the_channel() {
    let addr: u32 = 0x1FF0_0AB0;
    let w = submit_word(addr, MailboxChannel::PropertyTagsVc);
    assert_eq!(w & 0xF, 8);
    assert_eq!(w & 0xFFFF_FFF0, addr);
}

#[test]
fn uncached_alias_is_cleared_by_the_reconstruction() {
    let addr: u32 = 0x0012_3450;
    let aliased = uncached_alias(addr);
    assert_eq!(aliased, 0xC012_3450);
    assert_eq!(cached_address(aliased), addr);
}

#[test]
fn fifo_status_bits_gate_the_busy_waits() {
    assert!(send_fifo_full(0x8000_0000));
    assert!(!send_fifo_full(0x4000_0000));
    assert!(receive_fifo_empty(0x4000_0000));
    assert!(!receive_fifo_empty(0x8000_0000));
}

#[test]
fn message_state_words_round_trip() {
    for st in [
        MessageState::Request,
        MessageState::ResponseOk,
        MessageState::ResponseError,
    ] {
        assert_eq!(MessageState::from_value(st.value()), Some(st));
    }
    assert_eq!(MessageState::from_value(0xDEAD_BEEF), None);
    assert_eq!(MessageState::Request.value(), 0);
    assert_eq!(MessageState::ResponseOk.value(), 0x8000_0000);
    assert_eq!(MessageState::ResponseError.value(), 0x8000_0001);
}
