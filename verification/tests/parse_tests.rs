use ruspiro_mailbox::mailboxbatch::MailboxBatch;
use ruspiro_mailbox::propertytags::{ClockrateGet, MaxClockrateGet, PropertyTag};
use ruspiro_mailbox::transport::complete_batch_exchange;
use ruspiro_mailbox::{ClockId, MailboxError};

fn ok_response_of(batch: MailboxBatch) -> Vec<u32> {
    let mut words = batch.words();
    words[1] = 0x8000_0000;
    words
}

fn two_tag_response() -> Vec<u32> {
    ok_response_of(
        MailboxBatch::empty()
            .with_tag(ClockrateGet::new(ClockId::Core))
            .unwrap()
            .with_tag(MaxClockrateGet::new(ClockId::Arm))
            .unwrap(),
    )
}

#[test]
fn well_formed_response_parses() {
    let response = two_tag_response();
    assert!(complete_batch_exchange(&response).is_ok());
}

#[test]
fn wrong_total_size_is_rejected() {
    let mut response = two_tag_response();
    response[0] += 4;
    let r = complete_batch_exchange(&response);
    assert_eq!(r.err(), Some(MailboxError::TransportFailure));
}

#[test]
fn missing_terminator_is_rejected() {
    let mut response = two_tag_response();
    let last = response.len() - 1;
    response[last] = 0xFFFF_FFFF;
    let r = complete_batch_exchange(&response);
    assert_eq!(r.err(), Some(MailboxError::TransportFailure));
}

#[test]
fn tag_size_not_a_multiple_of_four_is_rejected() {
    let mut response = two_tag_response();
    // corrupt the first tag's size word; the records no longer tile
    response[3] = 7;
    let r = complete_batch_exchange(&response);
    assert_eq!(r.err(), Some(MailboxError::TransportFailure));
}

#[test]
fn tag_size_overrunning_the_buffer_is_rejected() {
    let mut response = two_tag_response();
    response[3] = 4096;
    let r = complete_batch_exchange(&response);
    assert_eq!(r.err(), Some(MailboxError::TransportFailure));
}

#[test]
fn duplicate_identifiers_in_a_response_are_rejected() {
    let mut response = two_tag_response();
    // overwrite the second tag's identifier with the first one's
    response[7] = response[2];
    let r = complete_batch_exchange(&response);
    assert_eq!(r.err(), Some(MailboxError::TransportFailure));
}

#[test]
fn truncated_tag_state_is_data_not_a_failure() {
    let mut response = two_tag_response();
    // the co-processor reports a response larger than the payload area:
    // bit 31 set, low bits a size beyond the eight bytes provided
    response[4] = 0x8000_0020;
    let back = complete_batch_exchange(&response).unwrap();
    let tag = back.get_tag::<ClockrateGet>().unwrap();
    assert_eq!(tag.state(), 0x8000_0020);
}
