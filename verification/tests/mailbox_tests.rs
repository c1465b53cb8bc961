use ruspiro_mailbox::mailboxmessage::MailboxMessage;
use ruspiro_mailbox::propertytags::{ClockrateSet, FirmwareRevisionGet, PropertyTagId, TemperatureGet};
use ruspiro_mailbox::transport::complete_message_exchange;
use ruspiro_mailbox::{ClockId, DeviceId, Mailbox, MailboxChannel, MessageState, VoltageId};

#[test]
fn mailbox_is_a_plain_exclusive_handle() {
    let _mb = Mailbox::new();
}

#[test]
fn identifier_words_match_the_wire_protocol() {
    assert_eq!(ClockId::Core.value(), 0x4);
    assert_eq!(ClockId::Arm.value(), 0x3);
    assert_eq!(ClockId::Emmc2.value(), 0xc);
    assert_eq!(DeviceId::Uart0.value(), 0x1);
    assert_eq!(VoltageId::SdRamI.value(), 0x4);
    assert_eq!(MailboxChannel::PropertyTagsVc.value(), 0x8);
    assert_eq!(MailboxChannel::PropertyTagsArm.value(), 0x9);
    assert_eq!(PropertyTagId::FirmwareRevisionGet.value(), 0x0_0001);
    assert_eq!(PropertyTagId::VchiqInit.value(), 0x4_8010);
    assert_eq!(PropertyTagId::PaletteSet.value(), 0x4_800B);
}

#[test]
fn firmware_revision_comes_from_the_response_word() {
    let m = MailboxMessage::from_tag(FirmwareRevisionGet::new());
    let mut response = m.words();
    assert_eq!(response, vec![28, 0, 0x0_0001, 4, 0, 0, 0]);
    response[1] = 0x8000_0000;
    response[4] = 0x8000_0004;
    response[5] = 0x5F7D_81C0;
    let back = complete_message_exchange::<FirmwareRevisionGet>(&response).unwrap();
    assert_eq!(back.response().firmware_revision, 0x5F7D_81C0);
}

#[test]
fn clockrate_set_carries_rate_and_turbo_flag() {
    let m = MailboxMessage::from_tag(ClockrateSet::new(ClockId::Arm, 1_200_000_000, 1));
    let sent = m.words();
    assert_eq!(
        sent,
        vec![36, 0, 0x3_8002, 12, 0, ClockId::Arm.value(), 1_200_000_000, 1, 0]
    );
}

#[test]
fn temperature_request_names_sensor_zero() {
    let m = MailboxMessage::from_tag(TemperatureGet::new(0));
    let mut response = m.words();
    response[1] = MessageState::ResponseOk.value();
    response[4] = 0x8000_0008;
    response[6] = 48_000;
    let back = complete_message_exchange::<TemperatureGet>(&response).unwrap();
    assert_eq!(back.response().temperature_id, 0);
    assert_eq!(back.response().value, 48_000);
}
