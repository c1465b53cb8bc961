//! Mailbox property tag interface.
//!
//! A request/response protocol between the CPU and the VideoCore co-processor
//! of a Raspberry Pi, exchanged through a pair of hardware FIFO registers.
//! The crate covers the binary wire format of a property tag and of the
//! envelopes around one tag ([`MailboxMessage`]) or several distinct tags
//! ([`MailboxBatch`]), and the decision logic of the register-level handshake
//! that hands a buffer of 32-bit words to the co-processor and classifies what
//! comes back.
//!
//! [`MailboxMessage`]: mailboxmessage::MailboxMessage
//! [`MailboxBatch`]: mailboxbatch::MailboxBatch

use vstd::prelude::*;

pub mod mailboxbatch;
pub mod mailboxmessage;
pub mod propertytags;
pub mod transport;

verus! {

/// Clock identifiers understood by the co-processor.
#[derive(Copy, Clone, Debug, PartialEq, Eq, Structural)]
pub enum ClockId {
    Emmc,
    Uart,
    Arm,
    Core,
    V3D,
    H264,
    Isp,
    SdRam,
    Pixel,
    Pwm,
    Emmc2,
}

impl ClockId {
    /// The numeric identifier carried on the wire for this clock.
    pub open spec fn spec_value(self) -> u32 {
        match self {
            ClockId::Emmc => 0x1,
            ClockId::Uart => 0x2,
            ClockId::Arm => 0x3,
            ClockId::Core => 0x4,
            ClockId::V3D => 0x5,
            ClockId::H264 => 0x6,
            ClockId::Isp => 0x7,
            ClockId::SdRam => 0x8,
            ClockId::Pixel => 0x9,
            ClockId::Pwm => 0xa,
            ClockId::Emmc2 => 0xc,
        }
    }

    /// Numeric identifier carried on the wire for this clock.
    pub fn value(self) -> (r: u32)
        ensures
            r == self.spec_value(),
    {
        match self {
            ClockId::Emmc => 0x1,
            ClockId::Uart => 0x2,
            ClockId::Arm => 0x3,
            ClockId::Core => 0x4,
            ClockId::V3D => 0x5,
            ClockId::H264 => 0x6,
            ClockId::Isp => 0x7,
            ClockId::SdRam => 0x8,
            ClockId::Pixel => 0x9,
            ClockId::Pwm => 0xa,
            ClockId::Emmc2 => 0xc,
        }
    }
}

/// Unique device identifiers for power state requests.
#[derive(Copy, Clone, Debug, PartialEq, Eq, Structural)]
pub enum DeviceId {
    SdCard,
    Uart0,
    Uart1,
    UsbHcd,
    I2C0,
    I2C1,
    I2C2,
    Spi,
    Ccp2Tx,
}

impl DeviceId {
    /// The numeric identifier carried on the wire for this device.
    pub open spec fn spec_value(self) -> u32 {
        match self {
            DeviceId::SdCard => 0x0,
            DeviceId::Uart0 => 0x1,
            DeviceId::Uart1 => 0x2,
            DeviceId::UsbHcd => 0x3,
            DeviceId::I2C0 => 0x4,
            DeviceId::I2C1 => 0x5,
            DeviceId::I2C2 => 0x6,
            DeviceId::Spi => 0x7,
            DeviceId::Ccp2Tx => 0x8,
        }
    }

    /// Numeric identifier carried on the wire for this device.
    pub fn value(self) -> (r: u32)
        ensures
            r == self.spec_value(),
    {
        match self {
            DeviceId::SdCard => 0x0,
            DeviceId::Uart0 => 0x1,
            DeviceId::Uart1 => 0x2,
            DeviceId::UsbHcd => 0x3,
            DeviceId::I2C0 => 0x4,
            DeviceId::I2C1 => 0x5,
            DeviceId::I2C2 => 0x6,
            DeviceId::Spi => 0x7,
            DeviceId::Ccp2Tx => 0x8,
        }
    }
}

/// Voltage rail identifiers.
#[derive(Copy, Clone, Debug, PartialEq, Eq, Structural)]
pub enum VoltageId {
    Core,
    SdRamC,
    SdRamP,
    SdRamI,
}

impl VoltageId {
    /// The numeric identifier carried on the wire for this voltage rail.
    pub open spec fn spec_value(self) -> u32 {
        match self {
            VoltageId::Core => 0x1,
            VoltageId::SdRamC => 0x2,
            VoltageId::SdRamP => 0x3,
            VoltageId::SdRamI => 0x4,
        }
    }

    /// Numeric identifier carried on the wire for this voltage rail.
    pub fn value(self) -> (r: u32)
        ensures
            r == self.spec_value(),
    {
        match self {
            VoltageId::Core => 0x1,
            VoltageId::SdRamC => 0x2,
            VoltageId::SdRamP => 0x3,
            VoltageId::SdRamI => 0x4,
        }
    }
}

/// The logical FIFO channels of the mailbox. Property tag requests from the
/// CPU to the co-processor travel on [`MailboxChannel::PropertyTagsVc`].
#[derive(Copy, Clone, Debug, PartialEq, Eq, Structural)]
pub enum MailboxChannel {
    /// Power management channel.
    PowerMgmt,
    /// Framebuffer channel (not used by this crate's senders).
    FrameBuffer,
    /// Virtual UART channel.
    VirtualUart,
    /// Property tag channel, CPU to VideoCore.
    PropertyTagsVc,
    /// Property tag channel, VideoCore to CPU.
    PropertyTagsArm,
}

impl MailboxChannel {
    /// The channel number placed in the low 4 bits of a FIFO word.
    pub open spec fn spec_value(self) -> u32 {
        match self {
            MailboxChannel::PowerMgmt => 0x0,
            MailboxChannel::FrameBuffer => 0x1,
            MailboxChannel::VirtualUart => 0x2,
            MailboxChannel::PropertyTagsVc => 0x8,
            MailboxChannel::PropertyTagsArm => 0x9,
        }
    }

    /// Channel number placed in the low 4 bits of a FIFO word.
    pub fn value(self) -> (r: u32)
        ensures
            r == self.spec_value(),
    {
        match self {
            MailboxChannel::PowerMgmt => 0x0,
            MailboxChannel::FrameBuffer => 0x1,
            MailboxChannel::VirtualUart => 0x2,
            MailboxChannel::PropertyTagsVc => 0x8,
            MailboxChannel::PropertyTagsArm => 0x9,
        }
    }
}

/// The state word of an envelope: a request on the way out, a response
/// classification on the way back.
#[derive(Copy, Clone, Debug, PartialEq, Eq, Structural)]
pub enum MessageState {
    /// Every outgoing envelope carries this state.
    Request,
    /// The co-processor processed every tag successfully.
    ResponseOk,
    /// The co-processor reported a failure for at least one tag.
    ResponseError,
}

impl MessageState {
    /// The 32-bit word that stands for this state on the wire.
    pub open spec fn spec_value(self) -> u32 {
        match self {
            MessageState::Request => 0x0,
            MessageState::ResponseOk => 0x8000_0000,
            MessageState::ResponseError => 0x8000_0001,
        }
    }

    /// The 32-bit word that stands for this state on the wire.
    pub fn value(self) -> (r: u32)
        ensures
            r == self.spec_value(),
    {
        match self {
            MessageState::Request => 0x0,
            MessageState::ResponseOk => 0x8000_0000,
            MessageState::ResponseError => 0x8000_0001,
        }
    }

    /// The state a wire word stands for, if any.
    pub open spec fn spec_from_value(v: u32) -> Option<MessageState> {
        if v == 0x0 {
            Some(MessageState::Request)
        } else if v == 0x8000_0000 {
            Some(MessageState::ResponseOk)
        } else if v == 0x8000_0001 {
            Some(MessageState::ResponseError)
        } else {
            None
        }
    }

    /// Decode a wire word back into a state; an unknown word decodes to `None`.
    pub fn from_value(v: u32) -> (r: Option<MessageState>)
        ensures
            r == Self::spec_from_value(v),
    {
        if v == 0x0 {
            Some(MessageState::Request)
        } else if v == 0x8000_0000 {
            Some(MessageState::ResponseOk)
        } else if v == 0x8000_0001 {
            Some(MessageState::ResponseError)
        } else {
            None
        }
    }
}

/// The errors this crate reports.
#[derive(Copy, Clone, Debug, PartialEq, Eq, Structural)]
pub enum MailboxError {
    /// A tag of the same type is already present in the batch; detected at
    /// composition time, before any hardware access.
    DuplicateTag,
    /// The co-processor answered with something other than a well-formed
    /// successful response.
    TransportFailure,
}

/// Result alias used throughout this crate.
pub type MailboxResult<T> = Result<T, MailboxError>;

/// The mailbox peripheral handle.
///
/// The hardware register pair is a single exclusive-access resource: every
/// exchange requires a mutable borrow of the one handle, which keeps a second
/// request from being in flight at the same time.
pub struct Mailbox;

impl Mailbox {
    /// Create the peripheral handle.
    pub fn new() -> (r: Self) {
        Mailbox
    }
}

} // verus!
