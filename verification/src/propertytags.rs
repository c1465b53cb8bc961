//! Property tag definitions.
//!
//! A property tag is one request/response record understood by the
//! co-processor. On the wire a tag is a run of little-endian 32-bit words:
//! the tag identifier, the byte size of the payload area, the tag state, and
//! the payload itself. The payload is an overlay: before the exchange it
//! holds the request fields, afterwards the response fields, in the same
//! words. [`TagRec`] is the mathematical view of such a record, and
//! [`PropertyTag`] is the contract every concrete tag type fulfils.

use vstd::prelude::*;

use crate::ClockId;

verus! {

/// Identifiers of the property tag operations understood by the co-processor.
#[derive(Copy, Clone, Debug, PartialEq, Eq, Structural)]
pub enum PropertyTagId {
    /// Retrieve the firmware revision code.
    FirmwareRevisionGet,
    /// Retrieve the board model code.
    BoardModelGet,
    /// Retrieve the board revision code.
    BoardRevisionGet,
    /// Retrieve the serial number.
    BoardSerialGet,
    /// Retrieve ARM memory base address and size.
    ArmMemoryGet,
    /// Retrieve the MAC address.
    BoardMACAddressGet,
    /// Retrieve VideoCore memory base address and size.
    VcMemoryGet,
    /// Retrieve all usable DMA channels.
    DmaChannelsGet,
    /// Get the power state of a specific device.
    PowerStateGet,
    /// Set the power state of a specific device.
    PowerStateSet,
    /// Get the state of a specific clock.
    ClockStateGet,
    /// Set the state of a specific clock.
    ClockStateSet,
    /// Read the current clock rate of a given clock.
    ClockrateGet,
    /// Set the current clock rate of a given clock.
    ClockrateSet,
    /// Get the maximum possible rate for a given clock.
    MaxClockrateGet,
    /// Get the minimum possible rate for a given clock.
    MinClockrateGet,
    /// Get the current voltage of a given rail.
    VoltageGet,
    /// Set the current voltage of a given rail.
    VoltageSet,
    /// Get the maximum voltage of a given rail.
    MaxVoltageGet,
    /// Get the minimum voltage of a given rail.
    MinVoltageGet,
    /// Retrieve the current temperature in thousandths of a degree Celsius.
    TemperatureGet,
    /// Retrieve the maximum safe temperature in thousandths of a degree Celsius.
    MaxTemperatureGet,
    /// Allocate a frame buffer.
    FramebufferAllocate,
    /// Release and disable the frame buffer.
    FramebufferRelease,
    /// Clear the framebuffer.
    BlankScreen,
    /// Retrieve the physical display size of the frame buffer.
    PhysicalSizeGet,
    /// Set the physical display size of the frame buffer.
    PhysicalSizeSet,
    /// Retrieve the virtual display size.
    VirtualSizeGet,
    /// Set the virtual display size.
    VirtualSizeSet,
    /// Get the pixel bit depth.
    DepthGet,
    /// Set the pixel bit depth.
    DepthSet,
    /// Retrieve the pixel color ordering.
    PixelOrderGet,
    /// Set the pixel color ordering.
    PixelOrderSet,
    /// Retrieve the alpha mode setting.
    AlphaModeGet,
    /// Set the alpha mode.
    AlphaModeSet,
    /// Get the pitch for the physical display size.
    PitchGet,
    /// Retrieve the offset of the virtual buffer into the physical one.
    VirtualOffsetGet,
    /// Set the offset of the virtual buffer into the physical one.
    VirtualOffsetSet,
    /// Retrieve the overscan settings.
    OverscanGet,
    /// Set the overscan values.
    OverscanSet,
    /// Retrieve the palette color values.
    PaletteGet,
    /// Set the palette color values.
    PaletteSet,
    /// VideoCore host interface initialization.
    VchiqInit,
}

impl PropertyTagId {
    /// The identifier word placed on the wire for this operation.
    pub open spec fn spec_value(self) -> u32 {
        match self {
            PropertyTagId::FirmwareRevisionGet => 0x0_0001,
            PropertyTagId::BoardModelGet => 0x1_0001,
            PropertyTagId::BoardRevisionGet => 0x1_0002,
            PropertyTagId::BoardSerialGet => 0x1_0004,
            PropertyTagId::ArmMemoryGet => 0x1_0005,
            PropertyTagId::BoardMACAddressGet => 0x1_0003,
            PropertyTagId::VcMemoryGet => 0x1_0006,
            PropertyTagId::DmaChannelsGet => 0x6_0001,
            PropertyTagId::PowerStateGet => 0x2_0001,
            PropertyTagId::PowerStateSet => 0x2_8001,
            PropertyTagId::ClockStateGet => 0x3_0001,
            PropertyTagId::ClockStateSet => 0x3_8001,
            PropertyTagId::ClockrateGet => 0x3_0002,
            PropertyTagId::ClockrateSet => 0x3_8002,
            PropertyTagId::MaxClockrateGet => 0x3_0004,
            PropertyTagId::MinClockrateGet => 0x3_0007,
            PropertyTagId::VoltageGet => 0x3_0003,
            PropertyTagId::VoltageSet => 0x3_8003,
            PropertyTagId::MaxVoltageGet => 0x3_0005,
            PropertyTagId::MinVoltageGet => 0x3_0008,
            PropertyTagId::TemperatureGet => 0x3_0006,
            PropertyTagId::MaxTemperatureGet => 0x3_000A,
            PropertyTagId::FramebufferAllocate => 0x4_0001,
            PropertyTagId::FramebufferRelease => 0x4_8001,
            PropertyTagId::BlankScreen => 0x4_0002,
            PropertyTagId::PhysicalSizeGet => 0x4_0003,
            PropertyTagId::PhysicalSizeSet => 0x4_8003,
            PropertyTagId::VirtualSizeGet => 0x4_0004,
            PropertyTagId::VirtualSizeSet => 0x4_8004,
            PropertyTagId::DepthGet => 0x4_0005,
            PropertyTagId::DepthSet => 0x4_8005,
            PropertyTagId::PixelOrderGet => 0x4_0006,
            PropertyTagId::PixelOrderSet => 0x4_8006,
            PropertyTagId::AlphaModeGet => 0x4_0007,
            PropertyTagId::AlphaModeSet => 0x4_8007,
            PropertyTagId::PitchGet => 0x4_0008,
            PropertyTagId::VirtualOffsetGet => 0x4_0009,
            PropertyTagId::VirtualOffsetSet => 0x4_8009,
            PropertyTagId::OverscanGet => 0x4_000A,
            PropertyTagId::OverscanSet => 0x4_800A,
            PropertyTagId::PaletteGet => 0x4_000B,
            PropertyTagId::PaletteSet => 0x4_800B,
            PropertyTagId::VchiqInit => 0x4_8010,
        }
    }

    /// Identifier word placed on the wire for this operation.
    pub fn value(self) -> (r: u32)
        ensures
            r == self.spec_value(),
    {
        match self {
            PropertyTagId::FirmwareRevisionGet => 0x0_0001,
            PropertyTagId::BoardModelGet => 0x1_0001,
            PropertyTagId::BoardRevisionGet => 0x1_0002,
            PropertyTagId::BoardSerialGet => 0x1_0004,
            PropertyTagId::ArmMemoryGet => 0x1_0005,
            PropertyTagId::BoardMACAddressGet => 0x1_0003,
            PropertyTagId::VcMemoryGet => 0x1_0006,
            PropertyTagId::DmaChannelsGet => 0x6_0001,
            PropertyTagId::PowerStateGet => 0x2_0001,
            PropertyTagId::PowerStateSet => 0x2_8001,
            PropertyTagId::ClockStateGet => 0x3_0001,
            PropertyTagId::ClockStateSet => 0x3_8001,
            PropertyTagId::ClockrateGet => 0x3_0002,
            PropertyTagId::ClockrateSet => 0x3_8002,
            PropertyTagId::MaxClockrateGet => 0x3_0004,
            PropertyTagId::MinClockrateGet => 0x3_0007,
            PropertyTagId::VoltageGet => 0x3_0003,
            PropertyTagId::VoltageSet => 0x3_8003,
            PropertyTagId::MaxVoltageGet => 0x3_0005,
            PropertyTagId::MinVoltageGet => 0x3_0008,
            PropertyTagId::TemperatureGet => 0x3_0006,
            PropertyTagId::MaxTemperatureGet => 0x3_000A,
            PropertyTagId::FramebufferAllocate => 0x4_0001,
            PropertyTagId::FramebufferRelease => 0x4_8001,
            PropertyTagId::BlankScreen => 0x4_0002,
            PropertyTagId::PhysicalSizeGet => 0x4_0003,
            PropertyTagId::PhysicalSizeSet => 0x4_8003,
            PropertyTagId::VirtualSizeGet => 0x4_0004,
            PropertyTagId::VirtualSizeSet => 0x4_8004,
            PropertyTagId::DepthGet => 0x4_0005,
            PropertyTagId::DepthSet => 0x4_8005,
            PropertyTagId::PixelOrderGet => 0x4_0006,
            PropertyTagId::PixelOrderSet => 0x4_8006,
            PropertyTagId::AlphaModeGet => 0x4_0007,
            PropertyTagId::AlphaModeSet => 0x4_8007,
            PropertyTagId::PitchGet => 0x4_0008,
            PropertyTagId::VirtualOffsetGet => 0x4_0009,
            PropertyTagId::VirtualOffsetSet => 0x4_8009,
            PropertyTagId::OverscanGet => 0x4_000A,
            PropertyTagId::OverscanSet => 0x4_800A,
            PropertyTagId::PaletteGet => 0x4_000B,
            PropertyTagId::PaletteSet => 0x4_800B,
            PropertyTagId::VchiqInit => 0x4_8010,
        }
    }
}

/// The mathematical view of one property tag record: its identifier word,
/// its state word, and the payload words of the request/response overlay.
/// The byte size that stands between identifier and state on the wire is
/// determined by the payload: four bytes per word.
pub ghost struct TagRec {
    /// The tag identifier word.
    pub id: u32,
    /// The tag state word: zero on a request; on a response, bit 31 set and
    /// the low bits carrying the response size the co-processor reports.
    pub state: u32,
    /// The payload words of the request/response overlay.
    pub payload: Seq<u32>,
}

/// A record is well formed when its payload byte size fits the 32-bit size
/// word of the wire format.
pub open spec fn rec_wf(r: TagRec) -> bool {
    4 * r.payload.len() <= 0xFFFF_FFFF
}

/// The byte size of the record's payload area.
pub open spec fn rec_payload_bytes(r: TagRec) -> int {
    4 * r.payload.len() as int
}

/// The byte size of the whole encoded record: the three header words and the
/// payload.
pub open spec fn rec_bytes(r: TagRec) -> int {
    12 + 4 * r.payload.len() as int
}

/// The wire image of one record: identifier, payload byte size, state, then
/// the payload words.
pub open spec fn rec_words(r: TagRec) -> Seq<u32> {
    seq![r.id, (4 * r.payload.len()) as u32, r.state] + r.payload
}

/// Every encoded property tag occupies a whole number of 32-bit words, so
/// its byte size is a multiple of four.
pub proof fn lemma_rec_bytes_multiple_of_four(r: TagRec)
    ensures
        rec_bytes(r) % 4 == 0,
        rec_bytes(r) == 4 * rec_words(r).len(),
{
}

/// Every well-formed value of any tag type encodes to a byte size that is a
/// multiple of four: the three header words plus four bytes per payload
/// word, the padding of an unevenly sized field set already counted in the
/// payload width.
pub proof fn lemma_tag_size_multiple_of_four<T: PropertyTag>(t: &T)
    requires
        t.wf(),
    ensures
        rec_bytes(t.rec()) % 4 == 0,
        rec_bytes(t.rec()) == 12 + 4 * T::spec_payload_words(),
{
    t.lemma_wf();
}

/// The contract of a concrete property tag type: a fixed identifier, a fixed
/// payload width, and an encoding into wire words that [`decode`] inverts.
///
/// [`decode`]: PropertyTag::decode
pub trait PropertyTag: Sized {
    /// The response view of this tag's payload overlay.
    type Response;

    /// The fixed identifier of this tag type.
    spec fn spec_tagid() -> PropertyTagId;

    /// The fixed number of payload words of this tag type's overlay.
    spec fn spec_payload_words() -> nat;

    /// Well-formedness of one value of this tag type.
    spec fn wf(&self) -> bool;

    /// The record this value stands for.
    spec fn rec(&self) -> TagRec;

    /// The response view carried by a record of this tag type.
    spec fn spec_response(r: TagRec) -> Self::Response;

    /// A well-formed tag value carries its type's identifier and payload
    /// width, and that width fits the wire's size word.
    proof fn lemma_wf(&self)
        requires
            self.wf(),
        ensures
            self.rec().id == Self::spec_tagid().spec_value(),
            self.rec().payload.len() == Self::spec_payload_words(),
            4 * Self::spec_payload_words() <= 0xFFFF_FFFF,
    ;

    /// The identifier of this tag.
    fn tagid(&self) -> (r: PropertyTagId)
        ensures
            r == Self::spec_tagid(),
    ;

    /// The identifier word of this tag type, without a value at hand.
    fn tagid_value() -> (r: u32)
        ensures
            r == Self::spec_tagid().spec_value(),
    ;

    /// The payload width of this tag type in words, without a value at hand.
    fn payload_words() -> (n: usize)
        ensures
            n == Self::spec_payload_words(),
            4 * n <= 0xFFFF_FFFF,
    ;

    /// The state word of this tag: zero on a request; on a response, bit 31
    /// set and the low bits carrying the response size the co-processor
    /// reports, which may exceed the payload area and then signals
    /// truncation.
    fn state(&self) -> (r: u32)
        requires
            self.wf(),
        ensures
            r == self.rec().state,
    ;

    /// The byte size of this tag's payload area.
    fn size(&self) -> (r: u32)
        requires
            self.wf(),
        ensures
            r == 4 * Self::spec_payload_words(),
    ;

    /// The response view of this tag. Meaningful only after an exchange has
    /// filled the overlay; the contract of the protocol is: write the request
    /// fields, exchange, then read the response fields.
    fn response(&self) -> (r: Self::Response)
        requires
            self.wf(),
        ensures
            r == Self::spec_response(self.rec()),
    ;

    /// Encode this tag into its wire words.
    fn encode(&self) -> (r: Vec<u32>)
        requires
            self.wf(),
        ensures
            r@ == rec_words(self.rec()),
    ;

    /// Rebuild a tag of this type from the state word and payload words read
    /// back after an exchange.
    fn decode(state: u32, payload: Vec<u32>) -> (r: Self)
        requires
            payload@.len() == Self::spec_payload_words(),
        ensures
            r.wf(),
            r.rec() == (TagRec {
                id: Self::spec_tagid().spec_value(),
                state,
                payload: payload@,
            }),
    ;
}

/// Build the wire words of a record from its parts: identifier, payload byte
/// size, state, then the payload.
pub(crate) fn encode_record(id: u32, state: u32, payload: &Vec<u32>) -> (r: Vec<u32>)
    requires
        4 * payload@.len() <= 0xFFFF_FFFF,
    ensures
        r@ == rec_words(TagRec { id, state, payload: payload@ }),
{
    let mut r: Vec<u32> = Vec::new();
    r.push(id);
    r.push((4 * payload.len()) as u32);
    r.push(state);
    let mut i: usize = 0;
    while i < payload.len()
        invariant
            i <= payload@.len(),
            4 * payload@.len() <= 0xFFFF_FFFF,
            r@ == seq![id, (4 * payload@.len()) as u32, state] + payload@.subrange(0, i as int),
        decreases payload@.len() - i,
    {
        r.push(payload[i]);
        i = i + 1;
        proof {
            assert(payload@.subrange(0, i as int)
                == payload@.subrange(0, i - 1) + seq![payload@[i - 1]]);
        }
    }
    proof {
        assert(payload@.subrange(0, payload@.len() as int) == payload@);
    }
    r
}

/// The byte at position `k` of a little-endian 32-bit word.
pub open spec fn spec_word_byte(w: u32, k: u32) -> u8 {
    ((w >> ((8 * k) as u32)) & 0xFF) as u8
}

/// Extract the byte at position `k` of a little-endian 32-bit word.
pub fn word_byte(w: u32, k: u32) -> (r: u8)
    requires
        k < 4,
    ensures
        r == spec_word_byte(w, k),
{
    ((w >> (8 * k)) & 0xFF) as u8
}

/// Read the current clock rate of a clock in Hz. A rate of zero in the
/// response means the clock does not exist; the rate is reported even while
/// the clock is inactive.
pub struct ClockrateGet {
    state: u32,
    payload: Vec<u32>,
}

/// The response view of [`ClockrateGet`]: the clock asked about and its rate.
#[derive(Copy, Clone, Debug, PartialEq, Eq, Structural)]
pub struct ClockrateGetResponse {
    /// The identifier word of the clock.
    pub clock_id: u32,
    /// The clock rate in Hz.
    pub clock_rate: u32,
}

impl ClockrateGet {
    /// Create the request for the rate of the given clock.
    pub fn new(clock_id: ClockId) -> (r: Self)
        ensures
            r.wf(),
            r.rec() == (TagRec {
                id: PropertyTagId::ClockrateGet.spec_value(),
                state: 0,
                payload: seq![clock_id.spec_value(), 0u32],
            }),
    {
        let mut payload: Vec<u32> = Vec::new();
        payload.push(clock_id.value());
        payload.push(0);
        proof {
            assert(payload@ =~= seq![clock_id.spec_value(), 0u32]);
        }
        ClockrateGet { state: 0, payload }
    }
}

impl PropertyTag for ClockrateGet {
    type Response = ClockrateGetResponse;

    open spec fn spec_tagid() -> PropertyTagId {
        PropertyTagId::ClockrateGet
    }

    open spec fn spec_payload_words() -> nat {
        2
    }

    closed spec fn wf(&self) -> bool {
        self.payload@.len() == 2
    }

    closed spec fn rec(&self) -> TagRec {
        TagRec { id: PropertyTagId::ClockrateGet.spec_value(), state: self.state, payload: self.payload@ }
    }

    open spec fn spec_response(r: TagRec) -> ClockrateGetResponse {
        ClockrateGetResponse { clock_id: r.payload[0], clock_rate: r.payload[1] }
    }

    proof fn lemma_wf(&self) {
    }

    fn tagid(&self) -> (r: PropertyTagId) {
        PropertyTagId::ClockrateGet
    }

    fn tagid_value() -> (r: u32) {
        PropertyTagId::ClockrateGet.value()
    }

    fn payload_words() -> (n: usize) {
        2
    }

    fn state(&self) -> (r: u32) {
        self.state
    }

    fn size(&self) -> (r: u32) {
        8
    }

    fn response(&self) -> (r: ClockrateGetResponse) {
        ClockrateGetResponse { clock_id: self.payload[0], clock_rate: self.payload[1] }
    }

    fn encode(&self) -> (r: Vec<u32>) {
        encode_record(PropertyTagId::ClockrateGet.value(), self.state, &self.payload)
    }

    fn decode(state: u32, payload: Vec<u32>) -> (r: Self) {
        ClockrateGet { state, payload }
    }
}

/// Retrieve the maximum available rate of a clock in Hz.
pub struct MaxClockrateGet {
    state: u32,
    payload: Vec<u32>,
}

/// The response view of [`MaxClockrateGet`]: the clock asked about and its
/// maximum rate.
#[derive(Copy, Clone, Debug, PartialEq, Eq, Structural)]
pub struct MaxClockrateGetResponse {
    /// The identifier word of the clock.
    pub clock_id: u32,
    /// The maximum clock rate in Hz.
    pub clock_rate: u32,
}

impl MaxClockrateGet {
    /// Create the request for the maximum rate of the given clock.
    pub fn new(clock_id: ClockId) -> (r: Self)
        ensures
            r.wf(),
            r.rec() == (TagRec {
                id: PropertyTagId::MaxClockrateGet.spec_value(),
                state: 0,
                payload: seq![clock_id.spec_value(), 0u32],
            }),
    {
        let mut payload: Vec<u32> = Vec::new();
        payload.push(clock_id.value());
        payload.push(0);
        proof {
            assert(payload@ =~= seq![clock_id.spec_value(), 0u32]);
        }
        MaxClockrateGet { state: 0, payload }
    }
}

impl PropertyTag for MaxClockrateGet {
    type Response = MaxClockrateGetResponse;

    open spec fn spec_tagid() -> PropertyTagId {
        PropertyTagId::MaxClockrateGet
    }

    open spec fn spec_payload_words() -> nat {
        2
    }

    closed spec fn wf(&self) -> bool {
        self.payload@.len() == 2
    }

    closed spec fn rec(&self) -> TagRec {
        TagRec {
            id: PropertyTagId::MaxClockrateGet.spec_value(),
            state: self.state,
            payload: self.payload@,
        }
    }

    open spec fn spec_response(r: TagRec) -> MaxClockrateGetResponse {
        MaxClockrateGetResponse { clock_id: r.payload[0], clock_rate: r.payload[1] }
    }

    proof fn lemma_wf(&self) {
    }

    fn tagid(&self) -> (r: PropertyTagId) {
        PropertyTagId::MaxClockrateGet
    }

    fn tagid_value() -> (r: u32) {
        PropertyTagId::MaxClockrateGet.value()
    }

    fn payload_words() -> (n: usize) {
        2
    }

    fn state(&self) -> (r: u32) {
        self.state
    }

    fn size(&self) -> (r: u32) {
        8
    }

    fn response(&self) -> (r: MaxClockrateGetResponse) {
        MaxClockrateGetResponse { clock_id: self.payload[0], clock_rate: self.payload[1] }
    }

    fn encode(&self) -> (r: Vec<u32>) {
        encode_record(PropertyTagId::MaxClockrateGet.value(), self.state, &self.payload)
    }

    fn decode(state: u32, payload: Vec<u32>) -> (r: Self) {
        MaxClockrateGet { state, payload }
    }
}

/// Set the rate of a clock in Hz; the co-processor answers with the closest
/// supported rate it actually set. Setting the ARM clock may activate turbo
/// settings for other devices unless `skip_turbo` is passed as one.
pub struct ClockrateSet {
    state: u32,
    payload: Vec<u32>,
}

/// The response view of [`ClockrateSet`]: the clock addressed and the rate
/// that was set.
#[derive(Copy, Clone, Debug, PartialEq, Eq, Structural)]
pub struct ClockrateSetResponse {
    /// The identifier word of the clock.
    pub clock_id: u32,
    /// The clock rate in Hz that the co-processor set.
    pub clock_rate: u32,
}

impl ClockrateSet {
    /// Create the request that sets the given clock to the given rate.
    pub fn new(clock_id: ClockId, clock_rate: u32, skip_turbo: u32) -> (r: Self)
        ensures
            r.wf(),
            r.rec() == (TagRec {
                id: PropertyTagId::ClockrateSet.spec_value(),
                state: 0,
                payload: seq![clock_id.spec_value(), clock_rate, skip_turbo],
            }),
    {
        let mut payload: Vec<u32> = Vec::new();
        payload.push(clock_id.value());
        payload.push(clock_rate);
        payload.push(skip_turbo);
        proof {
            assert(payload@ =~= seq![clock_id.spec_value(), clock_rate, skip_turbo]);
        }
        ClockrateSet { state: 0, payload }
    }
}

impl PropertyTag for ClockrateSet {
    type Response = ClockrateSetResponse;

    open spec fn spec_tagid() -> PropertyTagId {
        PropertyTagId::ClockrateSet
    }

    open spec fn spec_payload_words() -> nat {
        3
    }

    closed spec fn wf(&self) -> bool {
        self.payload@.len() == 3
    }

    closed spec fn rec(&self) -> TagRec {
        TagRec {
            id: PropertyTagId::ClockrateSet.spec_value(),
            state: self.state,
            payload: self.payload@,
        }
    }

    open spec fn spec_response(r: TagRec) -> ClockrateSetResponse {
        ClockrateSetResponse { clock_id: r.payload[0], clock_rate: r.payload[1] }
    }

    proof fn lemma_wf(&self) {
    }

    fn tagid(&self) -> (r: PropertyTagId) {
        PropertyTagId::ClockrateSet
    }

    fn tagid_value() -> (r: u32) {
        PropertyTagId::ClockrateSet.value()
    }

    fn payload_words() -> (n: usize) {
        3
    }

    fn state(&self) -> (r: u32) {
        self.state
    }

    fn size(&self) -> (r: u32) {
        12
    }

    fn response(&self) -> (r: ClockrateSetResponse) {
        ClockrateSetResponse { clock_id: self.payload[0], clock_rate: self.payload[1] }
    }

    fn encode(&self) -> (r: Vec<u32>) {
        encode_record(PropertyTagId::ClockrateSet.value(), self.state, &self.payload)
    }

    fn decode(state: u32, payload: Vec<u32>) -> (r: Self) {
        ClockrateSet { state, payload }
    }
}

/// Retrieve the firmware revision of the co-processor.
pub struct FirmwareRevisionGet {
    state: u32,
    payload: Vec<u32>,
}

/// The response view of [`FirmwareRevisionGet`].
#[derive(Copy, Clone, Debug, PartialEq, Eq, Structural)]
pub struct FirmwareRevisionGetResponse {
    /// The firmware revision code.
    pub firmware_revision: u32,
}

impl FirmwareRevisionGet {
    /// Create the request for the firmware revision.
    pub fn new() -> (r: Self)
        ensures
            r.wf(),
            r.rec() == (TagRec {
                id: PropertyTagId::FirmwareRevisionGet.spec_value(),
                state: 0,
                payload: seq![0u32],
            }),
    {
        let mut payload: Vec<u32> = Vec::new();
        payload.push(0);
        proof {
            assert(payload@ =~= seq![0u32]);
        }
        FirmwareRevisionGet { state: 0, payload }
    }
}

impl PropertyTag for FirmwareRevisionGet {
    type Response = FirmwareRevisionGetResponse;

    open spec fn spec_tagid() -> PropertyTagId {
        PropertyTagId::FirmwareRevisionGet
    }

    open spec fn spec_payload_words() -> nat {
        1
    }

    closed spec fn wf(&self) -> bool {
        self.payload@.len() == 1
    }

    closed spec fn rec(&self) -> TagRec {
        TagRec {
            id: PropertyTagId::FirmwareRevisionGet.spec_value(),
            state: self.state,
            payload: self.payload@,
        }
    }

    open spec fn spec_response(r: TagRec) -> FirmwareRevisionGetResponse {
        FirmwareRevisionGetResponse { firmware_revision: r.payload[0] }
    }

    proof fn lemma_wf(&self) {
    }

    fn tagid(&self) -> (r: PropertyTagId) {
        PropertyTagId::FirmwareRevisionGet
    }

    fn tagid_value() -> (r: u32) {
        PropertyTagId::FirmwareRevisionGet.value()
    }

    fn payload_words() -> (n: usize) {
        1
    }

    fn state(&self) -> (r: u32) {
        self.state
    }

    fn size(&self) -> (r: u32) {
        4
    }

    fn response(&self) -> (r: FirmwareRevisionGetResponse) {
        FirmwareRevisionGetResponse { firmware_revision: self.payload[0] }
    }

    fn encode(&self) -> (r: Vec<u32>) {
        encode_record(PropertyTagId::FirmwareRevisionGet.value(), self.state, &self.payload)
    }

    fn decode(state: u32, payload: Vec<u32>) -> (r: Self) {
        FirmwareRevisionGet { state, payload }
    }
}

/// Retrieve the MAC address of the board, in network byte order. The six
/// address bytes take two payload words; the last two bytes of the second
/// word are padding so the payload stays a multiple of four bytes.
pub struct BoardMACAddressGet {
    state: u32,
    payload: Vec<u32>,
}

/// The response view of [`BoardMACAddressGet`]: the six address bytes.
#[derive(Copy, Clone, Debug, PartialEq, Eq)]
pub struct BoardMACAddressGetResponse {
    /// The MAC address in network byte order.
    pub mac_address: [u8; 6],
}

impl BoardMACAddressGet {
    /// Create the request for the board's MAC address.
    pub fn new() -> (r: Self)
        ensures
            r.wf(),
            r.rec() == (TagRec {
                id: PropertyTagId::BoardMACAddressGet.spec_value(),
                state: 0,
                payload: seq![0u32, 0u32],
            }),
    {
        let mut payload: Vec<u32> = Vec::new();
        payload.push(0);
        payload.push(0);
        proof {
            assert(payload@ =~= seq![0u32, 0u32]);
        }
        BoardMACAddressGet { state: 0, payload }
    }
}

impl PropertyTag for BoardMACAddressGet {
    type Response = BoardMACAddressGetResponse;

    open spec fn spec_tagid() -> PropertyTagId {
        PropertyTagId::BoardMACAddressGet
    }

    open spec fn spec_payload_words() -> nat {
        2
    }

    closed spec fn wf(&self) -> bool {
        self.payload@.len() == 2
    }

    closed spec fn rec(&self) -> TagRec {
        TagRec {
            id: PropertyTagId::BoardMACAddressGet.spec_value(),
            state: self.state,
            payload: self.payload@,
        }
    }

    open spec fn spec_response(r: TagRec) -> BoardMACAddressGetResponse {
        BoardMACAddressGetResponse {
            mac_address: [
                spec_word_byte(r.payload[0], 0),
                spec_word_byte(r.payload[0], 1),
                spec_word_byte(r.payload[0], 2),
                spec_word_byte(r.payload[0], 3),
                spec_word_byte(r.payload[1], 0),
                spec_word_byte(r.payload[1], 1),
            ],
        }
    }

    proof fn lemma_wf(&self) {
    }

    fn tagid(&self) -> (r: PropertyTagId) {
        PropertyTagId::BoardMACAddressGet
    }

    fn tagid_value() -> (r: u32) {
        PropertyTagId::BoardMACAddressGet.value()
    }

    fn payload_words() -> (n: usize) {
        2
    }

    fn state(&self) -> (r: u32) {
        self.state
    }

    fn size(&self) -> (r: u32) {
        8
    }

    fn response(&self) -> (r: BoardMACAddressGetResponse) {
        BoardMACAddressGetResponse {
            mac_address: [
                word_byte(self.payload[0], 0),
                word_byte(self.payload[0], 1),
                word_byte(self.payload[0], 2),
                word_byte(self.payload[0], 3),
                word_byte(self.payload[1], 0),
                word_byte(self.payload[1], 1),
            ],
        }
    }

    fn encode(&self) -> (r: Vec<u32>) {
        encode_record(PropertyTagId::BoardMACAddressGet.value(), self.state, &self.payload)
    }

    fn decode(state: u32, payload: Vec<u32>) -> (r: Self) {
        BoardMACAddressGet { state, payload }
    }
}

/// Retrieve the current temperature of the chip in thousandths of a degree
/// Celsius. The temperature identifier should always be passed as zero.
pub struct TemperatureGet {
    state: u32,
    payload: Vec<u32>,
}

/// The response view of [`TemperatureGet`]: the identifier echoed back and
/// the temperature value.
#[derive(Copy, Clone, Debug, PartialEq, Eq, Structural)]
pub struct TemperatureGetResponse {
    /// The temperature identifier the request named.
    pub temperature_id: u32,
    /// The temperature in thousandths of a degree Celsius.
    pub value: u32,
}

impl TemperatureGet {
    /// Create the request for the temperature with the given identifier.
    pub fn new(temperature_id: u32) -> (r: Self)
        ensures
            r.wf(),
            r.rec() == (TagRec {
                id: PropertyTagId::TemperatureGet.spec_value(),
                state: 0,
                payload: seq![temperature_id, 0u32],
            }),
    {
        let mut payload: Vec<u32> = Vec::new();
        payload.push(temperature_id);
        payload.push(0);
        proof {
            assert(payload@ =~= seq![temperature_id, 0u32]);
        }
        TemperatureGet { state: 0, payload }
    }
}

impl PropertyTag for TemperatureGet {
    type Response = TemperatureGetResponse;

    open spec fn spec_tagid() -> PropertyTagId {
        PropertyTagId::TemperatureGet
    }

    open spec fn spec_payload_words() -> nat {
        2
    }

    closed spec fn wf(&self) -> bool {
        self.payload@.len() == 2
    }

    closed spec fn rec(&self) -> TagRec {
        TagRec {
            id: PropertyTagId::TemperatureGet.spec_value(),
            state: self.state,
            payload: self.payload@,
        }
    }

    open spec fn spec_response(r: TagRec) -> TemperatureGetResponse {
        TemperatureGetResponse { temperature_id: r.payload[0], value: r.payload[1] }
    }

    proof fn lemma_wf(&self) {
    }

    fn tagid(&self) -> (r: PropertyTagId) {
        PropertyTagId::TemperatureGet
    }

    fn tagid_value() -> (r: u32) {
        PropertyTagId::TemperatureGet.value()
    }

    fn payload_words() -> (n: usize) {
        2
    }

    fn state(&self) -> (r: u32) {
        self.state
    }

    fn size(&self) -> (r: u32) {
        8
    }

    fn response(&self) -> (r: TemperatureGetResponse) {
        TemperatureGetResponse { temperature_id: self.payload[0], value: self.payload[1] }
    }

    fn encode(&self) -> (r: Vec<u32>) {
        encode_record(PropertyTagId::TemperatureGet.value(), self.state, &self.payload)
    }

    fn decode(state: u32, payload: Vec<u32>) -> (r: Self) {
        TemperatureGet { state, payload }
    }
}

} // verus!
