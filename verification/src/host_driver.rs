use vstd::prelude::*;

use vstd::bytes::{spec_u16_from_le_bytes, spec_u16_to_le_bytes, u16_to_le_bytes};

use crate::codec::push_bytes;
use crate::constants::{
    LEN_ENCRYPTED_FRAME, LEN_ENCRYPTED_SUBSCRIPTION, MAX_MESSAGE_SIZE,
};
use crate::types::{EncryptedFrame, EncryptedSubscription, MessageToDecoder};

verus! {

/// The type of message being sent or received over the host transport
/// interface.
#[derive(Eq, PartialEq, Clone, Copy, Structural, Debug)]
pub enum MessageType {
    Invalid,
    Decode,
    Subscribe,
    List,
    Ack,
    Error,
    Debug,
}

/// The transport-level errors of the host link.
#[derive(Debug)]
pub enum UartError {
    ReadError,
    InvalidOpcode,
    InvalidLength,
}

/// The per-byte state of the reader while it consumes a payload: how many
/// bytes of the current block have been read.
#[derive(Eq, PartialEq, Clone, Copy, Structural, Debug)]
pub enum UartState {
    Idle,
    NumBytesRead(usize),
}

/// The header of a host-link message.
#[derive(Eq, PartialEq, Clone, Copy, Structural, Debug)]
pub struct MessageHeader {
    pub opcode: MessageType,
    pub length: u16,
}

impl MessageHeader {
    pub fn new() -> (r: Self)
        ensures
            r == (MessageHeader { opcode: MessageType::Invalid, length: 0u16 }),
    {
        Self { opcode: MessageType::Invalid, length: 0 }
    }

    /// Returns true if the message should be acknowledged.
    /// Should not ACK messages with opcode Ack or Debug.
    pub fn should_ack(&self) -> (r: bool)
        ensures
            r <==> !(self.opcode is Ack || self.opcode is Debug),
    {
        match self.opcode {
            MessageType::Ack | MessageType::Debug => false,
            _ => true,
        }
    }
}

// ---------------------------------------------------------------------------
// Opcode bytes
// ---------------------------------------------------------------------------

/// The wire byte of an opcode; anything without one is sent as an error.
pub open spec fn spec_opcode_byte(t: MessageType) -> u8 {
    match t {
        MessageType::Decode => 68u8,  // 'D'
        MessageType::Subscribe => 83u8,  // 'S'
        MessageType::List => 76u8,  // 'L'
        MessageType::Ack => 65u8,  // 'A'
        MessageType::Error => 69u8,  // 'E'
        MessageType::Debug => 71u8,  // 'G'
        MessageType::Invalid => 69u8,  // 'E'
    }
}

/// The opcode a wire byte names, if any.
pub open spec fn spec_parse_opcode(b: u8) -> Option<MessageType> {
    if b == 68u8 {
        Some(MessageType::Decode)
    } else if b == 83u8 {
        Some(MessageType::Subscribe)
    } else if b == 76u8 {
        Some(MessageType::List)
    } else if b == 65u8 {
        Some(MessageType::Ack)
    } else if b == 69u8 {
        Some(MessageType::Error)
    } else if b == 71u8 {
        Some(MessageType::Debug)
    } else {
        None
    }
}

pub fn opcode_byte(t: MessageType) -> (r: u8)
    ensures
        r == spec_opcode_byte(t),
{
    match t {
        MessageType::Decode => 68,
        MessageType::Subscribe => 83,
        MessageType::List => 76,
        MessageType::Ack => 65,
        MessageType::Error => 69,
        MessageType::Debug => 71,
        MessageType::Invalid => 69,
    }
}

pub fn parse_opcode(b: u8) -> (r: Option<MessageType>)
    ensures
        r == spec_parse_opcode(b),
{
    if b == 68 {
        Some(MessageType::Decode)
    } else if b == 83 {
        Some(MessageType::Subscribe)
    } else if b == 76 {
        Some(MessageType::List)
    } else if b == 65 {
        Some(MessageType::Ack)
    } else if b == 69 {
        Some(MessageType::Error)
    } else if b == 71 {
        Some(MessageType::Debug)
    } else {
        None
    }
}

// ---------------------------------------------------------------------------
// Messages
// ---------------------------------------------------------------------------

/// A host-link message: a header and a fixed-size payload buffer of which
/// the first `header.length` bytes are meaningful.
pub struct Message {
    pub header: MessageHeader,
    pub data: Vec<u8>,
}

impl Message {
    pub open spec fn wf(&self) -> bool {
        &&& self.data@.len() == MAX_MESSAGE_SIZE
        &&& self.header.length <= MAX_MESSAGE_SIZE
    }

    /// The meaningful prefix of the payload buffer.
    pub open spec fn payload(&self) -> Seq<u8> {
        self.data@.subrange(0, self.header.length as int)
    }

    pub fn new() -> (r: Self)
        ensures
            r.wf(),
            r.header == (MessageHeader { opcode: MessageType::Invalid, length: 0u16 }),
            forall|i: int| 0 <= i < MAX_MESSAGE_SIZE ==> r.data@[i] == 0u8,
    {
        Self {
            header: MessageHeader { opcode: MessageType::Invalid, length: 0 },
            data: vec![0u8; MAX_MESSAGE_SIZE],
        }
    }

    pub fn error() -> (r: Self)
        ensures
            r.wf(),
            r.header == (MessageHeader { opcode: MessageType::Error, length: 0u16 }),
            r.payload() == Seq::<u8>::empty(),
    {
        let r = Self {
            header: MessageHeader { opcode: MessageType::Error, length: 0 },
            data: vec![0u8; MAX_MESSAGE_SIZE],
        };
        assert(r.payload() =~= Seq::<u8>::empty());
        r
    }

    pub fn ack() -> (r: Self)
        ensures
            r.wf(),
            r.header == (MessageHeader { opcode: MessageType::Ack, length: 0u16 }),
            r.payload() == Seq::<u8>::empty(),
    {
        let r = Self {
            header: MessageHeader { opcode: MessageType::Ack, length: 0 },
            data: vec![0u8; MAX_MESSAGE_SIZE],
        };
        assert(r.payload() =~= Seq::<u8>::empty());
        r
    }

    pub fn list() -> (r: Self)
        ensures
            r.wf(),
            r.header == (MessageHeader { opcode: MessageType::List, length: 0u16 }),
            r.payload() == Seq::<u8>::empty(),
    {
        let r = Self {
            header: MessageHeader { opcode: MessageType::List, length: 0 },
            data: vec![0u8; MAX_MESSAGE_SIZE],
        };
        assert(r.payload() =~= Seq::<u8>::empty());
        r
    }

    pub fn subscribe() -> (r: Self)
        ensures
            r.wf(),
            r.header == (MessageHeader { opcode: MessageType::Subscribe, length: 0u16 }),
            r.payload() == Seq::<u8>::empty(),
    {
        let r = Self {
            header: MessageHeader { opcode: MessageType::Subscribe, length: 0 },
            data: vec![0u8; MAX_MESSAGE_SIZE],
        };
        assert(r.payload() =~= Seq::<u8>::empty());
        r
    }

    pub fn debug(message: &Vec<u8>) -> (r: Self)
        requires
            message@.len() <= MAX_MESSAGE_SIZE,
        ensures
            r.wf(),
            r.header.opcode is Debug,
            r.header.length == message@.len(),
            r.payload() == message@,
    {
        let mut m = Self::new();
        m.header.opcode = MessageType::Debug;
        m.add_data(message);
        assert(m.payload() =~= message@);
        m
    }

    pub fn decode(message: &Vec<u8>) -> (r: Self)
        requires
            message@.len() <= MAX_MESSAGE_SIZE,
        ensures
            r.wf(),
            r.header.opcode is Decode,
            r.header.length == message@.len(),
            r.payload() == message@,
    {
        let mut m = Self::new();
        m.header.opcode = MessageType::Decode;
        m.add_data(message);
        assert(m.payload() =~= message@);
        m
    }

    /// Adds additional data to the message (increments the length). Data
    /// beyond the fixed message size is silently dropped.
    pub fn add_data(&mut self, data: &Vec<u8>)
        requires
            old(self).wf(),
        ensures
            final(self).wf(),
            final(self).header.opcode == old(self).header.opcode,
            final(self).header.length == vstd::math::min(
                old(self).header.length + data@.len(),
                MAX_MESSAGE_SIZE as int,
            ),
            final(self).payload() == old(self).payload() + data@.subrange(
                0,
                final(self).header.length - old(self).header.length,
            ),
    {
        let start: usize = self.header.length as usize;
        let mut end: usize = MAX_MESSAGE_SIZE;
        if data.len() < MAX_MESSAGE_SIZE - start {
            end = start + data.len();
        }
        let mut i: usize = 0;
        while i < end - start
            invariant
                old(self).wf(),
                self.data@.len() == MAX_MESSAGE_SIZE,
                self.header == old(self).header,
                start == old(self).header.length,
                start <= end <= MAX_MESSAGE_SIZE,
                end - start <= data@.len(),
                i <= end - start,
                forall|j: int| 0 <= j < start ==> self.data@[j] == old(self).data@[j],
                forall|j: int| 0 <= j < i ==> self.data@[start + j] == data@[j],
        decreases end - start - i,
        {
            self.data.set(start + i, data[i]);
            i += 1;
        }
        self.header.length = end as u16;
        assert(self.payload() =~= old(self).payload() + data@.subrange(
            0,
            self.header.length - old(self).header.length,
        ));
    }

    /// Adds additional data to the message, bounded by the given length.
    pub fn add_data_bounded(&mut self, data: &Vec<u8>, length: usize)
        requires
            old(self).wf(),
            length <= data@.len(),
        ensures
            final(self).wf(),
            final(self).header.opcode == old(self).header.opcode,
            final(self).header.length == vstd::math::min(
                old(self).header.length + length,
                MAX_MESSAGE_SIZE as int,
            ),
            final(self).payload() == old(self).payload() + data@.subrange(
                0,
                final(self).header.length - old(self).header.length,
            ),
    {
        let bounded = crate::codec::subvec(data, 0, length);
        self.add_data(&bounded);
        assert(bounded@.subrange(0, self.header.length - old(self).header.length) =~= data@
            .subrange(0, self.header.length - old(self).header.length));
    }
}

// ---------------------------------------------------------------------------
// Header wire format
// ---------------------------------------------------------------------------

/// The four wire bytes of a header: the magic byte '%', the opcode byte, and
/// the length in little endian.
pub open spec fn spec_header_bytes(h: MessageHeader) -> Seq<u8> {
    seq![37u8, spec_opcode_byte(h.opcode)] + spec_u16_to_le_bytes(h.length)
}

/// Serializes a header for the host computer.
pub fn write_header_bytes(header: &MessageHeader) -> (r: Vec<u8>)
    ensures
        r@ == spec_header_bytes(*header),
        r@.len() == 4,
{
    proof {
        vstd::bytes::lemma_auto_spec_u16_to_from_le_bytes();
    }
    let mut r: Vec<u8> = Vec::new();
    r.push(37u8);
    r.push(opcode_byte(header.opcode));
    let le = u16_to_le_bytes(header.length);
    push_bytes(&mut r, &le);
    assert(r@ =~= spec_header_bytes(*header));
    r
}

/// The incremental parser for a message header: scans for the magic byte,
/// then takes the opcode byte and the two length bytes.
pub enum RxState {
    SeekMagic,
    ReadOpcode,
    ReadLenLo(MessageType),
    ReadLenHi(MessageType, u8),
}

pub struct HeaderParser {
    pub state: RxState,
}

impl HeaderParser {
    pub fn new() -> (r: Self)
        ensures
            r.state is SeekMagic,
    {
        Self { state: RxState::SeekMagic }
    }

    /// Feeds one received byte to the parser. Returns a complete header, an
    /// opcode error (after which the parser scans for the next magic byte),
    /// or nothing if more bytes are needed.
    pub fn feed(&mut self, byte: u8) -> (r: Option<Result<MessageHeader, UartError>>)
        ensures
            match old(self).state {
                RxState::SeekMagic => r is None && if byte == 37u8 {
                    final(self).state is ReadOpcode
                } else {
                    final(self).state is SeekMagic
                },
                RxState::ReadOpcode => {
                    match spec_parse_opcode(byte) {
                        Some(t) => r is None && final(self).state == RxState::ReadLenLo(t),
                        None => r == Some(Result::<MessageHeader, UartError>::Err(
                            UartError::InvalidOpcode,
                        )) && final(self).state is SeekMagic,
                    }
                },
                RxState::ReadLenLo(t) => r is None && final(self).state == RxState::ReadLenHi(
                    t,
                    byte,
                ),
                RxState::ReadLenHi(t, lo) => {
                    &&& final(self).state is SeekMagic
                    &&& r == Some(Result::<MessageHeader, UartError>::Ok(
                        MessageHeader {
                            opcode: t,
                            length: spec_u16_from_le_bytes(seq![lo, byte]),
                        },
                    ))
                },
            },
    {
        match self.state {
            RxState::SeekMagic => {
                if byte == 37 {
                    self.state = RxState::ReadOpcode;
                }
                None
            },
            RxState::ReadOpcode => {
                match parse_opcode(byte) {
                    Some(t) => {
                        self.state = RxState::ReadLenLo(t);
                        None
                    },
                    None => {
                        self.state = RxState::SeekMagic;
                        Some(Err(UartError::InvalidOpcode))
                    },
                }
            },
            RxState::ReadLenLo(t) => {
                self.state = RxState::ReadLenHi(t, byte);
                None
            },
            RxState::ReadLenHi(t, lo) => {
                self.state = RxState::SeekMagic;
                let le: Vec<u8> = vec![lo, byte];
                let length = vstd::bytes::u16_from_le_bytes(le.as_slice());
                assert(le@ =~= seq![lo, byte]);
                Some(Ok(MessageHeader { opcode: t, length }))
            },
        }
    }
}

// ---------------------------------------------------------------------------
// Message validation and assembly
// ---------------------------------------------------------------------------

/// Validates the (opcode, length) pair of a received header: a list request
/// is empty, a subscription update carries exactly an encrypted
/// subscription, and a decode request exactly an encrypted frame.
pub fn validate_header(header: &MessageHeader) -> (r: Result<(), UartError>)
    ensures
        r is Ok <==> ((header.opcode is List && header.length == 0) || (header.opcode is Subscribe
            && header.length == LEN_ENCRYPTED_SUBSCRIPTION) || (header.opcode is Decode
            && header.length == LEN_ENCRYPTED_FRAME)),
        r is Err ==> (match r->Err_0 {
            UartError::InvalidLength => header.opcode is List || header.opcode is Subscribe
                || header.opcode is Decode,
            UartError::InvalidOpcode => !(header.opcode is List || header.opcode is Subscribe
                || header.opcode is Decode),
            UartError::ReadError => false,
        }),
{
    match header.opcode {
        MessageType::List => {
            if header.length == 0 {
                Ok(())
            } else {
                Err(UartError::InvalidLength)
            }
        },
        MessageType::Subscribe => {
            if header.length as usize == LEN_ENCRYPTED_SUBSCRIPTION {
                Ok(())
            } else {
                Err(UartError::InvalidLength)
            }
        },
        MessageType::Decode => {
            if header.length as usize == LEN_ENCRYPTED_FRAME {
                Ok(())
            } else {
                Err(UartError::InvalidLength)
            }
        },
        _ => Err(UartError::InvalidOpcode),
    }
}

/// Assembles the message a validated header and its payload carry.
pub fn build_message_to_decoder(header: &MessageHeader, payload: Vec<u8>) -> (r: Result<
    MessageToDecoder,
    UartError,
>)
    requires
        payload@.len() == header.length,
    ensures
        match r {
            Ok(m) => {
                match m {
                    MessageToDecoder::ListSubscriptions => header.opcode is List
                        && header.length == 0,
                    MessageToDecoder::UpdateSubscription(enc) => header.opcode is Subscribe
                        && enc.wf() && enc.0@ == payload@,
                    MessageToDecoder::DecodeFrame(enc) => header.opcode is Decode && enc.wf()
                        && enc.0@ == payload@,
                }
            },
            Err(_) => !((header.opcode is List && header.length == 0) || (header.opcode
                is Subscribe && header.length == LEN_ENCRYPTED_SUBSCRIPTION) || (header.opcode
                is Decode && header.length == LEN_ENCRYPTED_FRAME)),
        },
{
    match validate_header(header) {
        Ok(_) => {
            match header.opcode {
                MessageType::List => Ok(MessageToDecoder::ListSubscriptions),
                MessageType::Subscribe => Ok(
                    MessageToDecoder::UpdateSubscription(EncryptedSubscription(payload)),
                ),
                _ => Ok(MessageToDecoder::DecodeFrame(EncryptedFrame(payload))),
            }
        },
        Err(e) => Err(e),
    }
}

// ---------------------------------------------------------------------------
// Block acknowledgement discipline
// ---------------------------------------------------------------------------

/// One step of the reader's payload state machine: before the first byte of
/// every 256-byte block the reader owes the peer an acknowledgement.
/// Returns the next state and whether an acknowledgement is to be written.
pub fn reader_ack_step(state: UartState) -> (r: (UartState, bool))
    requires
        state is NumBytesRead,
        state->NumBytesRead_0 <= 255,
    ensures
        ({
            let n = state->NumBytesRead_0;
            if n == 0 {
                r == (UartState::NumBytesRead(1usize), true)
            } else if n < 255 {
                r == (UartState::NumBytesRead((n + 1) as usize), false)
            } else {
                r == (UartState::NumBytesRead(0usize), false)
            }
        }),
{
    match state {
        UartState::NumBytesRead(n) => {
            if n == 0 {
                (UartState::NumBytesRead(1), true)
            } else if n < 255 {
                (UartState::NumBytesRead(n + 1), false)
            } else {
                (UartState::NumBytesRead(0), false)
            }
        },
        UartState::Idle => (UartState::Idle, false),
    }
}

/// How many acknowledgements the reader emits while consuming `len` payload
/// bytes, its block counter starting at `count`.
pub open spec fn spec_acks_from(count: int, len: int) -> int
    decreases len,
{
    if len <= 0 {
        0
    } else {
        (if count == 0 {
            1int
        } else {
            0int
        }) + spec_acks_from(
            if count == 0 {
                1
            } else if count < 255 {
                count + 1
            } else {
                0
            },
            len - 1,
        )
    }
}

/// Within one block no further acknowledgement is owed.
pub proof fn lemma_no_ack_within_block(count: int, len: int)
    requires
        1 <= count <= 255,
        0 <= len,
        count + len <= 256,
    ensures
        spec_acks_from(count, len) == 0,
    decreases len,
{
    if len > 0 {
        if count < 255 {
            lemma_no_ack_within_block(count + 1, len - 1);
        } else {
            assert(len == 1);
            assert(spec_acks_from(0, 0) == 0);
        }
    }
}

/// Protocol ACK discipline: while consuming a payload of up to one block,
/// the reader acknowledges exactly once — after the header, before the
/// payload bytes. (The final acknowledgement after the payload is written
/// unconditionally by the reader, one per message.) Both fixed payload
/// kinds, encrypted subscriptions and encrypted frames, fit in one block.
pub proof fn lemma_ack_discipline(len: int)
    requires
        1 <= len <= 256,
    ensures
        spec_acks_from(0, len) == 1,
{
    lemma_no_ack_within_block(1, len - 1);
}

/// The two fixed message payloads each draw exactly one in-payload
/// acknowledgement.
pub proof fn lemma_ack_discipline_messages()
    ensures
        spec_acks_from(0, LEN_ENCRYPTED_SUBSCRIPTION as int) == 1,
        spec_acks_from(0, LEN_ENCRYPTED_FRAME as int) == 1,
        spec_acks_from(0, 0) == 0,
{
    lemma_ack_discipline(LEN_ENCRYPTED_SUBSCRIPTION as int);
    lemma_ack_discipline(LEN_ENCRYPTED_FRAME as int);
}

// ---------------------------------------------------------------------------
// Write plan
// ---------------------------------------------------------------------------

/// One event of a message transmission: a byte to send, or a pause until
/// the peer acknowledges.
#[derive(Eq, PartialEq, Structural, Debug, Clone, Copy)]
pub enum WireEvent {
    Byte(u8),
    WaitAck,
}

/// The given bytes, as send events.
pub open spec fn spec_sends(data: Seq<u8>) -> Seq<WireEvent> {
    Seq::new(data.len(), |i: int| WireEvent::Byte(data[i]))
}

/// The full transmission of a message: the four header bytes, a pause for
/// the peer's acknowledgement unless the message is an Ack or Debug, the
/// payload (at most one block here), and a pause after the block if it is
/// not empty.
pub open spec fn spec_write_events(m: Message) -> Seq<WireEvent> {
    spec_sends(spec_header_bytes(m.header)) + (if !(m.header.opcode is Ack || m.header.opcode
        is Debug) {
        seq![WireEvent::WaitAck]
    } else {
        Seq::empty()
    }) + spec_sends(m.payload()) + (if !(m.header.opcode is Ack || m.header.opcode is Debug)
        && m.header.length > 0 {
        seq![WireEvent::WaitAck]
    } else {
        Seq::empty()
    })
}

/// Plans the transmission of a message: every byte to put on the wire, in
/// order, with the points at which the writer must wait for the peer's
/// acknowledgement.
pub fn write_message_events(message: &Message) -> (r: Vec<WireEvent>)
    requires
        message.wf(),
    ensures
        r@ == spec_write_events(*message),
{
    let mut r: Vec<WireEvent> = Vec::new();
    let header_bytes = write_header_bytes(&message.header);
    let mut i: usize = 0;
    while i < header_bytes.len()
        invariant
            i <= header_bytes@.len(),
            r@ == spec_sends(header_bytes@.subrange(0, i as int)),
        decreases header_bytes@.len() - i,
    {
        r.push(WireEvent::Byte(header_bytes[i]));
        assert(r@ =~= spec_sends(header_bytes@.subrange(0, i + 1)));
        i += 1;
    }
    assert(header_bytes@.subrange(0, header_bytes@.len() as int) =~= header_bytes@);
    let needs_ack = message.header.should_ack();
    if needs_ack {
        r.push(WireEvent::WaitAck);
    }
    let ghost mid = r@;
    let length = message.header.length as usize;
    let mut j: usize = 0;
    while j < length
        invariant
            message.wf(),
            length == message.header.length,
            j <= length,
            r@ == mid + spec_sends(message.data@.subrange(0, j as int)),
        decreases length - j,
    {
        r.push(WireEvent::Byte(message.data[j]));
        assert(r@ =~= mid + spec_sends(message.data@.subrange(0, j + 1)));
        j += 1;
    }
    if needs_ack && length > 0 {
        r.push(WireEvent::WaitAck);
    }
    assert(r@ =~= spec_write_events(*message));
    r
}

} // verus!

verus! {

/// Runs the reader's block state machine over a whole payload and counts
/// the acknowledgements it owes: exactly as many as the counting model
/// says. This ties the per-byte step function to the acknowledgement
/// discipline.
pub fn count_reader_acks(len: usize) -> (n: u32)
    requires
        len <= 65535,
    ensures
        n == spec_acks_from(0, len as int),
{
    let mut state = UartState::NumBytesRead(0);
    let mut acks: u32 = 0;
    let mut i: usize = 0;
    while i < len
        invariant
            i <= len,
            len <= 65535,
            acks <= i,
            state is NumBytesRead,
            state->NumBytesRead_0 <= 255,
            spec_acks_from(0, len as int) == acks + spec_acks_from(
                state->NumBytesRead_0 as int,
                len - i,
            ),
        decreases len - i,
    {
        let (next, ack) = reader_ack_step(state);
        if ack {
            acks = acks + 1;
        }
        state = next;
        i += 1;
    }
    acks
}

} // verus!
