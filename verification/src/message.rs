//! Envelopes and the messages they carry.
//!
//! An [`Envelope`] wraps a header (id, source, destination, ack flag) around a
//! [`Message`], the unit of mailbox routing. Messages cross the plugin
//! boundary in two shapes: the native sum type [`DataEnum`], and the C-side
//! shape [`CMessage`], whose payload [`Data`] is restricted to what a tagged
//! union can carry and is labelled on the wire by a [`DataType`] tag byte.
//!
//! Foreign buffers appear as plain (address, length) records here: the borrow
//! window of a peeked buffer and the destructor of an owned one are the host
//! binary's to manage. Owned foreign payloads deliberately have no `Clone`: a
//! shallow copy would run the foreign destructor twice.

use vstd::prelude::*;
use crate::ids::{IdAllocator, get_next};

verus! {

/// A borrowed foreign buffer: the sender keeps ownership, the recipient may
/// only read within the sender-declared window. Carried as a raw address and
/// a length in bytes.
#[derive(Debug, Clone, Copy, PartialEq, Eq, Structural)]
pub struct FFIPeek {
    pub addr: usize,
    pub len: usize,
}

/// An owned foreign buffer: ownership (and the duty to run the foreign
/// destructor exactly once) travels with the value. Deliberately not `Clone`.
#[derive(Debug, PartialEq, Eq, Structural)]
pub struct FFIData {
    pub addr: usize,
    pub len: usize,
}

impl FFIData {
    /// Whether this buffer can be reinterpreted as one value of the given
    /// size and alignment: non-null, exactly that size, suitably aligned.
    pub open spec fn castable(self, size: usize, align: usize) -> bool {
        &&& self.addr != 0
        &&& self.len == size
        &&& self.addr % align == 0
    }

    /// Checks that the buffer holds exactly one value of the given size and
    /// alignment and hands back its address; `None` when the buffer is null,
    /// of the wrong size, or misaligned.
    pub fn force_cast(self, size: usize, align: usize) -> (r: Option<usize>)
        requires
            align >= 1,
        ensures
            self.castable(size, align) ==> r == Some(self.addr),
            !self.castable(size, align) ==> r is None,
    {
        if self.addr == 0 {
            return None;
        }
        if self.len != size {
            return None;
        }
        if self.addr % align != 0 {
            return None;
        }
        Some(self.addr)
    }
}

/// The tag byte that labels a [`Data`] payload on the C wire.
#[derive(Debug, Clone, Copy, PartialEq, Eq, Structural)]
pub enum DataType {
    Empty,
    Code,
    FfiPeek,
    FfiData,
}

impl DataType {
    /// The wire value of each tag.
    pub open spec fn spec_code(self) -> u8 {
        match self {
            DataType::Empty => 0,
            DataType::Code => 1,
            DataType::FfiPeek => 2,
            DataType::FfiData => 3,
        }
    }

    pub fn code(self) -> (r: u8)
        ensures
            r == self.spec_code(),
    {
        match self {
            DataType::Empty => 0,
            DataType::Code => 1,
            DataType::FfiPeek => 2,
            DataType::FfiData => 3,
        }
    }

    /// Reads a tag byte back; exactly the four wire values are accepted.
    pub fn from_u8(v: u8) -> (r: Option<DataType>)
        ensures
            v == 0 ==> r == Some(DataType::Empty),
            v == 1 ==> r == Some(DataType::Code),
            v == 2 ==> r == Some(DataType::FfiPeek),
            v == 3 ==> r == Some(DataType::FfiData),
            v > 3 ==> r is None,
    {
        if v == 0 {
            Some(DataType::Empty)
        } else if v == 1 {
            Some(DataType::Code)
        } else if v == 2 {
            Some(DataType::FfiPeek)
        } else if v == 3 {
            Some(DataType::FfiData)
        } else {
            None
        }
    }
}

/// The payload shapes a C-side message can carry.
#[derive(Debug, PartialEq, Eq, Structural)]
pub enum Data {
    Empty,
    Code(u32),
    FfiPeek(FFIPeek),
    FfiData(FFIData),
}

impl Data {
    /// The tag that labels this payload on the wire.
    pub open spec fn spec_tag(self) -> DataType {
        match self {
            Data::Empty => DataType::Empty,
            Data::Code(..) => DataType::Code,
            Data::FfiPeek(..) => DataType::FfiPeek,
            Data::FfiData(..) => DataType::FfiData,
        }
    }

    pub fn tag(&self) -> (r: DataType)
        ensures
            r == self.spec_tag(),
    {
        match self {
            Data::Empty => DataType::Empty,
            Data::Code(..) => DataType::Code,
            Data::FfiPeek(..) => DataType::FfiPeek,
            Data::FfiData(..) => DataType::FfiData,
        }
    }
}

/// The native payload of a [`Message`]. A superset of [`Data`]: byte vectors
/// stay on the native side and never cross the C wire.
#[derive(Debug)]
pub enum DataEnum {
    Empty,
    Code(u32),
    Bytes(Vec<u8>),
    FfiData(FFIData),
    FfiPeek(FFIPeek),
}

/// What an envelope carries: an opcode and a payload.
#[derive(Debug)]
pub struct Message {
    pub opcode: u32,
    pub data: DataEnum,
}

/// The C-side shape of a message. Its payload is the tagged sum [`Data`];
/// [`Data::tag`] gives the tag byte the wire carries beside it.
#[derive(Debug)]
pub struct CMessage {
    pub opcode: u32,
    pub data: Data,
}

/// What promoting a C payload to the native representation yields: borrowed
/// buffers stay borrowed, owned buffers keep their ownership duty.
pub open spec fn promote_data(data: Data) -> DataEnum {
    match data {
        Data::Empty => DataEnum::Empty,
        Data::Code(c) => DataEnum::Code(c),
        Data::FfiPeek(p) => DataEnum::FfiPeek(p),
        Data::FfiData(d) => DataEnum::FfiData(d),
    }
}

impl From<CMessage> for Message {
    /// Promotes the C shape to the native one, preserving the opcode and the
    /// payload's meaning.
    fn from(value: CMessage) -> (r: Message) {
        Message {
            opcode: value.opcode,
            data: match value.data {
                Data::Empty => DataEnum::Empty,
                Data::Code(c) => DataEnum::Code(c),
                Data::FfiPeek(p) => DataEnum::FfiPeek(p),
                Data::FfiData(d) => DataEnum::FfiData(d),
            },
        }
    }
}

impl vstd::std_specs::convert::FromSpecImpl<CMessage> for Message {
    open spec fn obeys_from_spec() -> bool {
        true
    }

    open spec fn from_spec(v: CMessage) -> Message {
        Message { opcode: v.opcode, data: promote_data(v.data) }
    }
}

/// The unit of mailbox routing: a header around a message.
///
/// The id deduplicates and traces; source and destination are the bus
/// addresses of sender and receiver; `require_ack` asks the receiver to
/// acknowledge that work has started.
#[derive(Debug)]
pub struct Envelope {
    pub id: u64,
    pub source: u32,
    pub destination: u32,
    pub require_ack: bool,
    pub message: Message,
}

impl Envelope {
    /// Builds an envelope, drawing a fresh id from the process allocator.
    pub fn new(
        ids: &mut IdAllocator,
        source: u32,
        destination: u32,
        require_ack: bool,
        message: Message,
    ) -> (r: Envelope)
        requires
            old(ids).spec_next() < u64::MAX,
        ensures
            r.id == old(ids).spec_next(),
            !old(ids).issued().contains(r.id),
            final(ids).issued() == old(ids).issued().insert(r.id),
            final(ids).spec_next() == old(ids).spec_next() + 1,
            r.source == source,
            r.destination == destination,
            r.require_ack == require_ack,
            r.message == message,
    {
        Envelope { id: get_next(ids), source, destination, require_ack, message }
    }

    /// A copy of the header with the payload stripped: same id, addresses,
    /// ack flag and opcode, but no data.
    pub fn clone_empty(&self) -> (r: Envelope)
        ensures
            r.id == self.id,
            r.source == self.source,
            r.destination == self.destination,
            r.require_ack == self.require_ack,
            r.message.opcode == self.message.opcode,
            r.message.data is Empty,
    {
        Envelope {
            id: self.id,
            source: self.source,
            destination: self.destination,
            require_ack: self.require_ack,
            message: Message { opcode: self.message.opcode, data: DataEnum::Empty },
        }
    }
}

/// The C-ABI shape of an envelope: the same header fields in the same order,
/// around a C-side message. The id is assigned by the sending side and is
/// read back only through promotion to [`Envelope`].
#[derive(Debug)]
pub struct CEnvelope {
    pub id: u64,
    pub source: u32,
    pub destination: u32,
    pub require_ack: bool,
    pub message: CMessage,
}

impl CEnvelope {
    pub fn new(id: u64, source: u32, destination: u32, require_ack: bool, message: CMessage) -> (r:
        CEnvelope)
        ensures
            r.id == id,
            r.source == source,
            r.destination == destination,
            r.require_ack == require_ack,
            r.message == message,
    {
        CEnvelope { id, source, destination, require_ack, message }
    }
}

impl From<CEnvelope> for Envelope {
    /// Promotes a C envelope: every header field is kept, the payload is
    /// promoted by [`promote_data`].
    fn from(value: CEnvelope) -> (r: Envelope) {
        Envelope {
            id: value.id,
            source: value.source,
            destination: value.destination,
            require_ack: value.require_ack,
            message: Message::from(value.message),
        }
    }
}

impl vstd::std_specs::convert::FromSpecImpl<CEnvelope> for Envelope {
    open spec fn obeys_from_spec() -> bool {
        true
    }

    open spec fn from_spec(v: CEnvelope) -> Envelope {
        Envelope {
            id: v.id,
            source: v.source,
            destination: v.destination,
            require_ack: v.require_ack,
            message: Message { opcode: v.message.opcode, data: promote_data(v.message.data) },
        }
    }
}

/// Promotion preserves every header field, the opcode, and the payload's
/// meaning: id, source, destination and ack flag are copied unchanged, and
/// the payload comes out as [`promote_data`] of what went in.
pub proof fn lemma_promotion_preserves_fields(c: CEnvelope)
    ensures
        <Envelope as vstd::std_specs::convert::FromSpec<CEnvelope>>::from_spec(c).id
            == c.id,
        <Envelope as vstd::std_specs::convert::FromSpec<CEnvelope>>::from_spec(c).source
            == c.source,
        <Envelope as vstd::std_specs::convert::FromSpec<CEnvelope>>::from_spec(c).destination
            == c.destination,
        <Envelope as vstd::std_specs::convert::FromSpec<CEnvelope>>::from_spec(c).require_ack
            == c.require_ack,
        <Envelope as vstd::std_specs::convert::FromSpec<CEnvelope>>::from_spec(c).message.opcode
            == c.message.opcode,
        <Envelope as vstd::std_specs::convert::FromSpec<CEnvelope>>::from_spec(c).message.data
            == promote_data(c.message.data),
{
}

} // verus!
