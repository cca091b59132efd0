use crate::usrp::wire::{
    be_bytes, be_value, le_bytes, read_u32_be, samples_from_le, samples_le_bytes, samples_of_le,
    samples_to_le, write_u32_be, write_u32_le,
};
use vstd::prelude::*;
use vstd::slice::{slice_subrange, slice_to_vec};

verus! {

/// Length of the fixed header that every frame starts with.
pub const HEADER_LEN: usize = 32;

/// Total length of a start frame.
pub const START_LEN: usize = 352;

/// What a frame is, as a mathematical value.
pub enum Frame {
    Start { sequence_number: u32 },
    Audio { sequence_number: u32, transmit: bool, audio: Seq<i16> },
    End { sequence_number: u32 },
    Unknown { bytes: Seq<u8> },
}

/// `n` zero bytes.
pub open spec fn zeros(n: nat) -> Seq<u8> {
    Seq::new(n, |i: int| 0u8)
}

/// The four bytes every frame begins with: the letters U, S, R, P.
pub open spec fn magic() -> Seq<u8> {
    seq![0x55u8, 0x53u8, 0x52u8, 0x50u8]
}

/// The 21 bytes of metadata that a start frame carries after its header.
pub open spec fn start_metadata() -> Seq<u8> {
    seq![
        0x08u8, 0x14u8, 0x1Fu8, 0xC2u8, 0x39u8, 0x0Cu8, 0x67u8, 0xDEu8, 0x45u8, 0x00u8, 0x00u8,
        0x07u8, 0x02u8, 0x00u8, 0x32u8, 0x30u8, 0x38u8, 0x31u8, 0x33u8, 0x33u8, 0x37u8,
    ]
}

/// The number that the transmit field holds for a flag.
pub open spec fn transmit_word(transmit: bool) -> u32 {
    if transmit {
        1
    } else {
        0
    }
}

/// Header of an audio or end frame. The kind field at offset 20 is laid out
/// least significant byte first, unlike the other fields.
pub open spec fn audio_header(sequence_number: u32, transmit: bool) -> Seq<u8> {
    magic() + be_bytes(sequence_number) + be_bytes(2) + be_bytes(transmit_word(transmit))
        + be_bytes(7) + le_bytes(0) + be_bytes(0) + zeros(4)
}

/// Header of a start frame: only the magic, the sequence number and the
/// kind field are filled in.
pub open spec fn start_header(sequence_number: u32) -> Seq<u8> {
    magic() + be_bytes(sequence_number) + zeros(12) + le_bytes(2) + zeros(8)
}

/// Wire form of a start frame.
pub open spec fn start_wire(sequence_number: u32) -> Seq<u8> {
    start_header(sequence_number) + start_metadata() + zeros(299)
}

/// Wire form of an audio frame: the header, then the samples two bytes each,
/// low byte first.
pub open spec fn audio_wire(sequence_number: u32, transmit: bool, audio: Seq<i16>) -> Seq<u8> {
    audio_header(sequence_number, transmit) + samples_le_bytes(audio)
}

/// Wire form of a frame. An end frame is an audio frame without samples and
/// with the transmit flag down; an unknown frame is its own bytes.
pub open spec fn encode(frame: Frame) -> Seq<u8> {
    match frame {
        Frame::Start { sequence_number } => start_wire(sequence_number),
        Frame::Audio { sequence_number, transmit, audio } => audio_wire(
            sequence_number,
            transmit,
            audio,
        ),
        Frame::End { sequence_number } => audio_wire(sequence_number, false, Seq::empty()),
        Frame::Unknown { bytes } => bytes,
    }
}

/// The frame that a datagram holds. The kind field is read most significant
/// byte first. Anything shorter than a header, or of another kind than 0 and
/// 2, is unknown; an audio frame without a whole sample is an end frame.
pub open spec fn decode(bytes: Seq<u8>) -> Frame {
    if bytes.len() < HEADER_LEN {
        Frame::Unknown { bytes }
    } else {
        let kind = be_value(bytes.subrange(20, 24));
        let sequence_number = be_value(bytes.subrange(4, 8));
        if kind == 2 {
            Frame::Start { sequence_number }
        } else if kind == 0 {
            let audio = samples_from_le(bytes.subrange(HEADER_LEN as int, bytes.len() as int));
            if audio.len() > 0 {
                Frame::Audio {
                    sequence_number,
                    transmit: be_value(bytes.subrange(12, 16)) == 1,
                    audio,
                }
            } else {
                Frame::End { sequence_number }
            }
        } else {
            Frame::Unknown { bytes }
        }
    }
}

/// Opens a transmission.
#[derive(Clone, Debug, PartialEq, Eq)]
pub struct StartPacket {
    pub sequence_number: u32,
}

/// Carries PCM samples at 8 kHz, one channel.
#[derive(Clone, Debug, PartialEq, Eq)]
pub struct AudioPacket {
    pub sequence_number: u32,
    pub transmit: bool,
    pub audio: Vec<i16>,
}

/// Closes a transmission: on the wire, an audio frame without samples.
#[derive(Clone, Debug, PartialEq, Eq)]
pub struct EndPacket {
    pub sequence_number: u32,
}

/// A frame of the radio network.
#[derive(Clone, Debug, PartialEq, Eq)]
pub enum USRPPacket {
    Start(StartPacket),
    Audio(AudioPacket),
    End(EndPacket),
    Unknown(Vec<u8>),
}

impl View for StartPacket {
    type V = Frame;

    open spec fn view(&self) -> Frame {
        Frame::Start { sequence_number: self.sequence_number }
    }
}

impl View for AudioPacket {
    type V = Frame;

    open spec fn view(&self) -> Frame {
        Frame::Audio {
            sequence_number: self.sequence_number,
            transmit: self.transmit,
            audio: self.audio@,
        }
    }
}

impl View for EndPacket {
    type V = Frame;

    open spec fn view(&self) -> Frame {
        Frame::End { sequence_number: self.sequence_number }
    }
}

impl View for USRPPacket {
    type V = Frame;

    open spec fn view(&self) -> Frame {
        match self {
            USRPPacket::Start(packet) => packet@,
            USRPPacket::Audio(packet) => packet@,
            USRPPacket::End(packet) => packet@,
            USRPPacket::Unknown(bytes) => Frame::Unknown { bytes: bytes@ },
        }
    }
}

/// Appends the four bytes of a field to a frame under construction.
fn put_word(buffer: &mut Vec<u8>, word: [u8; 4])
    ensures
        final(buffer)@ == old(buffer)@ + word@,
{
    let ghost before = buffer@;
    buffer.push(word[0]);
    buffer.push(word[1]);
    buffer.push(word[2]);
    buffer.push(word[3]);
    assert(buffer@ =~= before + word@);
}

/// Appends `count` zero bytes to a frame under construction.
fn put_zeros(buffer: &mut Vec<u8>, count: usize)
    ensures
        final(buffer)@ == old(buffer)@ + zeros(count as nat),
{
    let ghost before = buffer@;
    let mut done: usize = 0;
    while done < count
        invariant
            done <= count,
            buffer@ == before + zeros(done as nat),
        decreases count - done,
    {
        buffer.push(0u8);
        done = done + 1;
        assert(buffer@ =~= before + zeros(done as nat));
    }
}

/// Appends a run of bytes to a frame under construction.
fn put_bytes(buffer: &mut Vec<u8>, bytes: &[u8])
    ensures
        final(buffer)@ == old(buffer)@ + bytes@,
{
    let ghost before = buffer@;
    let mut done: usize = 0;
    while done < bytes.len()
        invariant
            done <= bytes@.len(),
            buffer@ == before + bytes@.subrange(0, done as int),
        decreases bytes@.len() - done,
    {
        buffer.push(bytes[done]);
        done = done + 1;
        assert(buffer@ =~= before + bytes@.subrange(0, done as int));
    }
    assert(bytes@.subrange(0, done as int) =~= bytes@);
}

/// A frame kind that can be put on the wire.
pub trait USRPPacketSerialize {
    /// The number that names this kind of frame in the kind field.
    const PACKET_TYPE: u32;

    /// The bytes of this frame on the wire.
    spec fn wire(&self) -> Seq<u8>;

    /// Writes this frame out.
    fn to_bytes(&self) -> (bytes: Vec<u8>)
        ensures
            bytes@ == self.wire(),
    ;
}

impl USRPPacketSerialize for StartPacket {
    const PACKET_TYPE: u32 = 2;

    open spec fn wire(&self) -> Seq<u8> {
        start_wire(self.sequence_number)
    }

    fn to_bytes(&self) -> (bytes: Vec<u8>) {
        let mut buffer: Vec<u8> = Vec::new();
        put_word(&mut buffer, [0x55u8, 0x53u8, 0x52u8, 0x50u8]);
        assert(buffer@ =~= magic());
        put_word(&mut buffer, write_u32_be(self.sequence_number));
        put_zeros(&mut buffer, 12);
        put_word(&mut buffer, write_u32_le(Self::PACKET_TYPE));
        put_zeros(&mut buffer, 8);
        assert(buffer@ == start_header(self.sequence_number));
        let metadata: [u8; 21] = [
            0x08, 0x14, 0x1F, 0xC2, 0x39, 0x0C, 0x67, 0xDE, 0x45, 0x00, 0x00, 0x07, 0x02, 0x00,
            0x32, 0x30, 0x38, 0x31, 0x33, 0x33, 0x37,
        ];
        assert(metadata@ =~= start_metadata());
        put_bytes(&mut buffer, metadata.as_slice());
        put_zeros(&mut buffer, START_LEN - HEADER_LEN - 21);
        buffer
    }
}

impl USRPPacketSerialize for AudioPacket {
    const PACKET_TYPE: u32 = 0;

    open spec fn wire(&self) -> Seq<u8> {
        audio_wire(self.sequence_number, self.transmit, self.audio@)
    }

    fn to_bytes(&self) -> (bytes: Vec<u8>) {
        let mut buffer: Vec<u8> = Vec::new();
        put_word(&mut buffer, [0x55u8, 0x53u8, 0x52u8, 0x50u8]);
        assert(buffer@ =~= magic());
        put_word(&mut buffer, write_u32_be(self.sequence_number));
        put_word(&mut buffer, write_u32_be(2));
        let transmit: u32 = if self.transmit {
            1
        } else {
            0
        };
        put_word(&mut buffer, write_u32_be(transmit));
        put_word(&mut buffer, write_u32_be(7));
        put_word(&mut buffer, write_u32_le(Self::PACKET_TYPE));
        put_word(&mut buffer, write_u32_be(0));
        put_zeros(&mut buffer, 4);
        assert(buffer@ == audio_header(self.sequence_number, self.transmit));

        let audio_frames = samples_to_le(self.audio.as_slice());
        put_bytes(&mut buffer, audio_frames.as_slice());
        buffer
    }
}

impl USRPPacketSerialize for EndPacket {
    const PACKET_TYPE: u32 = 0;

    open spec fn wire(&self) -> Seq<u8> {
        audio_wire(self.sequence_number, false, Seq::empty())
    }

    fn to_bytes(&self) -> (bytes: Vec<u8>) {
        let packet = AudioPacket {
            sequence_number: self.sequence_number,
            transmit: false,
            audio: Vec::new(),
        };
        packet.to_bytes()
    }
}

impl USRPPacket {
    /// Reads a datagram. Every datagram is read as some frame: what is too
    /// short or of no known kind comes back as `Unknown` with its bytes.
    pub fn from_bytes(bytes: &[u8]) -> (packet: Self)
        ensures
            packet@ == decode(bytes@),
            bytes@.len() < HEADER_LEN ==> packet@ == (Frame::Unknown { bytes: bytes@ }),
    {
        if bytes.len() < HEADER_LEN {
            return USRPPacket::Unknown(slice_to_vec(bytes));
        }
        let packet_type = read_u32_be(slice_subrange(bytes, 20, 24));
        if packet_type == StartPacket::PACKET_TYPE {
            USRPPacket::Start(
                StartPacket { sequence_number: read_u32_be(slice_subrange(bytes, 4, 8)) },
            )
        } else if packet_type == AudioPacket::PACKET_TYPE {
            let sequence_number = read_u32_be(slice_subrange(bytes, 4, 8));
            let transmit = read_u32_be(slice_subrange(bytes, 12, 16)) == 1;
            let audio_u8 = slice_subrange(bytes, HEADER_LEN, bytes.len());
            let audio = samples_of_le(audio_u8);
            if audio.len() > 0 {
                USRPPacket::Audio(AudioPacket { sequence_number, transmit, audio })
            } else {
                USRPPacket::End(EndPacket { sequence_number })
            }
        } else {
            USRPPacket::Unknown(slice_to_vec(bytes))
        }
    }

    /// The bytes of this frame on the wire.
    pub fn to_bytes(&self) -> (bytes: Vec<u8>)
        ensures
            bytes@ == encode(self@),
    {
        match self {
            USRPPacket::Start(packet) => packet.to_bytes(),
            USRPPacket::Audio(packet) => packet.to_bytes(),
            USRPPacket::End(packet) => packet.to_bytes(),
            USRPPacket::Unknown(bytes) => bytes.clone(),
        }
    }
}

} // verus!
