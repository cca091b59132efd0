use crate::usrp::packets::{
    audio_header, audio_wire, decode, encode, magic, start_header, start_metadata, start_wire,
    transmit_word, zeros, Frame, HEADER_LEN, START_LEN,
};
use crate::usrp::wire::{
    be_bytes, be_value, le_bytes, lemma_be_round_trip, lemma_samples_round_trip,
    samples_from_le, samples_le_bytes,
};
use vstd::prelude::*;

verus! {

/// Where the fields of an audio header lie, and what is read back from them.
pub proof fn lemma_audio_header_fields(sequence_number: u32, transmit: bool)
    ensures
        audio_header(sequence_number, transmit).len() == HEADER_LEN,
        audio_header(sequence_number, transmit).subrange(0, 4) == magic(),
        audio_header(sequence_number, transmit).subrange(4, 8) == be_bytes(sequence_number),
        audio_header(sequence_number, transmit).subrange(8, 12) == be_bytes(2),
        audio_header(sequence_number, transmit).subrange(12, 16) == be_bytes(
            transmit_word(transmit),
        ),
        audio_header(sequence_number, transmit).subrange(16, 20) == be_bytes(7),
        audio_header(sequence_number, transmit).subrange(20, 24) == le_bytes(0),
        audio_header(sequence_number, transmit).subrange(24, 28) == be_bytes(0),
        audio_header(sequence_number, transmit).subrange(28, 32) == zeros(4),
{
    let h = audio_header(sequence_number, transmit);
    assert(h.subrange(0, 4) =~= magic());
    assert(h.subrange(4, 8) =~= be_bytes(sequence_number));
    assert(h.subrange(8, 12) =~= be_bytes(2));
    assert(h.subrange(12, 16) =~= be_bytes(transmit_word(transmit)));
    assert(h.subrange(16, 20) =~= be_bytes(7));
    assert(h.subrange(20, 24) =~= le_bytes(0));
    assert(h.subrange(24, 28) =~= be_bytes(0));
    assert(h.subrange(28, 32) =~= zeros(4));
}

/// Where the fields of a start frame lie.
pub proof fn lemma_start_wire_fields(sequence_number: u32)
    ensures
        start_wire(sequence_number).len() == START_LEN,
        start_wire(sequence_number).subrange(0, 4) == magic(),
        start_wire(sequence_number).subrange(4, 8) == be_bytes(sequence_number),
        start_wire(sequence_number).subrange(8, 20) == zeros(12),
        start_wire(sequence_number).subrange(20, 24) == le_bytes(2),
        start_wire(sequence_number).subrange(24, 32) == zeros(8),
        start_wire(sequence_number).subrange(32, 53) == start_metadata(),
        start_wire(sequence_number).subrange(53, 352) == zeros(299),
{
    let w = start_wire(sequence_number);
    assert(start_header(sequence_number).len() == 32);
    assert(w.subrange(0, 4) =~= magic());
    assert(w.subrange(4, 8) =~= be_bytes(sequence_number));
    assert(w.subrange(8, 20) =~= zeros(12));
    assert(w.subrange(20, 24) =~= le_bytes(2));
    assert(w.subrange(24, 32) =~= zeros(8));
    assert(w.subrange(32, 53) =~= start_metadata());
    assert(w.subrange(53, 352) =~= zeros(299));
}

/// What is read from the wire form of an audio frame, with or without
/// samples: an audio frame with the same fields, or an end frame where there
/// is no sample.
pub proof fn lemma_decode_audio_wire(sequence_number: u32, transmit: bool, audio: Seq<i16>)
    ensures
        decode(audio_wire(sequence_number, transmit, audio)) == if audio.len() > 0 {
            Frame::Audio { sequence_number, transmit, audio }
        } else {
            Frame::End { sequence_number }
        },
{
    let h = audio_header(sequence_number, transmit);
    let w = audio_wire(sequence_number, transmit, audio);
    lemma_audio_header_fields(sequence_number, transmit);
    assert(w.len() == 32 + 2 * audio.len());
    assert(w.subrange(4, 8) =~= h.subrange(4, 8));
    assert(w.subrange(12, 16) =~= h.subrange(12, 16));
    assert(w.subrange(20, 24) =~= h.subrange(20, 24));
    assert(w.subrange(32, w.len() as int) =~= samples_le_bytes(audio));
    lemma_be_round_trip(sequence_number);
    lemma_be_round_trip(transmit_word(transmit));
    assert(be_value(le_bytes(0)) == 0);
    lemma_samples_round_trip(audio);
}

/// Writing an end frame, or an audio frame that holds at least one sample,
/// and reading the bytes back gives the frame that was written.
pub proof fn lemma_round_trip(frame: Frame)
    requires
        frame is End || (frame is Audio && frame->audio.len() > 0),
    ensures
        decode(encode(frame)) == frame,
{
    match frame {
        Frame::Audio { sequence_number, transmit, audio } => {
            lemma_decode_audio_wire(sequence_number, transmit, audio);
        },
        Frame::End { sequence_number } => {
            lemma_decode_audio_wire(sequence_number, false, Seq::empty());
        },
        _ => {},
    }
}

/// An audio frame written without samples is read back as an end frame,
/// whatever its transmit flag was.
pub proof fn lemma_empty_audio_reads_as_end(sequence_number: u32, transmit: bool)
    ensures
        decode(
            encode(Frame::Audio { sequence_number, transmit, audio: Seq::empty() }),
        ) == (Frame::End { sequence_number }),
{
    lemma_decode_audio_wire(sequence_number, transmit, Seq::empty());
}

/// A start frame is written with its kind field least significant byte
/// first and read most significant byte first, so what this side writes as
/// a start frame it reads back as unknown.
pub proof fn lemma_start_reads_as_unknown(sequence_number: u32)
    ensures
        decode(encode(Frame::Start { sequence_number })) == (Frame::Unknown {
            bytes: start_wire(sequence_number),
        }),
{
    lemma_start_wire_fields(sequence_number);
    assert(be_value(le_bytes(2)) == 0x200_0000);
}

/// A frame of at least header length whose kind field holds 2, most
/// significant byte first, is read as a start frame with the sequence number
/// of its second field.
pub proof fn lemma_kind_two_reads_as_start(bytes: Seq<u8>)
    requires
        bytes.len() >= HEADER_LEN,
        bytes.subrange(20, 24) == be_bytes(2),
    ensures
        decode(bytes) == (Frame::Start { sequence_number: be_value(bytes.subrange(4, 8)) }),
{
    lemma_be_round_trip(2);
}

/// Anything shorter than a header is read as unknown, with its bytes kept.
pub proof fn lemma_short_reads_as_unknown(bytes: Seq<u8>)
    requires
        bytes.len() < HEADER_LEN,
    ensures
        decode(bytes) == (Frame::Unknown { bytes }),
{
}

/// Reading never changes an unknown frame's bytes: written again, they are
/// the datagram that came in.
pub proof fn lemma_unknown_keeps_bytes(bytes: Seq<u8>)
    requires
        decode(bytes) is Unknown,
    ensures
        encode(decode(bytes)) == bytes,
{
}

} // verus!
