use crate::usrp::packets::{Frame, USRPPacket};
use crate::usrp::wire::{samples_le_bytes, samples_to_le};
use vstd::prelude::*;

verus! {

/// What the relay does with a frame that came in from the radio network.
#[derive(Debug)]
pub enum RelayAction {
    /// Audio for the voice channel: these samples go through the converter.
    Play(Vec<i16>),
    /// A start or end frame: nothing is played.
    Idle,
    /// An unknown frame: it is noted in the log and dropped.
    Discard,
}

/// What is played for a frame, if anything.
pub open spec fn played(frame: Frame) -> Option<Seq<i16>> {
    match frame {
        Frame::Audio { audio, .. } => Some(audio),
        _ => None,
    }
}

impl RelayAction {
    /// The samples to play, if any.
    pub open spec fn samples(self) -> Option<Seq<i16>> {
        match self {
            RelayAction::Play(samples) => Some(samples@),
            _ => None,
        }
    }
}

/// Decides what is done with a frame that came in.
pub fn relay(packet: USRPPacket) -> (action: RelayAction)
    ensures
        action.samples() == played(packet@),
        action is Discard <==> packet@ is Unknown,
{
    match packet {
        USRPPacket::Audio(packet) => RelayAction::Play(packet.audio),
        USRPPacket::Start(_) => RelayAction::Idle,
        USRPPacket::End(_) => RelayAction::Idle,
        USRPPacket::Unknown(_) => RelayAction::Discard,
    }
}

/// Mono audio as interleaved stereo: each sample stands for both channels.
pub open spec fn upmix(mono: Seq<i16>) -> Seq<i16> {
    Seq::new(2 * mono.len(), |i: int| mono[i / 2])
}

/// The byte stream for the voice channel: interleaved stereo, two bytes a
/// sample, low byte first.
pub open spec fn stereo_stream(mono: Seq<i16>) -> Seq<u8> {
    samples_le_bytes(upmix(mono))
}

/// Turns converted mono audio into the byte stream that the voice channel
/// plays.
pub fn stereo_bytes(mono: &[i16]) -> (bytes: Vec<u8>)
    ensures
        bytes@ == stereo_stream(mono@),
{
    let mut stereo: Vec<i16> = Vec::new();
    let mut at: usize = 0;
    while at < mono.len()
        invariant
            at <= mono@.len(),
            stereo@ == upmix(mono@).subrange(0, 2 * at),
        decreases mono@.len() - at,
    {
        let sample = mono[at];
        stereo.push(sample);
        stereo.push(sample);
        at = at + 1;
        assert(stereo@ =~= upmix(mono@).subrange(0, 2 * at));
    }
    assert(stereo@ =~= upmix(mono@));
    samples_to_le(stereo.as_slice())
}

/// Each mono sample takes four bytes of the stream.
pub proof fn lemma_stereo_stream_len(mono: Seq<i16>)
    ensures
        stereo_stream(mono).len() == 4 * mono.len(),
{
}

} // verus!
