pub mod packets;
pub mod round_trip;
pub mod wire;

use vstd::prelude::*;

verus! {

/// The most that is read from the socket for one datagram.
pub const MAX_DATAGRAM: usize = 1024;

/// The value that follows `n` in the sequence numbers of an endpoint, which
/// start again at zero after the largest.
pub open spec fn next_in_sequence(n: u32) -> u32 {
    if n == u32::MAX {
        0u32
    } else {
        (n + 1) as u32
    }
}

/// The sequence number that an endpoint hands out after `calls` earlier
/// calls, when the first call gave `first`.
pub open spec fn sequence_after(first: u32, calls: nat) -> u32
    decreases calls,
{
    if calls == 0 {
        first
    } else {
        next_in_sequence(sequence_after(first, (calls - 1) as nat))
    }
}

/// The state that an endpoint keeps besides its sockets: the next sequence
/// number, shared by every kind of frame that leaves through it.
pub struct USRPClient {
    sequence_number: u32,
}

impl USRPClient {
    /// The sequence number that the next call hands out.
    pub closed spec fn next_sequence(&self) -> u32 {
        self.sequence_number
    }

    /// An endpoint that has sent nothing yet.
    pub fn new() -> (client: Self)
        ensures
            client.next_sequence() == 0,
    {
        USRPClient { sequence_number: 0 }
    }

    /// Where the sending socket binds: any address of the remote's family,
    /// on a port that the system picks.
    pub fn local_bind_address(remote_is_ipv4: bool) -> (address: &'static str)
        ensures
            address@ == if remote_is_ipv4 {
                "0.0.0.0:0"@
            } else {
                "[::]:0"@
            },
    {
        if remote_is_ipv4 {
            "0.0.0.0:0"
        } else {
            "[::]:0"
        }
    }

    /// Hands out the next sequence number and moves on by one, starting
    /// again at zero after the largest.
    pub fn get_and_increment_sequence_number(&mut self) -> (n: u32)
        ensures
            n == old(self).next_sequence(),
            final(self).next_sequence() == next_in_sequence(n),
    {
        let n = self.sequence_number;
        self.sequence_number = n.wrapping_add(1);
        n
    }
}

/// The sequence numbers handed out count up from the first one, modulo two
/// to the 32nd.
pub proof fn lemma_sequence_after(first: u32, calls: nat)
    ensures
        sequence_after(first, calls) == (first + calls) % 0x1_0000_0000,
    decreases calls,
{
    if calls > 0 {
        lemma_sequence_after(first, (calls - 1) as nat);
    }
}

/// As long as the sequence numbers do not start again at zero, each call
/// gets a larger number than every call before it.
pub proof fn lemma_sequence_increases(first: u32, earlier: nat, later: nat)
    requires
        earlier < later,
        first + later <= u32::MAX,
    ensures
        sequence_after(first, earlier) < sequence_after(first, later),
        sequence_after(first, later) == first + later,
{
    lemma_sequence_after(first, earlier);
    lemma_sequence_after(first, later);
}

/// No sequence number is handed out twice within two to the 32nd calls.
pub proof fn lemma_sequence_no_duplicates(first: u32, earlier: nat, later: nat)
    requires
        earlier < later,
        later - earlier < 0x1_0000_0000,
    ensures
        sequence_after(first, earlier) != sequence_after(first, later),
{
    lemma_sequence_after(first, earlier);
    lemma_sequence_after(first, later);
    let a = first + earlier;
    let b = first + later;
    if a % 0x1_0000_0000 == b % 0x1_0000_0000 {
        assert(b - a == 0x1_0000_0000 * (b / 0x1_0000_0000 - a / 0x1_0000_0000));
        assert(false);
    }
}

} // verus!
