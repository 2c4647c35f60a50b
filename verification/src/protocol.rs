//! Binary command/response codec for the scanner's vendor-specific protocol.
//!
//! Commands travel in a fixed 31-byte envelope: a command-marker byte,
//! eighteen bytes of zero padding, then the command descriptor (up to
//! twelve bytes), zero-filled to the end. The hardware-status response is
//! decoded bitwise into a [`State`] snapshot.

use vstd::prelude::*;

verus! {

/// First byte of every command envelope.
pub const COMMAND_MARKER: u8 = 0x43;

/// Total size of a command envelope in bytes.
pub const ENVELOPE_LEN: usize = 31;

/// Offset at which the command descriptor is placed inside the envelope.
pub const CDB_OFFSET: usize = 19;

/// The envelope laid out as a sequence: marker byte, zero padding, the
/// descriptor at its fixed offset, zero fill to the end.
pub open spec fn spec_envelope(cdb: Seq<u8>) -> Seq<u8> {
    Seq::new(31, |i: int| {
        if i == 0 {
            0x43u8
        } else if 19 <= i < 19 + cdb.len() {
            cdb[i - 19]
        } else {
            0u8
        }
    })
}

/// Wrap a command descriptor in the fixed 31-byte command envelope.
pub fn envelope(cdb: &[u8]) -> (env: Vec<u8>)
    requires
        cdb@.len() <= 12,
    ensures
        env@ == spec_envelope(cdb@),
        env@.len() == 31,
        env@[0] == 0x43u8,
        forall|i: int| 1 <= i < 19 ==> env@[i] == 0u8,
        forall|i: int| 0 <= i < cdb@.len() ==> env@[19 + i] == cdb@[i],
        forall|i: int| 19 + cdb@.len() <= i < 31 ==> env@[i] == 0u8,
{
    let mut env: Vec<u8> = Vec::new();
    let mut j: usize = 0;
    while j < 31
        invariant
            j <= 31,
            env@.len() == j,
            forall|i: int| 0 <= i < j ==> env@[i] == 0u8,
        decreases 31 - j,
    {
        env.push(0u8);
        j += 1;
    }
    env.set(0, COMMAND_MARKER);
    let mut k: usize = 0;
    while k < cdb.len()
        invariant
            cdb@.len() <= 12,
            k <= cdb@.len(),
            env@.len() == 31,
            env@[0] == 0x43u8,
            forall|i: int| 1 <= i < 19 ==> env@[i] == 0u8,
            forall|i: int| 0 <= i < k ==> env@[19 + i] == cdb@[i],
            forall|i: int| 19 + k <= i < 31 ==> env@[i] == 0u8,
        decreases cdb@.len() - k,
    {
        env.set(19 + k, cdb[k]);
        k += 1;
    }
    proof {
        assert(env@ =~= spec_envelope(cdb@));
    }
    env
}

/// Descriptor of the hardware-status query: its opcode, five zero bytes,
/// the allocation length, and a trailing zero.
pub open spec fn spec_status_query_cdb() -> Seq<u8> {
    seq![0xC2u8, 0u8, 0u8, 0u8, 0u8, 0u8, 0u8, 0u8, 0x0Cu8, 0u8]
}

/// The complete 31-byte command that queries hardware status.
pub fn status_query_command() -> (cmd: Vec<u8>)
    ensures
        cmd@ == spec_envelope(spec_status_query_cdb()),
{
    let mut cdb: Vec<u8> = Vec::new();
    cdb.push(0xC2u8);
    cdb.push(0u8);
    cdb.push(0u8);
    cdb.push(0u8);
    cdb.push(0u8);
    cdb.push(0u8);
    cdb.push(0u8);
    cdb.push(0u8);
    cdb.push(0x0Cu8);
    cdb.push(0u8);
    proof {
        assert(cdb@ =~= spec_status_query_cdb());
    }
    envelope(cdb.as_slice())
}

/// Snapshot of scanner hardware state, decoded from a status response.
#[derive(Debug, Clone, Copy, PartialEq, Eq, Structural)]
pub struct State {
    /// Paper present in the hopper.
    pub paper: bool,
    /// Scan button physically held down (sustained hold or momentary tap).
    pub button: bool,
}

/// Paper is reported inverted: bit 7 of byte 3 set means the hopper is
/// empty, so paper is present exactly when the byte exists and the bit is
/// clear. A short response decodes to "no paper".
pub open spec fn spec_paper_present(buf: Seq<u8>) -> bool {
    buf.len() > 3 && buf[3] & 0x80u8 == 0u8
}

/// The button reads as held when byte 4 exists and either the hold bit
/// (0x20) or the momentary-tap bit (0x01) is set. A short response decodes
/// to "not held".
pub open spec fn spec_button_held(buf: Seq<u8>) -> bool {
    buf.len() > 4 && buf[4] & 0x21u8 != 0u8
}

impl State {
    /// Decode a raw status response. Total: missing bytes yield `false`
    /// for the corresponding field rather than an error.
    pub fn from_response(buf: &[u8]) -> (s: Self)
        ensures
            s.paper == spec_paper_present(buf@),
            s.button == spec_button_held(buf@),
    {
        let paper = buf.len() > 3 && buf[3] & 0x80u8 == 0u8;
        let button = buf.len() > 4 && buf[4] & 0x21u8 != 0u8;
        State { paper, button }
    }
}

/// The envelope layout in full: for any descriptor of up to twelve bytes,
/// the envelope is exactly 31 bytes; its first byte is the command marker;
/// bytes 1 through 18 are zero; the descriptor sits at its fixed offset;
/// and every byte after the descriptor is zero.
pub proof fn lemma_envelope_layout(cdb: Seq<u8>)
    requires
        cdb.len() <= 12,
    ensures
        spec_envelope(cdb).len() == 31,
        spec_envelope(cdb)[0] == 0x43u8,
        forall|i: int| 1 <= i < 19 ==> spec_envelope(cdb)[i] == 0u8,
        forall|i: int| 0 <= i < cdb.len() ==> spec_envelope(cdb)[19 + i] == cdb[i],
        forall|i: int| 19 + cdb.len() <= i < 31 ==> spec_envelope(cdb)[i] == 0u8,
{
}

} // verus!
