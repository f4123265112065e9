use vstd::prelude::*;
use vstd::slice::slice_subrange;
use vstd::slice::slice_to_vec;

use crate::error::DobotError;

verus! {

/// Direction of a command: bit 0 of the control byte.
#[derive(Clone, Copy, Debug, PartialEq, Eq, Structural)]
pub enum ReadWrite {
    READ,
    WRITE,
}

impl ReadWrite {
    /// Value of the direction bit.
    pub open spec fn spec_bit(self) -> u8 {
        match self {
            ReadWrite::READ => 0,
            ReadWrite::WRITE => 1,
        }
    }

    /// Direction named by the lowest bit of `b`.
    pub open spec fn spec_from_bit(b: u8) -> ReadWrite {
        if b == 1 {
            ReadWrite::WRITE
        } else {
            ReadWrite::READ
        }
    }
}

impl From<u8> for ReadWrite {
    fn from(rw: u8) -> (r: ReadWrite) {
        if rw == 1 {
            ReadWrite::WRITE
        } else {
            ReadWrite::READ
        }
    }
}

impl vstd::std_specs::convert::FromSpecImpl<u8> for ReadWrite {
    open spec fn obeys_from_spec() -> bool {
        true
    }

    open spec fn from_spec(rw: u8) -> ReadWrite {
        ReadWrite::spec_from_bit(rw)
    }
}

/// Mathematical content of a command: what travels between `0xAA 0xAA len` and the checksum.
pub struct CommandView {
    pub id: u8,
    pub rw: ReadWrite,
    pub queued: bool,
    pub params: Seq<u8>,
}

/// One logical command or reply.
#[derive(Clone, Debug)]
pub struct PayloadStruct {
    pub id: u8,
    pub rw: ReadWrite,
    pub is_queued: bool,
    pub params: Vec<u8>,
}

impl View for PayloadStruct {
    type V = CommandView;

    open spec fn view(&self) -> CommandView {
        CommandView { id: self.id, rw: self.rw, queued: self.is_queued, params: self.params@ }
    }
}

/// Sum of all bytes, without wraparound.
pub open spec fn byte_sum(s: Seq<u8>) -> nat
    decreases s.len(),
{
    if s.len() == 0 {
        0
    } else {
        byte_sum(s.drop_last()) + s.last() as nat
    }
}

/// Two's complement of `v` modulo 256.
pub open spec fn complement(v: u8) -> u8 {
    ((256 - v) % 256) as u8
}

/// The frame checksum of the covered bytes `s`.
pub open spec fn checksum(s: Seq<u8>) -> u8 {
    complement((byte_sum(s) % 256) as u8)
}

/// Control byte: bit 0 is the direction, bit 1 the queued flag.
pub open spec fn ctrl_byte(rw: ReadWrite, queued: bool) -> u8 {
    (rw.spec_bit() + if queued { 2u8 } else { 0u8 }) as u8
}

/// Bytes covered by the checksum: `id`, `ctrl`, `params`.
pub open spec fn frame_body(c: CommandView) -> Seq<u8> {
    seq![c.id, ctrl_byte(c.rw, c.queued)] + c.params
}

/// The wire frame of a command: `0xAA 0xAA len id ctrl params.. checksum`.
/// The length byte is `params.len() + 2`, kept to its low eight bits.
pub open spec fn frame(c: CommandView) -> Seq<u8> {
    seq![0xAAu8, 0xAAu8, ((c.params.len() + 2) % 256) as u8] + frame_body(c) + seq![
        checksum(frame_body(c)),
    ]
}

/// What the first three bytes of a frame say: the parameter count, or why they are wrong.
pub open spec fn payload_size(s: Seq<u8>) -> Result<usize, DobotError> {
    if (s.len() >= 1 && s[0] != 0xAA) || (s.len() >= 2 && s[1] != 0xAA) {
        Err(DobotError::Framing)
    } else if s.len() < 3 {
        Err(DobotError::TruncatedFrame)
    } else if s[2] < 2 {
        Err(DobotError::Framing)
    } else {
        Ok((s[2] - 2) as usize)
    }
}

/// The command that a received buffer holds, or the first rule it breaks.
pub open spec fn parse_frame(s: Seq<u8>) -> Result<CommandView, DobotError> {
    match payload_size(s) {
        Err(e) => Err(e),
        Ok(n) => if s.len() < n + 6 {
            Err(DobotError::TruncatedFrame)
        } else if checksum(s.subrange(3, n + 5)) != s[n + 5] {
            Err(DobotError::Checksum)
        } else {
            Ok(
                CommandView {
                    id: s[3],
                    rw: ReadWrite::spec_from_bit((s[4] % 2) as u8),
                    queued: (s[4] / 2) % 2 == 1,
                    params: s.subrange(5, n + 5),
                },
            )
        },
    }
}

/// The view of a decoded command, or the error.
pub open spec fn view_result(r: Result<PayloadStruct, DobotError>) -> Result<
    CommandView,
    DobotError,
> {
    match r {
        Ok(p) => Ok(p@),
        Err(e) => Err(e),
    }
}

pub fn calc_complement(val: u8) -> (r: u8)
    ensures
        r == complement(val),
{
    ((256u16 - val as u16) % 256) as u8
}

pub fn calc_sum(vals: &[u8]) -> (r: u8)
    ensures
        r == byte_sum(vals@) % 256,
{
    let mut sum: u8 = 0;
    let mut i: usize = 0;
    while i < vals.len()
        invariant
            i <= vals@.len(),
            sum == byte_sum(vals@.subrange(0, i as int)) % 256,
        decreases vals@.len() - i,
    {
        proof {
            assert(vals@.subrange(0, i + 1).drop_last() =~= vals@.subrange(0, i as int));
        }
        sum = ((sum as u16 + vals[i] as u16) % 256) as u8;
        i += 1;
    }
    proof {
        assert(vals@.subrange(0, vals@.len() as int) =~= vals@);
    }
    sum
}

pub fn calc_checksum(vals: &[u8]) -> (r: u8)
    ensures
        r == checksum(vals@),
{
    calc_complement(calc_sum(vals))
}

/// Checks the two header bytes and the length byte of a frame and returns the number of
/// parameter bytes that the frame announces.
pub fn check_header_and_get_payload_size(packet: &[u8]) -> (r: Result<usize, DobotError>)
    ensures
        r == payload_size(packet@),
{
    if (packet.len() >= 1 && packet[0] != 0xAA) || (packet.len() >= 2 && packet[1] != 0xAA) {
        return Err(DobotError::Framing);
    }
    if packet.len() < 3 {
        return Err(DobotError::TruncatedFrame);
    }
    if packet[2] < 2 {
        return Err(DobotError::Framing);
    }
    Ok(packet[2] as usize - 2)
}

impl Default for PayloadStruct {
    fn default() -> (r: Self)
        ensures
            r@ == (CommandView {
                id: 0,
                rw: ReadWrite::READ,
                queued: false,
                params: Seq::empty(),
            }),
    {
        Self::new()
    }
}

impl PayloadStruct {
    pub fn new() -> (r: Self)
        ensures
            r@ == (CommandView {
                id: 0,
                rw: ReadWrite::READ,
                queued: false,
                params: Seq::empty(),
            }),
    {
        Self::with_id(0)
    }

    pub fn with_id(id: u8) -> (r: Self)
        ensures
            r@ == (CommandView {
                id: id,
                rw: ReadWrite::READ,
                queued: false,
                params: Seq::empty(),
            }),
    {
        PayloadStruct { id: id, rw: ReadWrite::READ, is_queued: false, params: Vec::new() }
    }

    pub fn set_write(self) -> (r: Self)
        ensures
            r@ == (CommandView { rw: ReadWrite::WRITE, ..self@ }),
    {
        let mut s = self;
        s.rw = ReadWrite::WRITE;
        s
    }

    pub fn set_queued(self) -> (r: Self)
        ensures
            r@ == (CommandView { queued: true, ..self@ }),
    {
        let mut s = self;
        s.is_queued = true;
        s
    }

    pub fn set_params(self, params: Vec<u8>) -> (r: Self)
        ensures
            r@ == (CommandView { params: params@, ..self@ }),
    {
        let mut s = self;
        s.params = params;
        s
    }

    /// Encodes the command as a wire frame.
    pub fn serialize(self) -> (r: Vec<u8>)
        ensures
            r@ == frame(self@),
    {
        let ghost c = self@;
        let mut params = self.params;
        let queue_bit: u8 = if self.is_queued {
            2
        } else {
            0
        };
        let rw_bit: u8 = match self.rw {
            ReadWrite::READ => 0,
            ReadWrite::WRITE => 1,
        };
        let ctrl: u8 = rw_bit + queue_bit;
        let len: u8 = ((params.len() % 256 + 2) % 256) as u8;
        let mut payload: Vec<u8> = Vec::new();
        payload.push(self.id);
        payload.push(ctrl);
        payload.append(&mut params);
        assert(payload@ =~= frame_body(c));
        let sum = calc_checksum(payload.as_slice());
        let mut packet: Vec<u8> = Vec::new();
        packet.push(0xAA);
        packet.push(0xAA);
        packet.push(len);
        packet.append(&mut payload);
        packet.push(sum);
        assert(packet@ =~= frame(c));
        packet
    }

    /// Decodes and validates a received frame.
    pub fn deserialize(packet: &[u8]) -> (r: Result<Self, DobotError>)
        ensures
            view_result(r) == parse_frame(packet@),
    {
        let len = match check_header_and_get_payload_size(packet) {
            Ok(n) => n,
            Err(e) => return Err(e),
        };
        // the checksum covers id and ctrl, which follow the three header bytes
        let checksum_start: usize = 3;
        let params_start: usize = checksum_start + 2;
        let params_end: usize = params_start + len;
        if packet.len() < params_end + 1 {
            return Err(DobotError::TruncatedFrame);
        }
        let sum = calc_checksum(slice_subrange(packet, checksum_start, params_end));
        if sum != packet[params_end] {
            return Err(DobotError::Checksum);
        }
        let ctrl = packet[4];
        Ok(
            PayloadStruct {
                id: packet[3],
                rw: ReadWrite::from(ctrl % 2),
                is_queued: (ctrl / 2) % 2 == 1,
                params: slice_to_vec(slice_subrange(packet, params_start, params_end)),
            },
        )
    }
}

/// Appending a frame's checksum to the bytes it covers brings their checksum to zero.
pub proof fn lemma_checksum_self_inverse(b: Seq<u8>)
    ensures
        checksum(b.push(checksum(b))) == 0,
{
    assert(b.push(checksum(b)).drop_last() =~= b);
}

/// The control byte of a serialized command is its direction bit plus two when queued.
pub proof fn lemma_control_byte(c: CommandView)
    ensures
        frame(c)[4] == c.rw.spec_bit() + if c.queued {
            2u8
        } else {
            0u8
        },
        c.queued && c.rw == ReadWrite::READ ==> frame(c)[4] == 0b10,
        c.queued && c.rw == ReadWrite::WRITE ==> frame(c)[4] == 0b11,
{
}

/// Decoding the frame of a command with at most 250 parameter bytes gives the command back.
pub proof fn lemma_round_trip(c: CommandView)
    requires
        c.params.len() <= 250,
    ensures
        parse_frame(frame(c)) == Ok::<CommandView, DobotError>(c),
{
    let s = frame(c);
    let n = c.params.len() as int;
    assert(s.subrange(3, n + 5) =~= frame_body(c));
    assert(s.subrange(5, n + 5) =~= c.params);
    let r = parse_frame(s);
    assert(r is Ok);
    let d = r->Ok_0;
    assert(d == c);
}

/// A buffer that does not open with `0xAA 0xAA` is a framing error.
pub proof fn lemma_bad_header(s: Seq<u8>)
    requires
        s.len() >= 2,
        s[0] != 0xAA || s[1] != 0xAA,
    ensures
        parse_frame(s) == Err::<CommandView, DobotError>(DobotError::Framing),
{
}

/// A frame whose length byte claims more bytes than the buffer holds is truncated.
pub proof fn lemma_declared_length_too_long(s: Seq<u8>)
    requires
        s.len() >= 3,
        s[0] == 0xAA,
        s[1] == 0xAA,
        s[2] >= 2,
        s.len() < s[2] + 4,
    ensures
        parse_frame(s) == Err::<CommandView, DobotError>(DobotError::TruncatedFrame),
{
}

/// Changing the trailing byte of the frame of a command with at most 250 parameter bytes
/// makes it a checksum error.
pub proof fn lemma_tampered_checksum(c: CommandView, x: u8)
    requires
        c.params.len() <= 250,
        x != frame(c).last(),
    ensures
        parse_frame(frame(c).update(frame(c).len() - 1, x)) == Err::<CommandView, DobotError>(
            DobotError::Checksum,
        ),
{
    let f = frame(c);
    let t = f.update(f.len() - 1, x);
    let n = c.params.len() as int;
    assert(t.subrange(3, n + 5) =~= frame_body(c));
}

} // verus!
