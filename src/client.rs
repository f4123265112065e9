use vstd::prelude::*;
use vstd::bytes::spec_u32_from_le_bytes;
use vstd::bytes::spec_u32_to_le_bytes;
use vstd::bytes::spec_u64_from_le_bytes;
use vstd::bytes::u32_from_le_bytes;
use vstd::bytes::u32_to_le_bytes;
use vstd::bytes::u64_from_le_bytes;
use vstd::utf8::decode_utf8;
use vstd::utf8::valid_utf8;

use crate::error::DobotError;
use crate::layout::{le_words, record_words};
use crate::protocol::{CommandView, PayloadStruct, ReadWrite};
use crate::records::{
    words_result, ArmOrientation, IoLevel, JogCommand, JogCommandType, JogCommonParams,
    JogJointParams, Pose, PtpCommand, PtpCommonParams, PtpCoordinateParams, PtpJointParams,
    PtpJumpParams,
};
use crate::traits::Device;

verus! {

/// Relies on `String::from_utf8`: it accepts exactly the valid UTF-8 byte strings and
/// returns the characters they encode.
#[verifier::external_body]
fn utf8_string(b: Vec<u8>) -> (r: Option<String>)
    ensures
        match r {
            Some(s) => valid_utf8(b@) && s@ == decode_utf8(b@),
            None => !valid_utf8(b@),
        },
{
    String::from_utf8(b).ok()
}

/// Parameter bytes of a reply to the command `id`; a reply that echoes another id is a
/// protocol violation.
pub open spec fn reply_params(id: u8, reply: Result<PayloadStruct, DobotError>) -> Result<
    Seq<u8>,
    DobotError,
> {
    match reply {
        Err(e) => Err(e),
        Ok(p) => if p.id == id {
            Ok(p.params@)
        } else {
            Err(DobotError::IdMismatch)
        },
    }
}

/// Outcome of an immediate write: the reply's payload is discarded.
pub open spec fn write_outcome(id: u8, reply: Result<PayloadStruct, DobotError>) -> Result<
    (),
    DobotError,
> {
    match reply_params(id, reply) {
        Err(e) => Err(e),
        Ok(_) => Ok(()),
    }
}

/// A queue index: exactly eight little-endian bytes.
pub open spec fn queue_index_of(b: Seq<u8>) -> Result<u64, DobotError> {
    if b.len() == 8 {
        Ok(spec_u64_from_le_bytes(b))
    } else {
        Err(DobotError::Decode)
    }
}

/// Outcome of a queued write: the index that the controller gave the command.
pub open spec fn queued_outcome(id: u8, reply: Result<PayloadStruct, DobotError>) -> Result<
    u64,
    DobotError,
> {
    match reply_params(id, reply) {
        Err(e) => Err(e),
        Ok(b) => queue_index_of(b),
    }
}

/// A count of free queue slots: exactly four little-endian bytes.
pub open spec fn left_space_of(b: Seq<u8>) -> Result<u32, DobotError> {
    if b.len() == 4 {
        Ok(spec_u32_from_le_bytes(b))
    } else {
        Err(DobotError::Decode)
    }
}

/// An arm orientation: exactly one byte, zero for lefty.
pub open spec fn orientation_of(b: Seq<u8>) -> Result<ArmOrientation, DobotError> {
    if b.len() == 1 {
        Ok(ArmOrientation::spec_from_code(b[0]))
    } else {
        Err(DobotError::Decode)
    }
}

/// Outcome of reading a record of `n` words with the command `id`.
pub open spec fn record_outcome(id: u8, n: nat, reply: Result<PayloadStruct, DobotError>) -> Result<
    Seq<u32>,
    DobotError,
> {
    match reply_params(id, reply) {
        Err(e) => Err(e),
        Ok(b) => record_words(b, n),
    }
}

/// The bytes of a result, or the error.
pub open spec fn bytes_result(r: Result<Vec<u8>, DobotError>) -> Result<Seq<u8>, DobotError> {
    match r {
        Ok(b) => Ok(b@),
        Err(e) => Err(e),
    }
}

/// The text of a result, or the error.
pub open spec fn text_result(r: Result<String, DobotError>) -> Result<Seq<char>, DobotError> {
    match r {
        Ok(s) => Ok(s@),
        Err(e) => Err(e),
    }
}

/// Checks that a reply echoes the id of its request.
pub fn check_id(payload: &PayloadStruct, ref_id: u8) -> (r: Result<(), DobotError>)
    ensures
        r == if payload.id == ref_id {
            Ok::<(), DobotError>(())
        } else {
            Err(DobotError::IdMismatch)
        },
{
    if payload.id != ref_id {
        return Err(DobotError::IdMismatch);
    }
    Ok(())
}

/// A write command with the given id, parameters and queued flag.
pub fn write_request(id: u8, params: Vec<u8>, queued: bool) -> (r: PayloadStruct)
    ensures
        r@ == (CommandView { id: id, rw: ReadWrite::WRITE, queued: queued, params: params@ }),
{
    let p = PayloadStruct::with_id(id).set_write().set_params(params);
    if queued {
        p.set_queued()
    } else {
        p
    }
}

/// Parameter bytes of the reply to the command `id`.
pub fn check_reply(reply: &Result<PayloadStruct, DobotError>, id: u8) -> (r: Result<
    Vec<u8>,
    DobotError,
>)
    ensures
        bytes_result(r) == reply_params(id, *reply),
{
    match reply {
        Err(e) => Err(*e),
        Ok(p) => match check_id(p, id) {
            Err(e) => Err(e),
            Ok(()) => Ok(p.params.clone()),
        },
    }
}

/// Outcome of an immediate write, from the reply to the command `id`.
pub fn check_write_reply(reply: &Result<PayloadStruct, DobotError>, id: u8) -> (r: Result<
    (),
    DobotError,
>)
    ensures
        r == write_outcome(id, *reply),
{
    match reply {
        Err(e) => Err(*e),
        Ok(p) => check_id(p, id),
    }
}

/// Queue index carried by a reply's parameters.
pub fn queue_index_from_params(b: &[u8]) -> (r: Result<u64, DobotError>)
    ensures
        r == queue_index_of(b@),
{
    if b.len() != 8 {
        return Err(DobotError::Decode);
    }
    Ok(u64_from_le_bytes(b))
}

/// Outcome of a queued write, from the reply to the command `id`.
pub fn check_queued_reply(reply: &Result<PayloadStruct, DobotError>, id: u8) -> (r: Result<
    u64,
    DobotError,
>)
    ensures
        r == queued_outcome(id, *reply),
{
    match check_reply(reply, id) {
        Err(e) => Err(e),
        Ok(b) => queue_index_from_params(b.as_slice()),
    }
}

/// Free queue slots carried by a reply's parameters.
pub fn left_space_from_params(b: &[u8]) -> (r: Result<u32, DobotError>)
    ensures
        r == left_space_of(b@),
{
    if b.len() != 4 {
        return Err(DobotError::Decode);
    }
    Ok(u32_from_le_bytes(b))
}

/// Arm orientation carried by a reply's parameters.
pub fn arm_orientation_from_params(b: &[u8]) -> (r: Result<ArmOrientation, DobotError>)
    ensures
        r == orientation_of(b@),
{
    if b.len() != 1 {
        return Err(DobotError::Decode);
    }
    Ok(ArmOrientation::from_code(b[0]))
}

/// Serial number carried by a reply's parameters, which must be UTF-8.
pub fn device_sn_from_params(b: Vec<u8>) -> (r: Result<String, DobotError>)
    ensures
        text_result(r) == if valid_utf8(b@) {
            Ok(decode_utf8(b@))
        } else {
            Err(DobotError::Decode)
        },
{
    match utf8_string(b) {
        Some(s) => Ok(s),
        None => Err(DobotError::Decode),
    }
}

/// A reply that echoes another id than the one requested is refused with `IdMismatch`,
/// however well framed it is, whether the write was immediate or queued, or a read.
pub proof fn lemma_id_enforcement(id: u8, reply: PayloadStruct)
    requires
        reply.id != id,
    ensures
        write_outcome(id, Ok(reply)) == Err::<(), DobotError>(DobotError::IdMismatch),
        queued_outcome(id, Ok(reply)) == Err::<u64, DobotError>(DobotError::IdMismatch),
        reply_params(id, Ok(reply)) == Err::<Seq<u8>, DobotError>(DobotError::IdMismatch),
{
}

/// Outcome of reading the free queue slots.
pub open spec fn left_space_outcome(reply: Result<PayloadStruct, DobotError>) -> Result<
    u32,
    DobotError,
> {
    match reply_params(247, reply) {
        Err(e) => Err(e),
        Ok(b) => left_space_of(b),
    }
}

/// Outcome of reading the arm orientation.
pub open spec fn orientation_outcome(reply: Result<PayloadStruct, DobotError>) -> Result<
    ArmOrientation,
    DobotError,
> {
    match reply_params(50, reply) {
        Err(e) => Err(e),
        Ok(b) => orientation_of(b),
    }
}

/// Outcome of reading the device serial number.
pub open spec fn sn_outcome(reply: Result<PayloadStruct, DobotError>) -> Result<
    Seq<char>,
    DobotError,
> {
    match reply_params(0, reply) {
        Err(e) => Err(e),
        Ok(b) => if valid_utf8(b) {
            Ok(decode_utf8(b))
        } else {
            Err(DobotError::Decode)
        },
    }
}

/// The write command `id` with the given parameters.
pub open spec fn write_command(id: u8, params: Seq<u8>, queued: bool) -> CommandView {
    CommandView { id: id, rw: ReadWrite::WRITE, queued: queued, params: params }
}

/// The read command `id`: no parameters, never queued.
pub open spec fn read_command(id: u8) -> CommandView {
    CommandView { id: id, rw: ReadWrite::READ, queued: false, params: Seq::empty() }
}

/// One round trip: the command handed to the transport and what the transport returned.
pub type Exchange = (CommandView, Result<PayloadStruct, DobotError>);

/// Typed access to the controller over one transport: one round trip per call.
///
/// Each operation hands exactly one command to the transport and decodes the one reply it
/// gets back. The client keeps, as ghost state, the log of every round trip it has made;
/// each contract says which single entry the call appends and how the result follows from
/// the reply in it.
pub struct DobotClient<T: Device> {
    device: T,
    exchanges: Ghost<Seq<Exchange>>,
}

impl<T: Device> DobotClient<T> {
    /// Every round trip made through this client, oldest first.
    pub closed spec fn log(&self) -> Seq<Exchange> {
        self.exchanges@
    }

    /// What the transport returned in the latest round trip.
    pub open spec fn reply(&self) -> Result<PayloadStruct, DobotError> {
        self.log().last().1
    }

    pub fn new(device: T) -> (r: Self)
        ensures
            r.log() == Seq::<Exchange>::empty(),
    {
        Self { device, exchanges: Ghost(Seq::empty()) }
    }

    /// Hands `request` to the transport once and logs the exchange.
    fn round_trip(&mut self, request: PayloadStruct) -> (reply: Result<PayloadStruct, DobotError>)
        ensures
            final(self).log() == old(self).log().push((request@, reply)),
    {
        let ghost sent = request@;
        let reply = self.device.send(request);
        let ghost entry: Exchange = (sent, reply);
        self.exchanges = Ghost(self.exchanges@.push(entry));
        reply
    }

    fn write_params(&mut self, id: u8, params: Vec<u8>) -> (r: Result<(), DobotError>)
        ensures
            final(self).log() == old(self).log().push(
                (write_command(id, params@, false), final(self).reply()),
            ),
            r == write_outcome(id, final(self).reply()),
    {
        let reply = self.round_trip(write_request(id, params, false));
        check_write_reply(&reply, id)
    }

    fn write_queued_params(&mut self, id: u8, params: Vec<u8>) -> (r: Result<u64, DobotError>)
        ensures
            final(self).log() == old(self).log().push(
                (write_command(id, params@, true), final(self).reply()),
            ),
            r == queued_outcome(id, final(self).reply()),
    {
        let reply = self.round_trip(write_request(id, params, true));
        check_queued_reply(&reply, id)
    }

    fn read_params(&mut self, id: u8) -> (r: Result<Vec<u8>, DobotError>)
        ensures
            final(self).log() == old(self).log().push(
                (read_command(id), final(self).reply()),
            ),
            bytes_result(r) == reply_params(id, final(self).reply()),
    {
        let reply = self.round_trip(PayloadStruct::with_id(id));
        check_reply(&reply, id)
    }

    pub fn get_device_sn(&mut self) -> (r: Result<String, DobotError>)
        ensures
            final(self).log() == old(self).log().push(
                (read_command(0), final(self).reply()),
            ),
            text_result(r) == sn_outcome(final(self).reply()),
    {
        match self.read_params(0) {
            Err(e) => Err(e),
            Ok(b) => device_sn_from_params(b),
        }
    }

    pub fn get_alarm_state(&mut self) -> (r: Result<Vec<u8>, DobotError>)
        ensures
            final(self).log() == old(self).log().push(
                (read_command(20), final(self).reply()),
            ),
            bytes_result(r) == reply_params(20, final(self).reply()),
    {
        self.read_params(20)
    }

    pub fn clear_all_alarm_state(&mut self) -> (r: Result<(), DobotError>)
        ensures
            final(self).log() == old(self).log().push(
                (write_command(20, Seq::empty(), false), final(self).reply()),
            ),
            r == write_outcome(20, final(self).reply()),
    {
        let params: Vec<u8> = Vec::new();
        self.write_params(20, params)
    }

    pub fn get_pose(&mut self) -> (r: Result<Pose, DobotError>)
        ensures
            final(self).log() == old(self).log().push(
                (read_command(10), final(self).reply()),
            ),
            words_result(r) == record_outcome(10, 8, final(self).reply()),
    {
        match self.read_params(10) {
            Err(e) => Err(e),
            Ok(b) => Pose::from_bytes(b.as_slice()),
        }
    }

    pub fn get_jog_joint_params(&mut self) -> (r: Result<JogJointParams, DobotError>)
        ensures
            final(self).log() == old(self).log().push(
                (read_command(70), final(self).reply()),
            ),
            words_result(r) == record_outcome(70, 8, final(self).reply()),
    {
        match self.read_params(70) {
            Err(e) => Err(e),
            Ok(b) => JogJointParams::from_bytes(b.as_slice()),
        }
    }

    pub fn set_jog_joint_params(&mut self, params: JogJointParams) -> (r: Result<(), DobotError>)
        ensures
            final(self).log() == old(self).log().push(
                (write_command(70, le_words(params@), false), final(self).reply()),
            ),
            r == write_outcome(70, final(self).reply()),
    {
        self.write_params(70, params.to_bytes())
    }

    pub fn get_jog_common_params(&mut self) -> (r: Result<JogCommonParams, DobotError>)
        ensures
            final(self).log() == old(self).log().push(
                (read_command(72), final(self).reply()),
            ),
            words_result(r) == record_outcome(72, 2, final(self).reply()),
    {
        match self.read_params(72) {
            Err(e) => Err(e),
            Ok(b) => JogCommonParams::from_bytes(b.as_slice()),
        }
    }

    pub fn set_jog_common_params(&mut self, params: JogCommonParams) -> (r: Result<(), DobotError>)
        ensures
            final(self).log() == old(self).log().push(
                (write_command(72, le_words(params@), false), final(self).reply()),
            ),
            r == write_outcome(72, final(self).reply()),
    {
        self.write_params(72, params.to_bytes())
    }

    pub fn set_jog_command(&mut self, mode: JogCommandType, cmd: JogCommand) -> (r: Result<(), DobotError>)
        ensures
            final(self).log() == old(self).log().push(
                (write_command(73, seq![mode.spec_code(), cmd.spec_code()], false), final(self).reply()),
            ),
            r == write_outcome(73, final(self).reply()),
    {
        self.write_params(73, two_bytes(mode.code(), cmd.code()))
    }

    pub fn get_ptp_joint_params(&mut self) -> (r: Result<PtpJointParams, DobotError>)
        ensures
            final(self).log() == old(self).log().push(
                (read_command(80), final(self).reply()),
            ),
            words_result(r) == record_outcome(80, 8, final(self).reply()),
    {
        match self.read_params(80) {
            Err(e) => Err(e),
            Ok(b) => PtpJointParams::from_bytes(b.as_slice()),
        }
    }

    pub fn set_ptp_joint_params(&mut self, params: PtpJointParams) -> (r: Result<(), DobotError>)
        ensures
            final(self).log() == old(self).log().push(
                (write_command(80, le_words(params@), false), final(self).reply()),
            ),
            r == write_outcome(80, final(self).reply()),
    {
        self.write_params(80, params.to_bytes())
    }

    pub fn get_ptp_coordinate_params(&mut self) -> (r: Result<PtpCoordinateParams, DobotError>)
        ensures
            final(self).log() == old(self).log().push(
                (read_command(81), final(self).reply()),
            ),
            words_result(r) == record_outcome(81, 4, final(self).reply()),
    {
        match self.read_params(81) {
            Err(e) => Err(e),
            Ok(b) => PtpCoordinateParams::from_bytes(b.as_slice()),
        }
    }

    pub fn set_ptp_coordinate_params(&mut self, params: PtpCoordinateParams) -> (r: Result<(), DobotError>)
        ensures
            final(self).log() == old(self).log().push(
                (write_command(81, le_words(params@), false), final(self).reply()),
            ),
            r == write_outcome(81, final(self).reply()),
    {
        self.write_params(81, params.to_bytes())
    }

    pub fn get_ptp_jump_params(&mut self) -> (r: Result<PtpJumpParams, DobotError>)
        ensures
            final(self).log() == old(self).log().push(
                (read_command(82), final(self).reply()),
            ),
            words_result(r) == record_outcome(82, 3, final(self).reply()),
    {
        match self.read_params(82) {
            Err(e) => Err(e),
            Ok(b) => PtpJumpParams::from_bytes(b.as_slice()),
        }
    }

    pub fn set_ptp_jump_params(&mut self, params: PtpJumpParams) -> (r: Result<(), DobotError>)
        ensures
            final(self).log() == old(self).log().push(
                (write_command(82, le_words(params@), false), final(self).reply()),
            ),
            r == write_outcome(82, final(self).reply()),
    {
        self.write_params(82, params.to_bytes())
    }

    pub fn get_ptp_common_params(&mut self) -> (r: Result<PtpCommonParams, DobotError>)
        ensures
            final(self).log() == old(self).log().push(
                (read_command(83), final(self).reply()),
            ),
            words_result(r) == record_outcome(83, 2, final(self).reply()),
    {
        match self.read_params(83) {
            Err(e) => Err(e),
            Ok(b) => PtpCommonParams::from_bytes(b.as_slice()),
        }
    }

    pub fn set_ptp_common_params(&mut self, params: PtpCommonParams) -> (r: Result<(), DobotError>)
        ensures
            final(self).log() == old(self).log().push(
                (write_command(83, le_words(params@), false), final(self).reply()),
            ),
            r == write_outcome(83, final(self).reply()),
    {
        self.write_params(83, params.to_bytes())
    }

    pub fn set_ptp_command(&mut self, command: PtpCommand) -> (r: Result<(), DobotError>)
        ensures
            final(self).log() == old(self).log().push(
                (write_command(84, command.spec_bytes(), false), final(self).reply()),
            ),
            r == write_outcome(84, final(self).reply()),
    {
        self.write_params(84, command.to_bytes())
    }

    pub fn set_ptp_command_queued(&mut self, command: PtpCommand) -> (r: Result<u64, DobotError>)
        ensures
            final(self).log() == old(self).log().push(
                (write_command(84, command.spec_bytes(), true), final(self).reply()),
            ),
            r == queued_outcome(84, final(self).reply()),
    {
        self.write_queued_params(84, command.to_bytes())
    }

    // address is 1 to 22; the air pump is on 18
    pub fn set_iodo(&mut self, address: u8, level: IoLevel) -> (r: Result<(), DobotError>)
        ensures
            final(self).log() == old(self).log().push(
                (write_command(131, seq![address, level.spec_code()], false), final(self).reply()),
            ),
            r == write_outcome(131, final(self).reply()),
    {
        self.write_params(131, two_bytes(address, level.code()))
    }

    pub fn set_iodo_queued(&mut self, address: u8, level: IoLevel) -> (r: Result<u64, DobotError>)
        ensures
            final(self).log() == old(self).log().push(
                (write_command(131, seq![address, level.spec_code()], true), final(self).reply()),
            ),
            r == queued_outcome(131, final(self).reply()),
    {
        self.write_queued_params(131, two_bytes(address, level.code()))
    }

    pub fn set_wait_command(&mut self, wait_ms: u32) -> (r: Result<(), DobotError>)
        ensures
            final(self).log() == old(self).log().push(
                (write_command(110, spec_u32_to_le_bytes(wait_ms), false), final(self).reply()),
            ),
            r == write_outcome(110, final(self).reply()),
    {
        self.write_params(110, u32_to_le_bytes(wait_ms))
    }

    pub fn set_wait_command_queued(&mut self, wait_ms: u32) -> (r: Result<u64, DobotError>)
        ensures
            final(self).log() == old(self).log().push(
                (write_command(110, spec_u32_to_le_bytes(wait_ms), true), final(self).reply()),
            ),
            r == queued_outcome(110, final(self).reply()),
    {
        self.write_queued_params(110, u32_to_le_bytes(wait_ms))
    }

    pub fn set_arm_orientation(&mut self, l_r: ArmOrientation) -> (r: Result<(), DobotError>)
        ensures
            final(self).log() == old(self).log().push(
                (write_command(50, seq![l_r.spec_code()], false), final(self).reply()),
            ),
            r == write_outcome(50, final(self).reply()),
    {
        self.write_params(50, one_byte(l_r.code()))
    }

    pub fn set_arm_orientation_queued(&mut self, l_r: ArmOrientation) -> (r: Result<u64, DobotError>)
        ensures
            final(self).log() == old(self).log().push(
                (write_command(50, seq![l_r.spec_code()], true), final(self).reply()),
            ),
            r == queued_outcome(50, final(self).reply()),
    {
        self.write_queued_params(50, one_byte(l_r.code()))
    }

    pub fn set_queued_command_start_exec(&mut self) -> (r: Result<(), DobotError>)
        ensures
            final(self).log() == old(self).log().push(
                (write_command(240, Seq::empty(), false), final(self).reply()),
            ),
            r == write_outcome(240, final(self).reply()),
    {
        let params: Vec<u8> = Vec::new();
        self.write_params(240, params)
    }

    pub fn set_queued_command_stop_exec(&mut self) -> (r: Result<(), DobotError>)
        ensures
            final(self).log() == old(self).log().push(
                (write_command(241, Seq::empty(), false), final(self).reply()),
            ),
            r == write_outcome(241, final(self).reply()),
    {
        let params: Vec<u8> = Vec::new();
        self.write_params(241, params)
    }

    pub fn set_queued_command_force_stop_exec(&mut self) -> (r: Result<(), DobotError>)
        ensures
            final(self).log() == old(self).log().push(
                (write_command(242, Seq::empty(), false), final(self).reply()),
            ),
            r == write_outcome(242, final(self).reply()),
    {
        let params: Vec<u8> = Vec::new();
        self.write_params(242, params)
    }

    pub fn set_queued_command_clear(&mut self) -> (r: Result<(), DobotError>)
        ensures
            final(self).log() == old(self).log().push(
                (write_command(245, Seq::empty(), false), final(self).reply()),
            ),
            r == write_outcome(245, final(self).reply()),
    {
        let params: Vec<u8> = Vec::new();
        self.write_params(245, params)
    }

    pub fn get_queued_command_current_index(&mut self) -> (r: Result<u64, DobotError>)
        ensures
            final(self).log() == old(self).log().push(
                (read_command(246), final(self).reply()),
            ),
            r == queued_outcome(246, final(self).reply()),
    {
        match self.read_params(246) {
            Err(e) => Err(e),
            Ok(b) => queue_index_from_params(b.as_slice()),
        }
    }

    pub fn get_queued_command_left_space(&mut self) -> (r: Result<u32, DobotError>)
        ensures
            final(self).log() == old(self).log().push(
                (read_command(247), final(self).reply()),
            ),
            r == left_space_outcome(final(self).reply()),
    {
        match self.read_params(247) {
            Err(e) => Err(e),
            Ok(b) => left_space_from_params(b.as_slice()),
        }
    }

    pub fn get_arm_orientation(&mut self) -> (r: Result<ArmOrientation, DobotError>)
        ensures
            final(self).log() == old(self).log().push(
                (read_command(50), final(self).reply()),
            ),
            r == orientation_outcome(final(self).reply()),
    {
        match self.read_params(50) {
            Err(e) => Err(e),
            Ok(b) => arm_orientation_from_params(b.as_slice()),
        }
    }
}

fn one_byte(a: u8) -> (r: Vec<u8>)
    ensures
        r@ == seq![a],
{
    let mut v: Vec<u8> = Vec::new();
    v.push(a);
    v
}

fn two_bytes(a: u8, b: u8) -> (r: Vec<u8>)
    ensures
        r@ == seq![a, b],
{
    let mut v: Vec<u8> = Vec::new();
    v.push(a);
    v.push(b);
    assert(v@ =~= seq![a, b]);
    v
}

} // verus!
