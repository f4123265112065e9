use vstd::prelude::*;

use crate::error::DobotError;
use crate::layout::{decode_words, encode_words, le_words, record_words, words_of};

verus! {

// Each 32-bit field below holds the IEEE-754 bit pattern of the firmware's `float` (or a
// plain `u32` where the firmware has one); records travel as these words, packed
// little-endian in declaration order with no padding.

/// Level of a digital output.
#[derive(Clone, Copy, Debug, PartialEq, Eq, Structural)]
pub enum IoLevel {
    Low,
    High,
}

impl IoLevel {
    pub open spec fn spec_code(self) -> u8 {
        match self {
            IoLevel::Low => 0,
            IoLevel::High => 1,
        }
    }

    /// Byte that the firmware uses for this level.
    pub fn code(self) -> (r: u8)
        ensures
            r == self.spec_code(),
    {
        match self {
            IoLevel::Low => 0,
            IoLevel::High => 1,
        }
    }
}

/// Which of the two kinematic solutions the arm uses.
#[derive(Clone, Copy, Debug, PartialEq, Eq, Structural)]
pub enum ArmOrientation {
    Lefty,
    Righty,
}

impl ArmOrientation {
    pub open spec fn spec_code(self) -> u8 {
        match self {
            ArmOrientation::Lefty => 0,
            ArmOrientation::Righty => 1,
        }
    }

    /// Orientation reported by the byte `b`: zero is lefty, anything else righty.
    pub open spec fn spec_from_code(b: u8) -> ArmOrientation {
        if b == 0 {
            ArmOrientation::Lefty
        } else {
            ArmOrientation::Righty
        }
    }

    pub fn code(self) -> (r: u8)
        ensures
            r == self.spec_code(),
    {
        match self {
            ArmOrientation::Lefty => 0,
            ArmOrientation::Righty => 1,
        }
    }

    pub fn from_code(b: u8) -> (r: ArmOrientation)
        ensures
            r == Self::spec_from_code(b),
    {
        if b == 0 {
            ArmOrientation::Lefty
        } else {
            ArmOrientation::Righty
        }
    }
}

/// Whether a jog moves along Cartesian axes or individual joints.
#[derive(Clone, Copy, Debug, PartialEq, Eq, Structural)]
pub enum JogCommandType {
    Cartesian,
    Joint,
}

impl JogCommandType {
    pub open spec fn spec_code(self) -> u8 {
        match self {
            JogCommandType::Cartesian => 0,
            JogCommandType::Joint => 1,
        }
    }

    pub fn code(self) -> (r: u8)
        ensures
            r == self.spec_code(),
    {
        match self {
            JogCommandType::Cartesian => 0,
            JogCommandType::Joint => 1,
        }
    }
}

/// Jog direction: idle, or a positive/negative move on axis (or joint) A to D.
#[derive(Clone, Copy, Debug, PartialEq, Eq, Structural)]
pub enum JogCommand {
    Idel,
    ApDown,
    AnDown,
    BpDown,
    BnDown,
    CpDown,
    CnDown,
    DpDown,
    DnDown,
}

impl JogCommand {
    pub open spec fn spec_code(self) -> u8 {
        match self {
            JogCommand::Idel => 0,
            JogCommand::ApDown => 1,
            JogCommand::AnDown => 2,
            JogCommand::BpDown => 3,
            JogCommand::BnDown => 4,
            JogCommand::CpDown => 5,
            JogCommand::CnDown => 6,
            JogCommand::DpDown => 7,
            JogCommand::DnDown => 8,
        }
    }

    pub fn code(self) -> (r: u8)
        ensures
            r == self.spec_code(),
    {
        match self {
            JogCommand::Idel => 0,
            JogCommand::ApDown => 1,
            JogCommand::AnDown => 2,
            JogCommand::BpDown => 3,
            JogCommand::BnDown => 4,
            JogCommand::CpDown => 5,
            JogCommand::CnDown => 6,
            JogCommand::DpDown => 7,
            JogCommand::DnDown => 8,
        }
    }
}

/// Interpolation style of a point-to-point move, and how its target is read.
#[derive(Clone, Copy, Debug, PartialEq, Eq, Structural)]
pub enum PtpMode {
    /// Jump; the target is a Cartesian point.
    JumpXyz,
    /// Joint move; the target is a Cartesian point.
    MovjXyz,
    /// Linear move; the target is a Cartesian point.
    MovlXyz,
    /// Jump; the target is given in joint coordinates.
    JumpAngle,
    /// Joint move; the target is given in joint coordinates.
    MovjAngle,
    /// Linear move; the target is given in joint coordinates.
    MovlAngle,
    /// Joint move by an angle increment in joint coordinates.
    MovjInc,
    /// Linear move by a Cartesian increment, in joint coordinates.
    MovlInc,
    /// Joint move by a Cartesian increment.
    MovjXyzInc,
    /// Jump by a Cartesian increment.
    JumpMovlXyz,
}

impl PtpMode {
    pub open spec fn spec_code(self) -> u8 {
        match self {
            PtpMode::JumpXyz => 0,
            PtpMode::MovjXyz => 1,
            PtpMode::MovlXyz => 2,
            PtpMode::JumpAngle => 3,
            PtpMode::MovjAngle => 4,
            PtpMode::MovlAngle => 5,
            PtpMode::MovjInc => 6,
            PtpMode::MovlInc => 7,
            PtpMode::MovjXyzInc => 8,
            PtpMode::JumpMovlXyz => 9,
        }
    }

    pub fn code(self) -> (r: u8)
        ensures
            r == self.spec_code(),
    {
        match self {
            PtpMode::JumpXyz => 0,
            PtpMode::MovjXyz => 1,
            PtpMode::MovlXyz => 2,
            PtpMode::JumpAngle => 3,
            PtpMode::MovjAngle => 4,
            PtpMode::MovlAngle => 5,
            PtpMode::MovjInc => 6,
            PtpMode::MovlInc => 7,
            PtpMode::MovjXyzInc => 8,
            PtpMode::JumpMovlXyz => 9,
        }
    }
}

/// The words of a decoded record, or the error.
pub open spec fn words_result<R: View<V = Seq<u32>>>(r: Result<R, DobotError>) -> Result<
    Seq<u32>,
    DobotError,
> {
    match r {
        Ok(p) => Ok(p@),
        Err(e) => Err(e),
    }
}

/// Current pose: Cartesian `x, y, z, r`, then the four joint angles (32 bytes).
#[derive(Clone, Copy, Debug)]
pub struct Pose {
    pub x: u32,
    pub y: u32,
    pub z: u32,
    pub r: u32,
    pub joint_angles: [u32; 4],
}

impl View for Pose {
    type V = Seq<u32>;

    open spec fn view(&self) -> Seq<u32> {
        seq![self.x, self.y, self.z, self.r] + self.joint_angles@
    }
}

impl Pose {
    pub fn to_bytes(&self) -> (r: Vec<u8>)
        ensures
            r@ == le_words(self@),
    {
        let w = [
            self.x,
            self.y,
            self.z,
            self.r,
            self.joint_angles[0],
            self.joint_angles[1],
            self.joint_angles[2],
            self.joint_angles[3],
        ];
        assert(w@ =~= self@);
        encode_words(&w)
    }

    pub fn from_bytes(b: &[u8]) -> (r: Result<Self, DobotError>)
        ensures
            words_result(r) == record_words(b@, 8),
    {
        if b.len() != 32 {
            return Err(DobotError::Decode);
        }
        let w = decode_words(b);
        let p = Pose {
            x: w[0],
            y: w[1],
            z: w[2],
            r: w[3],
            joint_angles: [w[4], w[5], w[6], w[7]],
        };
        assert(p@ =~= words_of(b@));
        Ok(p)
    }
}

/// Jog speeds per joint: four velocities, then four accelerations (32 bytes).
#[derive(Clone, Copy, Debug)]
pub struct JogJointParams {
    pub velocity: [u32; 4],
    pub acceleration: [u32; 4],
}

impl View for JogJointParams {
    type V = Seq<u32>;

    open spec fn view(&self) -> Seq<u32> {
        self.velocity@ + self.acceleration@
    }
}

impl JogJointParams {
    pub fn to_bytes(&self) -> (r: Vec<u8>)
        ensures
            r@ == le_words(self@),
    {
        let w = [
            self.velocity[0],
            self.velocity[1],
            self.velocity[2],
            self.velocity[3],
            self.acceleration[0],
            self.acceleration[1],
            self.acceleration[2],
            self.acceleration[3],
        ];
        assert(w@ =~= self@);
        encode_words(&w)
    }

    pub fn from_bytes(b: &[u8]) -> (r: Result<Self, DobotError>)
        ensures
            words_result(r) == record_words(b@, 8),
    {
        if b.len() != 32 {
            return Err(DobotError::Decode);
        }
        let w = decode_words(b);
        let p = JogJointParams {
            velocity: [w[0], w[1], w[2], w[3]],
            acceleration: [w[4], w[5], w[6], w[7]],
        };
        assert(p@ =~= words_of(b@));
        Ok(p)
    }
}


/// Jog speed ratios shared by all joints (8 bytes).
#[derive(Clone, Copy, Debug)]
pub struct JogCommonParams {
    pub velocity_ratio: u32,
    pub acceleration_ratio: u32,
}

impl View for JogCommonParams {
    type V = Seq<u32>;

    open spec fn view(&self) -> Seq<u32> {
        seq![self.velocity_ratio, self.acceleration_ratio]
    }
}

impl JogCommonParams {
    pub fn to_bytes(&self) -> (r: Vec<u8>)
        ensures
            r@ == le_words(self@),
    {
        let w = [
            self.velocity_ratio,
            self.acceleration_ratio,
        ];
        assert(w@ =~= self@);
        encode_words(&w)
    }

    pub fn from_bytes(b: &[u8]) -> (r: Result<Self, DobotError>)
        ensures
            words_result(r) == record_words(b@, 2),
    {
        if b.len() != 8 {
            return Err(DobotError::Decode);
        }
        let w = decode_words(b);
        let p = JogCommonParams {
            velocity_ratio: w[0],
            acceleration_ratio: w[1],
        };
        assert(p@ =~= words_of(b@));
        Ok(p)
    }
}

/// Point-to-point speeds per joint: four velocities, then four accelerations (32 bytes).
#[derive(Clone, Copy, Debug)]
pub struct PtpJointParams {
    pub velocity: [u32; 4],
    pub acceleration: [u32; 4],
}

impl View for PtpJointParams {
    type V = Seq<u32>;

    open spec fn view(&self) -> Seq<u32> {
        self.velocity@ + self.acceleration@
    }
}

impl PtpJointParams {
    pub fn to_bytes(&self) -> (r: Vec<u8>)
        ensures
            r@ == le_words(self@),
    {
        let w = [
            self.velocity[0],
            self.velocity[1],
            self.velocity[2],
            self.velocity[3],
            self.acceleration[0],
            self.acceleration[1],
            self.acceleration[2],
            self.acceleration[3],
        ];
        assert(w@ =~= self@);
        encode_words(&w)
    }

    pub fn from_bytes(b: &[u8]) -> (r: Result<Self, DobotError>)
        ensures
            words_result(r) == record_words(b@, 8),
    {
        if b.len() != 32 {
            return Err(DobotError::Decode);
        }
        let w = decode_words(b);
        let p = PtpJointParams {
            velocity: [w[0], w[1], w[2], w[3]],
            acceleration: [w[4], w[5], w[6], w[7]],
        };
        assert(p@ =~= words_of(b@));
        Ok(p)
    }
}


/// Point-to-point Cartesian speeds (16 bytes).
#[derive(Clone, Copy, Debug)]
pub struct PtpCoordinateParams {
    pub xyz_velocity: u32,
    pub r_velocity: u32,
    pub xyz_acceleration: u32,
    pub r_acceleration: u32,
}

impl View for PtpCoordinateParams {
    type V = Seq<u32>;

    open spec fn view(&self) -> Seq<u32> {
        seq![self.xyz_velocity, self.r_velocity, self.xyz_acceleration, self.r_acceleration]
    }
}

impl PtpCoordinateParams {
    pub fn to_bytes(&self) -> (r: Vec<u8>)
        ensures
            r@ == le_words(self@),
    {
        let w = [
            self.xyz_velocity,
            self.r_velocity,
            self.xyz_acceleration,
            self.r_acceleration,
        ];
        assert(w@ =~= self@);
        encode_words(&w)
    }

    pub fn from_bytes(b: &[u8]) -> (r: Result<Self, DobotError>)
        ensures
            words_result(r) == record_words(b@, 4),
    {
        if b.len() != 16 {
            return Err(DobotError::Decode);
        }
        let w = decode_words(b);
        let p = PtpCoordinateParams {
            xyz_velocity: w[0],
            r_velocity: w[1],
            xyz_acceleration: w[2],
            r_acceleration: w[3],
        };
        assert(p@ =~= words_of(b@));
        Ok(p)
    }
}

/// Jump move shape: lift height, z limit, and a reserved word (12 bytes).
#[derive(Clone, Copy, Debug)]
pub struct PtpJumpParams {
    pub jump_height: u32,
    pub z_limit: u32,
    pub dummy: u32,
}

impl View for PtpJumpParams {
    type V = Seq<u32>;

    open spec fn view(&self) -> Seq<u32> {
        seq![self.jump_height, self.z_limit, self.dummy]
    }
}

impl PtpJumpParams {
    pub fn to_bytes(&self) -> (r: Vec<u8>)
        ensures
            r@ == le_words(self@),
    {
        let w = [
            self.jump_height,
            self.z_limit,
            self.dummy,
        ];
        assert(w@ =~= self@);
        encode_words(&w)
    }

    pub fn from_bytes(b: &[u8]) -> (r: Result<Self, DobotError>)
        ensures
            words_result(r) == record_words(b@, 3),
    {
        if b.len() != 12 {
            return Err(DobotError::Decode);
        }
        let w = decode_words(b);
        let p = PtpJumpParams {
            jump_height: w[0],
            z_limit: w[1],
            dummy: w[2],
        };
        assert(p@ =~= words_of(b@));
        Ok(p)
    }
}

/// Point-to-point speed ratios shared by all moves (8 bytes).
#[derive(Clone, Copy, Debug)]
pub struct PtpCommonParams {
    pub velocity_ratio: u32,
    pub acceleration_ratio: u32,
}

impl View for PtpCommonParams {
    type V = Seq<u32>;

    open spec fn view(&self) -> Seq<u32> {
        seq![self.velocity_ratio, self.acceleration_ratio]
    }
}

impl PtpCommonParams {
    pub fn to_bytes(&self) -> (r: Vec<u8>)
        ensures
            r@ == le_words(self@),
    {
        let w = [
            self.velocity_ratio,
            self.acceleration_ratio,
        ];
        assert(w@ =~= self@);
        encode_words(&w)
    }

    pub fn from_bytes(b: &[u8]) -> (r: Result<Self, DobotError>)
        ensures
            words_result(r) == record_words(b@, 2),
    {
        if b.len() != 8 {
            return Err(DobotError::Decode);
        }
        let w = decode_words(b);
        let p = PtpCommonParams {
            velocity_ratio: w[0],
            acceleration_ratio: w[1],
        };
        assert(p@ =~= words_of(b@));
        Ok(p)
    }
}

/// A point-to-point move: the mode byte, then the target `x, y, z, r` (17 bytes).
#[derive(Clone, Copy, Debug)]
pub struct PtpCommand {
    pub ptp_mode: PtpMode,
    pub x: u32,
    pub y: u32,
    pub z: u32,
    pub r: u32,
}

impl PtpCommand {
    /// Wire layout of the move.
    pub open spec fn spec_bytes(self) -> Seq<u8> {
        seq![self.ptp_mode.spec_code()] + le_words(seq![self.x, self.y, self.z, self.r])
    }

    pub fn to_bytes(&self) -> (r: Vec<u8>)
        ensures
            r@ == self.spec_bytes(),
    {
        let w = [self.x, self.y, self.z, self.r];
        let mut out: Vec<u8> = Vec::new();
        out.push(self.ptp_mode.code());
        let mut rest = encode_words(&w);
        out.append(&mut rest);
        assert(w@ =~= seq![self.x, self.y, self.z, self.r]);
        assert(out@ =~= self.spec_bytes());
        out
    }
}

} // verus!
