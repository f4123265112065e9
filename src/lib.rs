//! Host-side driver for a robotic-arm controller: the framed binary protocol, the
//! fixed-layout parameter records, and a client with one method per controller operation.
pub mod client;
pub mod error;
pub mod layout;
pub mod protocol;
pub mod records;
pub mod traits;

pub use client::{
    arm_orientation_from_params, check_id, check_queued_reply, check_reply, check_write_reply,
    device_sn_from_params, left_space_from_params, queue_index_from_params, write_request,
    DobotClient,
};
pub use error::DobotError;
pub use layout::{decode_words, encode_words};
pub use protocol::{
    calc_checksum, calc_complement, calc_sum, check_header_and_get_payload_size, CommandView,
    PayloadStruct, ReadWrite,
};
pub use records::{
    ArmOrientation, IoLevel, JogCommand, JogCommandType, JogCommonParams, JogJointParams, Pose,
    PtpCommand, PtpCommonParams, PtpCoordinateParams, PtpJointParams, PtpJumpParams, PtpMode,
};
pub use traits::Device;
