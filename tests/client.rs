use std::cell::RefCell;
use std::rc::Rc;

use dobot::{
    arm_orientation_from_params, check_write_reply, device_sn_from_params,
    queue_index_from_params, ArmOrientation, Device, DobotClient, DobotError, IoLevel,
    JogCommand, JogCommandType, PayloadStruct, PtpCommand, PtpCommonParams, PtpMode, ReadWrite,
};

/// Answers every command with a reply built from it, and keeps the frames it was sent.
struct Echo {
    sent: Rc<RefCell<Vec<Vec<u8>>>>,
    reply_id: Option<u8>,
    reply_params: Vec<u8>,
    fail: bool,
}

impl Device for Echo {
    fn send(&mut self, packet: PayloadStruct) -> Result<PayloadStruct, DobotError> {
        if self.fail {
            return Err(DobotError::Transport);
        }
        let id = self.reply_id.unwrap_or(packet.id);
        let frame = PayloadStruct::with_id(id).set_params(self.reply_params.clone()).serialize();
        self.sent.borrow_mut().push(packet.serialize());
        PayloadStruct::deserialize(&frame)
    }
}

fn client(
    reply_id: Option<u8>,
    reply_params: Vec<u8>,
) -> (DobotClient<Echo>, Rc<RefCell<Vec<Vec<u8>>>>) {
    let sent = Rc::new(RefCell::new(Vec::new()));
    let dev = Echo { sent: sent.clone(), reply_id, reply_params, fail: false };
    (DobotClient::new(dev), sent)
}

#[test]
fn write_with_wrong_reply_id_is_refused() {
    let (mut c, _) = client(Some(21), vec![]);
    assert_eq!(c.clear_all_alarm_state(), Err(DobotError::IdMismatch));
    let (mut c, _) = client(Some(0), vec![1, 0, 0, 0, 0, 0, 0, 0]);
    assert_eq!(c.set_iodo_queued(18, IoLevel::High), Err(DobotError::IdMismatch));
    let reply = Ok(PayloadStruct::with_id(3));
    assert_eq!(check_write_reply(&reply, 4), Err(DobotError::IdMismatch));
    assert_eq!(check_write_reply(&reply, 3), Ok(()));
}

#[test]
fn transport_failure_is_passed_on() {
    let sent = Rc::new(RefCell::new(Vec::new()));
    let dev = Echo { sent, reply_id: None, reply_params: vec![], fail: true };
    let mut c = DobotClient::new(dev);
    assert_eq!(c.get_alarm_state(), Err(DobotError::Transport));
}

#[test]
fn immediate_write_frame() {
    let (mut c, sent) = client(None, vec![]);
    c.set_jog_command(JogCommandType::Joint, JogCommand::BnDown).unwrap();
    let frame = sent.borrow()[0].clone();
    assert_eq!(&frame[..7], &[0xAA, 0xAA, 4, 73, 1, 1, 4]);
    assert_eq!(frame[7], 0u8.wrapping_sub(73 + 1 + 1 + 4));
}

#[test]
fn queued_write_returns_index() {
    let (mut c, sent) = client(None, vec![0x10, 0x02, 0, 0, 0, 0, 0, 0x01]);
    let idx = c.set_wait_command_queued(1000).unwrap();
    assert_eq!(idx, 0x0100_0000_0000_0210);
    let frame = sent.borrow()[0].clone();
    assert_eq!(&frame[..9], &[0xAA, 0xAA, 6, 110, 3, 0xE8, 0x03, 0, 0]);
}

#[test]
fn queued_write_needs_eight_bytes() {
    let (mut c, _) = client(None, vec![1, 2, 3]);
    assert_eq!(c.set_arm_orientation_queued(ArmOrientation::Righty), Err(DobotError::Decode));
    assert_eq!(queue_index_from_params(&[5, 0, 0, 0, 0, 0, 0, 0]), Ok(5));
    assert_eq!(queue_index_from_params(&[]), Err(DobotError::Decode));
}

#[test]
fn ptp_command_layout() {
    let (mut c, sent) = client(None, vec![9, 0, 0, 0, 0, 0, 0, 0]);
    let cmd = PtpCommand {
        ptp_mode: PtpMode::MovlXyz,
        x: 200.0f32.to_bits(),
        y: 0.0f32.to_bits(),
        z: (-10.5f32).to_bits(),
        r: 1,
    };
    assert_eq!(c.set_ptp_command_queued(cmd), Ok(9));
    let frame = sent.borrow()[0].clone();
    assert_eq!(frame[2], 19);
    assert_eq!(frame[3], 84);
    assert_eq!(frame[4], 3);
    assert_eq!(frame[5], 2);
    assert_eq!(&frame[6..10], &200.0f32.to_le_bytes());
    assert_eq!(&frame[14..18], &(-10.5f32).to_le_bytes());
    assert_eq!(&frame[18..22], &[1, 0, 0, 0]);
}

#[test]
fn read_command_is_empty_read() {
    let (mut c, sent) = client(None, vec![0, 0, 0, 0]);
    assert_eq!(c.get_queued_command_left_space(), Ok(0));
    assert_eq!(sent.borrow()[0], vec![0xAA, 0xAA, 2, 247, 0, 9]);
}

#[test]
fn left_space_and_index_readings() {
    let (mut c, _) = client(None, vec![0x20, 0x01, 0, 0]);
    assert_eq!(c.get_queued_command_left_space(), Ok(288));
    let (mut c, _) = client(None, vec![3, 0, 0, 0, 0, 0, 0, 0]);
    assert_eq!(c.get_queued_command_current_index(), Ok(3));
    let (mut c, _) = client(None, vec![3, 0]);
    assert_eq!(c.get_queued_command_current_index(), Err(DobotError::Decode));
}

#[test]
fn arm_orientation_reading() {
    let (mut c, _) = client(None, vec![0]);
    assert_eq!(c.get_arm_orientation(), Ok(ArmOrientation::Lefty));
    let (mut c, _) = client(None, vec![7]);
    assert_eq!(c.get_arm_orientation(), Ok(ArmOrientation::Righty));
    assert_eq!(arm_orientation_from_params(&[]), Err(DobotError::Decode));
}

#[test]
fn serial_number_text() {
    let (mut c, sent) = client(None, b"DT-0042".to_vec());
    assert_eq!(c.get_device_sn(), Ok("DT-0042".to_string()));
    assert_eq!(sent.borrow()[0][3], 0);
    assert_eq!(device_sn_from_params(vec![0xFF, 0xFE]), Err(DobotError::Decode));
    assert_eq!(device_sn_from_params(vec![]), Ok(String::new()));
}

#[test]
fn ptp_common_params_round_trip_through_client() {
    let p = PtpCommonParams { velocity_ratio: 30.0f32.to_bits(), acceleration_ratio: 10.0f32.to_bits() };
    let bytes = p.to_bytes();
    let (mut c, sent) = client(None, bytes.clone());
    let q = c.get_ptp_common_params().unwrap();
    assert_eq!(f32::from_bits(q.velocity_ratio), 30.0);
    assert_eq!(f32::from_bits(q.acceleration_ratio), 10.0);
    c.set_ptp_common_params(q).unwrap();
    let frame = sent.borrow()[1].clone();
    assert_eq!(frame[4], 1);
    assert_eq!(&frame[5..13], &bytes[..]);
}

#[test]
fn wrong_record_size_is_decode_error() {
    let (mut c, _) = client(None, vec![0; 31]);
    assert_eq!(c.get_pose().unwrap_err(), DobotError::Decode);
    let (mut c, _) = client(None, vec![0; 16]);
    assert!(c.get_ptp_coordinate_params().is_ok());
    assert_eq!(c.get_ptp_jump_params().unwrap_err(), DobotError::Decode);
}

#[test]
fn write_request_fields() {
    let p = dobot::write_request(84, vec![1, 2], true);
    assert_eq!(p.id, 84);
    assert_eq!(p.rw, ReadWrite::WRITE);
    assert!(p.is_queued);
    assert_eq!(p.params, vec![1, 2]);
}
