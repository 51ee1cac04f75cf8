use jabi::can::{can_read_reply, can_state_reply};
use jabi::envelope::{ack_reply, u16_reply};
use jabi::interface::link_step;
use jabi::lin::lin_read_reply;
use jabi::analog::{adc_decode, pwm_payload};
use jabi::can::{can_read_decode, can_state_decode};
use jabi::envelope::{ack, exact_u16};
use jabi::gpio::gpio_level_decode;
use jabi::lin::{lin_mode_decode, lin_read_decode, lin_status_decode};
use jabi::metadata::serial_decode;
use jabi::{CANState, Error, LINChecksum, LINMode, LINStatus};

#[test]
fn can_read_decodes_data_and_remote_frames() {
    let data = [3, 0, 0x20, 0x94, 0x06, 0x00, 1, 1, 1, 0, 2, 69, 42];
    let m = can_read_decode(&data).ok().unwrap().unwrap();
    assert_eq!(m.id, 0x69420);
    assert!(m.ext && m.fd && m.brs && !m.rtr);
    assert_eq!(m.data, vec![69, 42]);

    let remote = [0, 0, 0x23, 0x01, 0, 0, 0, 0, 0, 1, 4];
    let m = can_read_decode(&remote).ok().unwrap().unwrap();
    assert!(m.rtr && !m.ext);
    assert_eq!(m.data, vec![0, 0, 0, 0]);

    assert!(matches!(can_read_decode(&[]), Ok(None)));
}

#[test]
fn can_read_rejects_wrong_lengths() {
    assert!(matches!(can_read_decode(&[0, 0, 1, 0, 0, 0, 0, 0, 0, 0]), Err(Error::PacketFormat)));
    let short = [0, 0, 1, 0, 0, 0, 0, 0, 0, 0, 2, 9];
    assert!(matches!(can_read_decode(&short), Err(Error::PacketFormat)));
    let long = [0, 0, 1, 0, 0, 0, 0, 0, 0, 0, 1, 9, 9];
    assert!(matches!(can_read_decode(&long), Err(Error::PacketFormat)));
    let remote_with_data = [0, 0, 1, 0, 0, 0, 0, 0, 0, 1, 1, 9];
    assert!(matches!(can_read_decode(&remote_with_data), Err(Error::PacketFormat)));
}

#[test]
fn can_state_is_three_bytes() {
    assert_eq!(can_state_decode(&[1, 2, 3]), Ok(CANState { state: 1, tx_err: 2, rx_err: 3 }));
    assert_eq!(can_state_decode(&[1, 2]), Err(Error::PacketFormat));
    assert_eq!(can_state_decode(&[1, 2, 3, 4]), Err(Error::PacketFormat));
}

#[test]
fn lin_replies() {
    assert_eq!(lin_mode_decode(&[0]), Ok(LINMode::Commander));
    assert_eq!(lin_mode_decode(&[1]), Ok(LINMode::Responder));
    assert_eq!(lin_mode_decode(&[2]), Err(Error::PacketFormat));
    assert_eq!(lin_mode_decode(&[0, 0]), Err(Error::PacketFormat));
    assert_eq!(lin_status_decode(&[16, 0, 0]), Ok(LINStatus { id: 16, success: true }));
    assert_eq!(lin_status_decode(&[16, 4, 0]), Ok(LINStatus { id: 16, success: false }));
    assert_eq!(lin_status_decode(&[16, 0]), Err(Error::PacketFormat));

    let m = lin_read_decode(&[0, 0, 16, 1, 69, 42]).ok().unwrap().unwrap();
    assert_eq!(m.id, 16);
    assert_eq!(m.checksum_type, LINChecksum::Enhanced);
    assert_eq!(m.data, vec![69, 42]);
    assert!(matches!(lin_read_decode(&[]), Ok(None)));
    assert!(matches!(lin_read_decode(&[0, 0, 16]), Err(Error::PacketFormat)));
    assert!(matches!(lin_read_decode(&[0, 0, 16, 2]), Err(Error::PacketFormat)));
}

#[test]
fn fixed_width_replies() {
    assert_eq!(ack(&vec![]), Ok(()));
    assert_eq!(ack(&vec![0]), Err(Error::PacketFormat));
    assert_eq!(exact_u16(&[0x34, 0x12]), Ok(0x1234));
    assert_eq!(exact_u16(&[0x34]), Err(Error::PacketFormat));
    assert_eq!(gpio_level_decode(&[2]), Ok(true));
    assert_eq!(gpio_level_decode(&[0]), Ok(false));
    assert_eq!(gpio_level_decode(&[]), Err(Error::PacketFormat));
    assert_eq!(adc_decode(&[0x18, 0xFC, 0xFF, 0xFF]), Ok(-1000));
    assert_eq!(adc_decode(&[0xB2, 0x02, 0, 0]), Ok(690));
    assert_eq!(adc_decode(&[0, 0, 0]), Err(Error::PacketFormat));
}

#[test]
fn pwm_payload_is_two_32_bit_nanosecond_values() {
    assert_eq!(
        pwm_payload(500_000_000, 1_000_000_000),
        Ok(vec![0x00, 0x65, 0xCD, 0x1D, 0x00, 0xCA, 0x9A, 0x3B])
    );
    assert_eq!(pwm_payload(1 << 32, 0), Err(Error::InvalidArgs));
    assert_eq!(pwm_payload(0, 1 << 32), Err(Error::InvalidArgs));
}

#[test]
fn serial_must_be_utf8() {
    assert_eq!(serial_decode("❤️ 42".as_bytes().to_vec()), Ok("❤️ 42".to_string()));
    assert_eq!(serial_decode(vec![0x41, 0xFF]), Err(Error::Unknown));
    assert_eq!(serial_decode(vec![]), Ok(String::new()));
}

#[test]
fn replies_pass_send_errors_through() {
    use_replies();
}

fn use_replies() {
    assert_eq!(ack_reply(Err(Error::Busy)), Err(Error::Busy));
    assert_eq!(ack_reply(Ok(vec![])), Ok(()));
    assert_eq!(ack_reply(Ok(vec![1])), Err(Error::PacketFormat));
    assert_eq!(can_state_reply(Err(Error::PacketTimeout)), Err(Error::PacketTimeout));
    assert_eq!(can_state_reply(Ok(vec![1, 2, 3])), Ok(CANState { state: 1, tx_err: 2, rx_err: 3 }));
    assert!(matches!(can_read_reply(Err(Error::Peripheral)), Err(Error::Peripheral)));
    assert!(matches!(can_read_reply(Ok(vec![])), Ok(None)));
    assert!(matches!(lin_read_reply(Err(Error::Uninitialized)), Err(Error::Uninitialized)));
    assert_eq!(u16_reply(Ok(vec![0x34, 0x12])), Ok(0x1234));
    assert_eq!(u16_reply(Err(Error::NotSupported)), Err(Error::NotSupported));
    assert_eq!(link_step(true), Ok(()));
    assert_eq!(link_step(false), Err(Error::PacketTimeout));
}
