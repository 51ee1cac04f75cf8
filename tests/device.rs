use jabi::analog::pwm_write_request;
use jabi::can::{can_read_request, can_write_request};
use jabi::lin::lin_write_request;
use jabi::uart_bus::uart_set_config_request;
use jabi::can::can_write_payload;
use jabi::device::{handshake_next, Handshake};
use jabi::interface::send_with_reset;
use jabi::{CANMessage, CANMode, Device, Error, InstID, Interface, InterfaceRequest, LINChecksum};
use jabi::{LINMessage, LINMode};
use std::collections::VecDeque;
use std::sync::{Arc, Mutex};

#[derive(Default)]
struct Log {
    sent: Vec<(u16, u16, u16, Vec<u8>)>,
    resets: usize,
    req_limit: Option<usize>,
    resp_limit: Option<usize>,
}

struct Mock {
    replies: VecDeque<Result<Vec<u8>, Error>>,
    log: Arc<Mutex<Log>>,
}

impl Interface for Mock {
    fn send(&mut self, req: &InterfaceRequest) -> Result<Vec<u8>, Error> {
        self.log.lock().unwrap().sent.push((
            req.periph_id,
            req.periph_idx,
            req.periph_fn,
            req.payload.clone(),
        ));
        self.replies.pop_front().unwrap_or(Err(Error::PacketTimeout))
    }

    fn set_max_req_size(&mut self, size: usize) {
        self.log.lock().unwrap().req_limit = Some(size);
    }

    fn set_max_resp_size(&mut self, size: usize) {
        self.log.lock().unwrap().resp_limit = Some(size);
    }

    fn reset(&mut self) {
        self.log.lock().unwrap().resets += 1;
    }
}

fn mock(replies: Vec<Result<Vec<u8>, Error>>) -> (Mock, Arc<Mutex<Log>>) {
    let log = Arc::new(Mutex::new(Log::default()));
    (Mock { replies: replies.into(), log: log.clone() }, log)
}

fn device(replies: Vec<Result<Vec<u8>, Error>>) -> (Device<Mock>, Arc<Mutex<Log>>) {
    let (m, log) = mock(replies);
    (Device::new(m), log)
}

fn echo_req() -> InterfaceRequest {
    InterfaceRequest::new(0, 0, 2, vec![1]).ok().unwrap()
}

#[test]
fn timeout_resets_once_and_is_reported() {
    let (dev, log) = device(vec![Err(Error::PacketTimeout), Ok(vec![1])]);
    assert_eq!(dev.send(&echo_req()), Err(Error::PacketTimeout));
    assert_eq!(log.lock().unwrap().resets, 1);
    assert_eq!(dev.send(&echo_req()), Ok(vec![1]));
    assert_eq!(log.lock().unwrap().resets, 1);
    assert_eq!(log.lock().unwrap().sent.len(), 2);
}

#[test]
fn other_errors_do_not_reset() {
    let (mut m, log) = mock(vec![
        Err(Error::PacketFormat),
        Err(Error::Busy),
        Err(Error::Timeout),
        Ok(vec![]),
    ]);
    assert_eq!(send_with_reset(&mut m, &echo_req()), Err(Error::PacketFormat));
    assert_eq!(send_with_reset(&mut m, &echo_req()), Err(Error::Busy));
    assert_eq!(send_with_reset(&mut m, &echo_req()), Err(Error::Timeout));
    assert_eq!(send_with_reset(&mut m, &echo_req()), Ok(vec![]));
    assert_eq!(log.lock().unwrap().resets, 0);
}

#[test]
fn clones_share_one_transport() {
    let (dev, log) = device(vec![Ok(vec![]), Ok(vec![])]);
    let other = dev.clone();
    assert_eq!(dev.gpio_write(0, true), Ok(()));
    assert_eq!(other.gpio_write(1, false), Ok(()));
    let log = log.lock().unwrap();
    assert_eq!(log.sent, vec![(2, 0, 1, vec![1]), (2, 1, 1, vec![0])]);
}

#[test]
fn can_write_sets_flags_from_id_and_fd_brs() {
    let msg = CANMessage::new(0x69420, vec![69, 42], true);
    assert!(msg.ext && msg.fd && msg.brs && !msg.rtr);
    let expected = vec![0x20, 0x94, 0x06, 0x00, 1, 1, 1, 0, 2, 69, 42];
    assert_eq!(can_write_payload(&msg), Ok(expected.clone()));
    let (dev, log) = device(vec![Ok(vec![])]);
    assert_eq!(dev.can_write(3, &msg), Ok(()));
    assert_eq!(log.lock().unwrap().sent, vec![(1, 3, 4, expected)]);
}

#[test]
fn can_read_of_empty_reply_is_none() {
    let (dev, log) = device(vec![Ok(vec![])]);
    assert!(matches!(dev.can_read(0), Ok(None)));
    assert_eq!(log.lock().unwrap().sent, vec![(1, 0, 5, vec![])]);
}

#[test]
fn can_write_standard_and_remote_frames() {
    let std_msg = CANMessage::new(0x7FF, vec![1], false);
    assert_eq!(can_write_payload(&std_msg), Ok(vec![0xFF, 0x07, 0, 0, 0, 0, 0, 0, 1, 1]));
    let rtr = CANMessage::new_rtr(0x800, 3, false);
    assert_eq!(rtr.data, vec![0, 0, 0]);
    assert_eq!(can_write_payload(&rtr), Ok(vec![0x00, 0x08, 0, 0, 1, 0, 0, 1, 3]));
}

#[test]
fn can_write_rejects_long_data_without_sending() {
    let (dev, log) = device(vec![]);
    let msg = CANMessage::new(1, vec![0; 65], true);
    assert_eq!(dev.can_write(0, &msg), Err(Error::InvalidArgs));
    assert!(log.lock().unwrap().sent.is_empty());
    let max = CANMessage::new(1, vec![0; 64], true);
    assert_eq!(can_write_payload(&max).map(|p| p.len()), Ok(9 + 64));
}

#[test]
fn pwm_rejects_values_over_32_bits_without_sending() {
    let (dev, log) = device(vec![Ok(vec![])]);
    let too_long = u32::MAX as u128 + 1;
    assert_eq!(dev.pwm_write(0, too_long, 1_000), Err(Error::InvalidArgs));
    assert_eq!(dev.pwm_write(0, 1_000, too_long), Err(Error::InvalidArgs));
    assert!(log.lock().unwrap().sent.is_empty());
    assert_eq!(dev.pwm_write(2, 500_000_000, u32::MAX as u128), Ok(()));
    assert_eq!(
        log.lock().unwrap().sent,
        vec![(6, 2, 0, vec![0x00, 0x65, 0xCD, 0x1D, 0xFF, 0xFF, 0xFF, 0xFF])]
    );
}

#[test]
fn set_calls_need_an_empty_reply() {
    let (dev, _) = device(vec![Ok(vec![]), Ok(vec![0]), Err(Error::Busy)]);
    assert_eq!(dev.can_set_mode(0, CANMode::ListenOnly), Ok(()));
    assert_eq!(dev.can_set_rate(0, 125000, 1000000), Err(Error::PacketFormat));
    assert_eq!(dev.can_set_filter(0, 0x69420, 0xFFFFF), Err(Error::Busy));
}

#[test]
fn metadata_queries() {
    let (dev, log) = device(vec![
        Ok(b"SN123".to_vec()),
        Ok(vec![2, 0]),
        Ok(vec![2]),
        Ok(vec![0, 1]),
        Ok(vec![0xFF]),
    ]);
    assert_eq!(dev.serial(), Ok("SN123".to_string()));
    assert_eq!(dev.num_inst(InstID::LIN), Ok(2));
    assert_eq!(dev.num_inst(InstID::CAN), Err(Error::PacketFormat));
    assert_eq!(dev.req_max_size(), Ok(256));
    assert_eq!(dev.serial(), Err(Error::Unknown));
    let log = log.lock().unwrap();
    assert_eq!(log.sent[0], (0, 0, 0, vec![]));
    assert_eq!(log.sent[1], (0, 0, 1, vec![9, 0]));
    assert_eq!(log.sent[3], (0, 0, 3, vec![]));
}

#[test]
fn handshake_retries_once_after_timeout() {
    let (dev, log) = device(vec![Err(Error::PacketTimeout), Ok(vec![64, 0]), Ok(vec![128, 0])]);
    assert_eq!(dev.handshake(true, true), Handshake::Done { req_size: 64, resp_size: Some(128) });
    let log = log.lock().unwrap();
    assert_eq!(log.req_limit, Some(64));
    assert_eq!(log.resp_limit, Some(128));
    assert_eq!(log.resets, 1);
    assert_eq!(log.sent.len(), 3);
}

#[test]
fn handshake_gives_up_after_second_timeout_or_other_error() {
    let (dev, log) = device(vec![Err(Error::PacketTimeout), Err(Error::PacketTimeout)]);
    assert_eq!(dev.handshake(true, true), Handshake::Failed { at_resp: false });
    assert_eq!(log.lock().unwrap().sent.len(), 2);
    assert_eq!(log.lock().unwrap().req_limit, None);

    let (dev, log) = device(vec![Err(Error::Busy), Ok(vec![64, 0])]);
    assert_eq!(dev.handshake(true, true), Handshake::Failed { at_resp: false });
    assert_eq!(log.lock().unwrap().sent.len(), 1);

    let (dev, log) = device(vec![Err(Error::PacketTimeout), Ok(vec![64, 0])]);
    assert_eq!(dev.handshake(false, false), Handshake::Failed { at_resp: false });
    assert_eq!(log.lock().unwrap().sent.len(), 1);

    let (dev, log) = device(vec![Ok(vec![64, 0])]);
    assert_eq!(dev.handshake(false, false), Handshake::Done { req_size: 64, resp_size: None });
    assert_eq!(log.lock().unwrap().req_limit, Some(64));
    assert_eq!(log.lock().unwrap().resp_limit, None);
}

#[test]
fn lin_commands() {
    let (dev, log) = device(vec![Ok(vec![1]), Ok(vec![]), Ok(vec![])]);
    assert_eq!(dev.lin_mode(0), Ok(LINMode::Responder));
    assert_eq!(dev.lin_set_filter(0, 16, 8, LINChecksum::Auto), Ok(()));
    assert_eq!(dev.lin_set_filter(0, 16, 9, LINChecksum::Auto), Err(Error::InvalidArgs));
    let msg = LINMessage::new(42, vec![69, 42], LINChecksum::Enhanced);
    assert_eq!(dev.lin_write(1, &msg), Ok(()));
    let long = LINMessage::new(42, vec![0; 9], LINChecksum::Classic);
    assert_eq!(dev.lin_write(1, &long), Err(Error::InvalidArgs));
    let log = log.lock().unwrap();
    assert_eq!(log.sent.len(), 3);
    assert_eq!(log.sent[1], (9, 0, 2, vec![16, 2, 8]));
    assert_eq!(log.sent[2], (9, 1, 5, vec![42, 1, 69, 42]));
}

#[test]
fn bus_commands_encode_their_arguments() {
    let (dev, log) = device(vec![Ok(vec![]), Ok(vec![5, 6]), Ok(vec![]), Ok(vec![7]), Ok(vec![1])]);
    assert_eq!(dev.i2c_write(0, 0x50, &[1, 2]), Ok(()));
    assert_eq!(dev.i2c_transceive(0, 0x50, &[3], 2), Ok(vec![5, 6]));
    assert_eq!(
        dev.uart_set_config(1, 115200, 8, jabi::UARTParity::NoParity, jabi::UARTStop::B1),
        Ok(())
    );
    assert_eq!(dev.spi_read(2, 1), Ok(vec![7]));
    assert_eq!(dev.gpio_read(3), Ok(true));
    let log = log.lock().unwrap();
    assert_eq!(log.sent[0], (3, 0, 1, vec![0x50, 0, 1, 2]));
    assert_eq!(log.sent[1], (3, 0, 3, vec![0x50, 0, 2, 0, 3]));
    assert_eq!(log.sent[2], (5, 1, 0, vec![0x00, 0xC2, 0x01, 0x00, 8, 0, 1]));
    assert_eq!(log.sent[3], (4, 2, 4, vec![1, 0]));
    assert_eq!(log.sent[4], (2, 3, 2, vec![]));
}

#[test]
fn handshake_response_limit_failure_is_reported() {
    let (dev, log) = device(vec![Ok(vec![64, 0]), Err(Error::PacketTimeout)]);
    assert_eq!(dev.handshake(true, true), Handshake::Failed { at_resp: true });
    assert_eq!(log.lock().unwrap().req_limit, Some(64));
    assert_eq!(log.lock().unwrap().resp_limit, None);
}

#[test]
fn handshake_steps() {
    let ask = Handshake::AskReqSize { retry: true };
    assert_eq!(handshake_next(ask, &Ok(64), true), Handshake::AskRespSize { req_size: 64 });
    assert_eq!(
        handshake_next(ask, &Ok(64), false),
        Handshake::Done { req_size: 64, resp_size: None }
    );
    assert_eq!(
        handshake_next(ask, &Err(Error::PacketTimeout), true),
        Handshake::AskReqSize { retry: false }
    );
    assert_eq!(handshake_next(ask, &Err(Error::Busy), true), Handshake::Failed { at_resp: false });
    let last = Handshake::AskReqSize { retry: false };
    assert_eq!(
        handshake_next(last, &Err(Error::PacketTimeout), true),
        Handshake::Failed { at_resp: false }
    );
    let resp = Handshake::AskRespSize { req_size: 64 };
    assert_eq!(
        handshake_next(resp, &Ok(128), true),
        Handshake::Done { req_size: 64, resp_size: Some(128) }
    );
    assert_eq!(handshake_next(resp, &Err(Error::Busy), true), Handshake::Failed { at_resp: true });
}

#[test]
fn requests_carry_kind_index_function_and_payload() {
    let msg = LINMessage::new(42, vec![69, 42], LINChecksum::Enhanced);
    let q = lin_write_request(3, &msg).ok().unwrap();
    assert_eq!((q.periph_id, q.periph_idx, q.periph_fn), (9, 3, 5));
    assert_eq!(q.payload, vec![42, 1, 69, 42]);
    assert_eq!(q.payload_len, 4);
    let long = LINMessage::new(42, vec![0; 9], LINChecksum::Classic);
    assert!(matches!(lin_write_request(3, &long), Err(Error::InvalidArgs)));

    let q = uart_set_config_request(1, 115200, 8, jabi::UARTParity::Even, jabi::UARTStop::B2);
    assert_eq!((q.periph_id, q.periph_idx, q.periph_fn), (5, 1, 0));
    assert_eq!(q.payload, vec![0x00, 0xC2, 0x01, 0x00, 8, 2, 3]);
}

#[test]
fn can_and_pwm_requests() {
    let msg = CANMessage::new(0x69420, vec![69, 42], true);
    let q = can_write_request(0, &msg).ok().unwrap();
    assert_eq!((q.periph_id, q.periph_fn), (1, 4));
    assert_eq!(q.payload, vec![0x20, 0x94, 0x06, 0x00, 1, 1, 1, 0, 2, 69, 42]);
    let q = can_read_request(2);
    assert_eq!((q.periph_id, q.periph_idx, q.periph_fn, q.payload.len()), (1, 2, 5, 0));
    assert!(matches!(pwm_write_request(0, 1 << 32, 0), Err(Error::InvalidArgs)));
    let q = pwm_write_request(4, 1, 2).ok().unwrap();
    assert_eq!((q.periph_id, q.periph_idx), (6, 4));
    assert_eq!(q.payload, vec![1, 0, 0, 0, 2, 0, 0, 0]);
}
