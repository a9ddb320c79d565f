use openprot_digest::i2c::{
    classify_poll, frame_slave_message, lease_count_ok, transfer_ok, write_read_pair_ok,
    write_read_request_ok, LeaseInfo, SlaveNotification, SlavePoll,
};
use openprot_digest::trng::{
    data_ready, fill_from_words, init_control, poll_step, rng_error, u32_from_le_bytes,
    u64_from_le_bytes, word_count, Poll, RngError, Trng, TrngError, READY_RETRIES, TRNG_BASE,
};
use openprot_digest::uart::{
    step_transmit, FifoTriggerLevel, InterruptDecoding, OpCode, Rate, ResponseCode, Transmit,
    TransmitEvent, UartError, FIRST_DEAD_CODE,
};

#[test]
fn the_init_control_word() {
    assert_eq!(init_control(0), 0x30);
    assert_eq!(init_control(1), 0x30);
    assert_eq!(init_control(0xffff_ffff), 0xffff_fff0);
    assert_eq!(init_control(0x8000_003f), 0x8000_0030);
    assert_eq!(init_control(0x0000_0040), 0x0000_0070);
}

#[test]
fn the_ready_bit() {
    assert!(!data_ready(0));
    assert!(!data_ready(0x7fff_ffff));
    assert!(data_ready(0x8000_0000));
    assert!(data_ready(0xffff_ffff));
}

#[test]
fn waiting_for_a_word() {
    assert_eq!(READY_RETRIES, 10);
    assert_eq!(poll_step(true, 10), Poll::Read);
    assert_eq!(poll_step(true, 0), Poll::Read);
    assert_eq!(poll_step(false, 10), Poll::Retry { remaining: 9 });
    assert_eq!(poll_step(false, 1), Poll::Retry { remaining: 0 });
    assert_eq!(poll_step(false, 0), Poll::TimedOut);
    // eleven looks in all before the driver gives up
    let mut remaining = READY_RETRIES;
    let mut looks = 0;
    loop {
        looks += 1;
        match poll_step(false, remaining) {
            Poll::Retry { remaining: r } => remaining = r,
            Poll::TimedOut => break,
            Poll::Read => unreachable!(),
        }
    }
    assert_eq!(looks, 11);
}

#[test]
fn words_needed_for_bytes() {
    assert_eq!(word_count(0), 0);
    assert_eq!(word_count(1), 1);
    assert_eq!(word_count(3), 1);
    assert_eq!(word_count(4), 1);
    assert_eq!(word_count(5), 2);
    assert_eq!(word_count(8), 2);
    assert_eq!(word_count(usize::MAX), usize::MAX / 4 + 1);
}

#[test]
fn bytes_come_from_words_least_significant_first() {
    let mut buffer = [0u8; 8];
    fill_from_words(&mut buffer, &[0x04030201, 0x08070605]);
    assert_eq!(buffer, [1, 2, 3, 4, 5, 6, 7, 8]);
    let mut buffer = [0u8; 6];
    fill_from_words(&mut buffer, &[0x04030201, 0x08070605]);
    assert_eq!(buffer, [1, 2, 3, 4, 5, 6]);
    let mut buffer = [0u8; 1];
    fill_from_words(&mut buffer, &[0xaabbccdd, 0x11111111]);
    assert_eq!(buffer, [0xdd]);
    let mut buffer = [0u8; 0];
    fill_from_words(&mut buffer, &[]);
    let mut buffer = [0u8; 4];
    fill_from_words(&mut buffer, &[0x12345678]);
    assert_eq!(buffer, 0x12345678u32.to_le_bytes());
}

#[test]
fn numbers_from_little_endian_bytes() {
    assert_eq!(u32_from_le_bytes(&[1, 2, 3, 4]), 0x04030201);
    assert_eq!(u32_from_le_bytes(&[0xff; 4]), u32::MAX);
    assert_eq!(u64_from_le_bytes(&[1, 2, 3, 4, 5, 6, 7, 8]), 0x0807060504030201);
    assert_eq!(u64_from_le_bytes(&[0xff; 8]), u64::MAX);
    assert_eq!(u64_from_le_bytes(&[0; 8]), 0);
}

#[test]
fn driver_errors_as_the_service_reports_them() {
    assert_eq!(rng_error(TrngError::Timeout), RngError::NoData);
    assert_eq!(rng_error(TrngError::NotInitialized), RngError::UnknownRngError);
}

#[test]
fn interrupt_causes() {
    assert_eq!(InterruptDecoding::try_from(0), Ok(InterruptDecoding::ModemStatusChange));
    assert_eq!(InterruptDecoding::try_from(1), Ok(InterruptDecoding::TxEmpty));
    assert_eq!(InterruptDecoding::try_from(2), Ok(InterruptDecoding::RxDataAvailable));
    assert_eq!(InterruptDecoding::try_from(3), Ok(InterruptDecoding::LineStatusChange));
    assert_eq!(InterruptDecoding::try_from(6), Ok(InterruptDecoding::CharacterTimeout));
    assert_eq!(InterruptDecoding::try_from(4), Err(()));
    assert_eq!(InterruptDecoding::try_from(5), Err(()));
    assert_eq!(InterruptDecoding::try_from(7), Err(()));
    // only the low three bits count
    assert_eq!(InterruptDecoding::try_from(0xc1), Ok(InterruptDecoding::TxEmpty));
    assert_eq!(InterruptDecoding::try_from(0xfe), Ok(InterruptDecoding::CharacterTimeout));
    assert_eq!(InterruptDecoding::from_status(0xc2), InterruptDecoding::RxDataAvailable);
    assert_eq!(InterruptDecoding::from_status(7), InterruptDecoding::Unknown);
    assert_eq!(InterruptDecoding::from_status(0xfc), InterruptDecoding::Unknown);
}

#[test]
fn port_settings() {
    assert_eq!(FifoTriggerLevel::OneByte.bits(), 0);
    assert_eq!(FifoTriggerLevel::FourByte.bits(), 1);
    assert_eq!(FifoTriggerLevel::EightByte.bits(), 2);
    assert_eq!(FifoTriggerLevel::FourteenByte.bits(), 3);
    assert_eq!(Rate::Baud9600.divisor(), (0, 12));
    assert_eq!(Rate::Baud19200.divisor(), (0, 6));
    assert_eq!(Rate::MBaud1_5.divisor(), (0, 1));
}

#[test]
fn operation_codes() {
    let all = [
        (OpCode::Write, 1u16),
        (OpCode::Read, 2),
        (OpCode::EnableRxNotification, 3),
        (OpCode::DisableRxNotification, 4),
    ];
    for (op, code) in all {
        assert_eq!(op.code(), code);
        assert_eq!(OpCode::try_from(code as u32), Ok(op));
    }
    assert_eq!(OpCode::try_from(0), Err(()));
    assert_eq!(OpCode::try_from(5), Err(()));
    assert_eq!(OpCode::try_from(u32::MAX), Err(()));
}

#[test]
fn response_codes() {
    let all = [
        (ResponseCode::Success, 0u32),
        (ResponseCode::BadOp, 1),
        (ResponseCode::BadArg, 2),
        (ResponseCode::Busy, 3),
        (ResponseCode::WouldBlock, 4),
        (ResponseCode::Overflow, 5),
        (ResponseCode::ServerDeath, 0xffff_ff00),
    ];
    for (r, code) in all {
        assert_eq!(r.code(), code);
        assert_eq!(ResponseCode::try_from(code), Ok(r));
    }
    assert_eq!(FIRST_DEAD_CODE, 0xffff_ff00);
    assert_eq!(ResponseCode::try_from(0xffff_ff01), Ok(ResponseCode::ServerDeath));
    assert_eq!(ResponseCode::try_from(u32::MAX), Ok(ResponseCode::ServerDeath));
    assert_eq!(ResponseCode::try_from(6), Err(()));
    assert_eq!(ResponseCode::try_from(0xffff_feff), Err(()));
    assert_eq!(ResponseCode::try_from(0x8000_0000), Err(()));
}

#[test]
fn client_errors() {
    assert_eq!(UartError::try_from(ResponseCode::BadOp), Ok(UartError::BadOp));
    assert_eq!(UartError::try_from(ResponseCode::BadArg), Ok(UartError::BadArg));
    assert_eq!(UartError::try_from(ResponseCode::Busy), Ok(UartError::Busy));
    assert_eq!(UartError::try_from(ResponseCode::Overflow), Ok(UartError::Overflow));
    assert_eq!(UartError::try_from(ResponseCode::ServerDeath), Ok(UartError::ServerDeath));
    assert_eq!(UartError::try_from(ResponseCode::Success), Err(()));
    assert_eq!(UartError::try_from(ResponseCode::WouldBlock), Err(()));
}

#[test]
fn a_transmission_step_by_step() {
    let mut t = Transmit { len: 2, pos: 0 };
    assert_eq!(step_transmit(&mut t, TransmitEvent::WouldBlock), None);
    assert_eq!(t, Transmit { len: 2, pos: 0 });
    assert_eq!(step_transmit(&mut t, TransmitEvent::Sent), None);
    assert_eq!(t, Transmit { len: 2, pos: 1 });
    assert_eq!(step_transmit(&mut t, TransmitEvent::Sent), Some(ResponseCode::Success));
    assert_eq!(t, Transmit { len: 2, pos: 2 });
    let mut t = Transmit { len: 5, pos: 3 };
    assert_eq!(step_transmit(&mut t, TransmitEvent::BorrowFailed), Some(ResponseCode::BadArg));
    assert_eq!(t, Transmit { len: 5, pos: 3 });
}

#[test]
fn a_transmission_of_no_bytes_ends_in_bad_arg() {
    let mut t = Transmit { len: 0, pos: 0 };
    assert_eq!(step_transmit(&mut t, TransmitEvent::BorrowFailed), Some(ResponseCode::BadArg));
    assert_eq!(t, Transmit { len: 0, pos: 0 });
    assert_eq!(step_transmit(&mut t, TransmitEvent::WouldBlock), None);
    assert_eq!(t, Transmit { len: 0, pos: 0 });
}

#[test]
fn write_read_requests() {
    assert!(!lease_count_ok(0));
    assert!(!lease_count_ok(1));
    assert!(lease_count_ok(2));
    assert!(!lease_count_ok(3));
    assert!(lease_count_ok(4));
    assert!(!transfer_ok(0, 0));
    assert!(transfer_ok(1, 0));
    assert!(transfer_ok(0, 1));
    assert!(transfer_ok(255, 255));
    assert!(!transfer_ok(256, 1));
    assert!(!transfer_ok(1, 256));
}

#[test]
fn messages_to_the_target() {
    assert_eq!(classify_poll(0), SlavePoll::NoSlaveMessage);
    assert_eq!(classify_poll(1), SlavePoll::Message);
    assert_eq!(classify_poll(2), SlavePoll::BadResponse);
    assert_eq!(frame_slave_message(0x42, &[1, 2, 3]), vec![0x42, 3, 1, 2, 3]);
    assert_eq!(frame_slave_message(0x10, &[]), vec![0x10, 0]);
    let frame = frame_slave_message(1, &[9u8; 255]);
    assert_eq!(frame.len(), 257);
    assert_eq!(frame[1], 255);
}

#[test]
fn who_is_notified() {
    let mut n = SlaveNotification::new();
    assert_eq!(n.on_timer(true), (None, false));
    n.enable(7, 0x10);
    assert_eq!(n.on_timer(true), (Some((7, 0x10)), true));
    assert_eq!(n.on_timer(false), (None, true));
    n.disable();
    assert_eq!(n.on_timer(true), (None, false));
    assert_eq!(n.client, None);
    assert!(!n.timer_armed);
}

#[test]
fn the_generator_is_initialized_before_it_is_polled() {
    let mut trng = Trng::new();
    assert!(!trng.is_initialized());
    assert_eq!(trng.control_register(), TRNG_BASE);
    assert_eq!(trng.data_register(), TRNG_BASE + 4);
    // the first time round the control word is due
    assert_eq!(trng.prepare(0xffff_ffff), Some(0xffff_fff0));
    assert!(trng.is_initialized());
    // after that it is not
    assert_eq!(trng.prepare(0xffff_ffff), None);
    assert_eq!(trng.prepare(0), None);
    let mut buffer = [0x55u8; 4];
    assert_eq!(trng.read(&mut buffer, &[0x04030201]), Ok(()));
    assert_eq!(buffer, [1, 2, 3, 4]);
    let mut other = Trng::with_base(0x1000);
    assert_eq!(other.control_register(), 0x1000);
    assert_eq!(other.data_register(), 0x1004);
    assert_eq!(other.prepare(0x41), Some(0x70));
    assert_eq!(other.init(0x41), 0x70);
}

#[test]
fn a_read_never_finds_the_generator_uninitialized() {
    let mut trng = Trng::new();
    let mut buffer = [0x55u8; 4];
    assert_eq!(trng.read(&mut buffer, &[0x04030201]), Ok(()));
    assert_eq!(buffer, [1, 2, 3, 4]);
    assert!(trng.is_initialized());
    assert_eq!(trng.prepare(0), None);

    let mut trng = Trng::new();
    let mut buffer = [0x55u8; 6];
    assert_eq!(trng.get_random_bytes(&mut buffer, &[0x04030201]), Err(TrngError::Timeout));
    assert_eq!(buffer, [1, 2, 3, 4, 0x55, 0x55]);
    assert!(trng.is_initialized());

    let mut trng = Trng::new();
    assert_eq!(trng.get_u32(&[7]), Ok(7));
    assert!(trng.is_initialized());
    let mut trng = Trng::new();
    assert_eq!(trng.get_u32(&[]), Err(TrngError::Timeout));
    assert!(trng.is_initialized());
    let mut trng = Trng::new();
    assert_eq!(trng.get_u64(&[1, 2]), Ok(0x0000_0002_0000_0001));
    assert!(trng.is_initialized());
    let mut trng = Trng::new();
    assert_eq!(trng.get_u64(&[1]), Err(TrngError::Timeout));
    assert!(trng.is_initialized());
}

#[test]
fn the_generator_reads_what_was_delivered() {
    let mut trng = Trng::new();
    trng.init(0);
    let mut buffer = [0x55u8; 10];
    assert_eq!(
        trng.read(&mut buffer, &[0x04030201, 0x08070605, 0x0c0b0a09]),
        Ok(())
    );
    assert_eq!(buffer, [1, 2, 3, 4, 5, 6, 7, 8, 9, 10]);
    // a timeout after two words leaves the rest as it was
    let mut buffer = [0x55u8; 10];
    assert_eq!(
        trng.get_random_bytes(&mut buffer, &[0x04030201, 0x08070605]),
        Err(TrngError::Timeout)
    );
    assert_eq!(buffer, [1, 2, 3, 4, 5, 6, 7, 8, 0x55, 0x55]);
    let mut buffer = [0x55u8; 3];
    assert_eq!(trng.read(&mut buffer, &[]), Err(TrngError::Timeout));
    assert_eq!(buffer, [0x55u8; 3]);
    let mut none = [0u8; 0];
    assert_eq!(trng.read(&mut none, &[]), Ok(()));
}

#[test]
fn random_numbers_from_words() {
    let mut trng = Trng::new();
    trng.init(0);
    assert_eq!(trng.get_u32(&[0xdeadbeef]), Ok(0xdeadbeef));
    assert_eq!(trng.get_u32(&[]), Err(TrngError::Timeout));
    assert_eq!(trng.get_u64(&[0x04030201, 0x08070605]), Ok(0x0807060504030201));
    assert_eq!(trng.get_u64(&[u32::MAX, u32::MAX]), Ok(u64::MAX));
    assert_eq!(trng.get_u64(&[1]), Err(TrngError::Timeout));
    assert_eq!(trng.get_u64(&[]), Err(TrngError::Timeout));
}

#[test]
fn a_write_read_request_as_a_whole() {
    assert!(write_read_request_ok(2, 4));
    assert!(write_read_request_ok(6, 100));
    assert!(!write_read_request_ok(2, 3));
    assert!(!write_read_request_ok(0, 4));
    assert!(!write_read_request_ok(3, 4));
    let readable = |len| Some(LeaseInfo { len, readable: true });
    assert!(write_read_pair_ok(readable(1), readable(0)));
    assert!(write_read_pair_ok(readable(255), Some(LeaseInfo { len: 255, readable: false })));
    assert!(!write_read_pair_ok(None, readable(1)));
    assert!(!write_read_pair_ok(readable(1), None));
    assert!(!write_read_pair_ok(Some(LeaseInfo { len: 1, readable: false }), readable(1)));
    assert!(!write_read_pair_ok(readable(0), readable(0)));
    assert!(!write_read_pair_ok(readable(256), readable(0)));
    assert!(!write_read_pair_ok(readable(1), readable(256)));
}
