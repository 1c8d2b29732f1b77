//! Wire-level behaviour of the control-transfer codec, the demodulator
//! register interface, the I2C emulation, and the baseband sequencer,
//! exercised against the simulated dongle.

use rustl_sdr::error::RtlError;
use rustl_sdr::sim::SimDevice;
use rustl_sdr::sim::XferRec;
use rustl_sdr::transport::Transport;
use rustl_sdr::usb::RtlSdrDeviceHandle;

fn sim_handle(table: Vec<(u8, u8, u8)>, status: u16) -> RtlSdrDeviceHandle {
    RtlSdrDeviceHandle::new(Transport::Sim { dev: SimDevice::new(table, status) })
}

fn failing_out_handle() -> RtlSdrDeviceHandle {
    let mut dev = SimDevice::new(Vec::new(), 0);
    dev.fail_out = true;
    RtlSdrDeviceHandle::new(Transport::Sim { dev })
}

fn failing_in_handle(table: Vec<(u8, u8, u8)>) -> RtlSdrDeviceHandle {
    let mut dev = SimDevice::new(table, 0);
    dev.fail_in = true;
    RtlSdrDeviceHandle::new(Transport::Sim { dev })
}

fn log_of(h: &RtlSdrDeviceHandle) -> &Vec<XferRec> {
    match &h.t {
        Transport::Sim { dev } => &dev.log,
        Transport::Usb { .. } => panic!("expected the simulated transport"),
    }
}

#[test]
fn payload_one_byte_repeats_low_byte() {
    let (b0, b1) = rustl_sdr::codec::encode_payload(0xabcd, 1);
    assert_eq!(b0, 0xcd);
    assert_eq!(b1, 0xcd);
    let (b0, b1) = rustl_sdr::codec::encode_payload(0x0042, 1);
    assert_eq!((b0, b1), (0x42, 0x42));
}

#[test]
fn payload_two_bytes_big_endian() {
    let (b0, b1) = rustl_sdr::codec::encode_payload(0xabcd, 2);
    assert_eq!(b0, 0xab);
    assert_eq!(b1, 0xcd);
}

#[test]
fn write_reg_sends_one_exact_transfer() {
    let mut h = sim_handle(Vec::new(), 0);
    let n = h.write_reg(1, 0x2000, 0x1234, 2);
    assert_eq!(n, 2);
    let log = log_of(&h);
    assert_eq!(log.len(), 1);
    let rec = log[0];
    assert!(!rec.dir_in);
    assert_eq!(rec.value, 0x2000);
    assert_eq!(rec.index, 0x0110);
    assert_eq!(rec.b0, 0x12);
    assert_eq!(rec.b1, 0x34);
    assert_eq!(rec.len, 2);
}

#[test]
fn write_reg_one_byte_payload_on_the_wire() {
    let mut h = sim_handle(Vec::new(), 0);
    h.write_reg(2, 0x3000, 0xab, 1);
    let rec = log_of(&h)[0];
    assert_eq!(rec.index, 0x0210);
    assert_eq!(rec.b0, 0xab);
    assert_eq!(rec.b1, 0xab);
}

#[test]
fn write_reg_reports_zero_on_failure() {
    let mut h = failing_out_handle();
    let n = h.write_reg(1, 0x2000, 0x1234, 2);
    assert_eq!(n, 0);
    assert_eq!(log_of(&h).len(), 1);
}

#[test]
fn demod_read_reg_recombines_big_endian() {
    let mut h = sim_handle(Vec::new(), 0x1a2b);
    let r = h.demod_read_reg(0x0a, 0x01);
    assert_eq!(r, Ok(0x1a2b));
    let rec = log_of(&h)[0];
    assert!(rec.dir_in);
    assert_eq!(rec.value, 0x0120);
    assert_eq!(rec.index, 0x000a);
    assert_eq!(rec.len, 2);
}

#[test]
fn demod_write_reg_returns_probed_status() {
    let mut h = sim_handle(Vec::new(), 0x0077);
    let r = h.demod_write_reg(1, 0x15, 0x00, 1);
    assert_eq!(r, Ok(0x0077));
}

#[test]
fn demod_write_reg_issues_exactly_one_physical_write() {
    let mut h = sim_handle(Vec::new(), 0);
    h.demod_write_reg(1, 0x16, 0x0000, 2).unwrap();
    let log = log_of(&h);
    assert_eq!(log.len(), 2);
    let demod_writes = log.iter().filter(|r| !r.dir_in && r.index < 256).count();
    assert_eq!(demod_writes, 1);
    assert!(log[1].dir_in);
    assert_eq!(log[1].value, 0x0120);
    assert_eq!(log[1].index, 0x000a);
}

#[test]
fn demod_write_reg_encodes_page_and_address() {
    let mut h = sim_handle(Vec::new(), 0);
    h.demod_write_reg(1, 0x9f, 0x0384, 2).unwrap();
    let rec = log_of(&h)[0];
    assert_eq!(rec.value, 0x9f20);
    assert_eq!(rec.index, 0x0011);
    assert_eq!(rec.b0, 0x03);
    assert_eq!(rec.b1, 0x84);
}

#[test]
fn demod_write_reg_checked_accepts_expected_status() {
    let mut h = sim_handle(Vec::new(), 0x0000);
    assert_eq!(h.demod_write_reg_checked(1, 0x01, 0x10, 1, 0x0000), Ok(()));
}

#[test]
fn demod_write_reg_checked_reports_protocol_mismatch() {
    let mut h = sim_handle(Vec::new(), 0x00ff);
    let r = h.demod_write_reg_checked(1, 0x01, 0x10, 1, 0x0000);
    assert_eq!(r, Err(RtlError::ProtocolMismatch));
}

#[test]
fn i2c_read_reg_returns_programmed_value() {
    let mut h = sim_handle(vec![(0x34, 0x00, 0x69)], 0);
    assert_eq!(h.i2c_read_reg(0x34, 0x00), Ok(0x69));
    let log = log_of(&h);
    assert_eq!(log.len(), 2);
    assert!(!log[0].dir_in);
    assert_eq!(log[0].value, 0x0034);
    assert_eq!(log[0].index, 0x0610);
    assert_eq!(log[0].b0, 0x00);
    assert_eq!(log[0].len, 1);
    assert!(log[1].dir_in);
    assert_eq!(log[1].index, 0x0600);
}

#[test]
fn i2c_read_reg_fails_when_address_write_fails() {
    let mut h = failing_out_handle();
    assert_eq!(h.i2c_read_reg(0x34, 0x00), Err(RtlError::Transport));
    // the read phase is never reached: only the address write was attempted
    assert_eq!(log_of(&h).len(), 1);
}

#[test]
fn i2c_read_reg_fails_when_read_phase_fails() {
    let mut h = failing_in_handle(vec![(0x34, 0x00, 0x69)]);
    assert_eq!(h.i2c_read_reg(0x34, 0x00), Err(RtlError::Transport));
    // the address write went through, then the read failed
    assert_eq!(log_of(&h).len(), 2);
}

#[test]
fn i2c_read_reg_fails_on_unanswered_register() {
    let mut h = sim_handle(vec![(0x34, 0x00, 0x69)], 0);
    assert_eq!(h.i2c_read_reg(0x34, 0x01), Err(RtlError::Transport));
}

#[test]
fn i2c_write_reg_sends_register_and_value() {
    let mut h = sim_handle(Vec::new(), 0);
    assert_eq!(h.i2c_write_reg(0x34, 0x17, 0xaa), Ok(2));
    let rec = log_of(&h)[0];
    assert_eq!(rec.value, 0x0034);
    assert_eq!(rec.index, 0x0610);
    assert_eq!(rec.b0, 0x17);
    assert_eq!(rec.b1, 0xaa);
    assert_eq!(rec.len, 2);
}

#[test]
fn set_i2c_repeater_writes_mode_values() {
    let mut h = sim_handle(Vec::new(), 0);
    h.set_i2c_repeater(true).unwrap();
    h.set_i2c_repeater(false).unwrap();
    let log = log_of(&h);
    assert_eq!(log.len(), 4);
    assert_eq!(log[0].value, 0x0120);
    assert_eq!(log[0].index, 0x0011);
    assert_eq!(log[0].b0, 0x18);
    assert_eq!(log[2].b0, 0x10);
}

#[test]
fn test_write_touches_usb_sysctl() {
    let mut h = sim_handle(Vec::new(), 0);
    assert_eq!(h.test_write(), 2);
    let rec = log_of(&h)[0];
    assert_eq!(rec.value, 0x2000);
    assert_eq!(rec.index, 0x0110);
    assert_eq!(rec.b0, 0x09);
}

#[test]
fn init_baseband_issues_the_whole_sequence() {
    let mut h = sim_handle(Vec::new(), 0);
    h.init_baseband();
    let log = log_of(&h);
    assert_eq!(log.len(), 83);
    // the sequence opens with the USB system control write
    assert_eq!(log[0].value, 0x2000);
    // the first of the six DDC/IF registers is zeroed
    assert_eq!(log[13].value, 0x1620);
    assert_eq!(log[13].b0, 0x00);
    // the first FIR coefficient is loaded
    assert_eq!(log[25].value, 0x1c20);
    assert_eq!(log[25].b0, 0xca);
    // SDR mode goes on right after the filter bank
    assert_eq!(log[65].value, 0x1920);
    assert_eq!(log[65].b0, 0x05);
    // and the diagnostic clock pin is switched off last
    assert_eq!(log[81].value, 0x0d20);
    assert_eq!(log[81].b0, 0x83);
}

#[test]
fn init_baseband_continues_past_failures() {
    let mut h = failing_out_handle();
    h.init_baseband();
    assert_eq!(log_of(&h).len(), 83);
}

#[test]
fn reset_buffer_toggles_endpoint_control() {
    let mut h = sim_handle(Vec::new(), 0);
    h.reset_buffer();
    let log = log_of(&h);
    assert_eq!(log.len(), 2);
    assert_eq!(log[0].value, 0x2148);
    assert_eq!(log[0].b0, 0x10);
    assert_eq!(log[0].b1, 0x02);
    assert_eq!(log[1].value, 0x2148);
    assert_eq!(log[1].b0, 0x00);
    assert_eq!(log[1].b1, 0x00);
}

#[test]
fn deinit_baseband_powers_off() {
    let mut h = sim_handle(Vec::new(), 0);
    assert_eq!(h.deinit_baseband(), 2);
    let log = log_of(&h);
    assert_eq!(log.len(), 1);
    assert_eq!(log[0].value, 0x3000);
    assert_eq!(log[0].index, 0x0210);
    assert_eq!(log[0].b0, 0x20);
    assert_eq!(log[0].b1, 0x20);
}

#[test]
fn if_reg_value_matches_the_formula() {
    // round(3570000 * 2^22 / 28800000) = 519919; its 22-bit two's
    // complement negation is 0x381111
    assert_eq!(rustl_sdr::baseband::if_reg_value(3570000), 0x381111);
    assert_eq!(rustl_sdr::baseband::if_reg_value(0), 0);
}

#[test]
fn set_if_freq_splits_the_value_over_three_registers() {
    let mut h = sim_handle(Vec::new(), 0);
    h.set_if_freq(3570000).unwrap();
    let log = log_of(&h);
    assert_eq!(log.len(), 6);
    assert_eq!(log[0].value, 0x1920);
    assert_eq!(log[0].b0, 0x38);
    assert_eq!(log[2].value, 0x1a20);
    assert_eq!(log[2].b0, 0x11);
    assert_eq!(log[4].value, 0x1b20);
    assert_eq!(log[4].b0, 0x11);
}

#[test]
fn fir_table_has_twenty_coefficients() {
    let fir = rustl_sdr::baseband::fir_coeffs();
    assert_eq!(fir.len(), 20);
    assert_eq!(fir[0], 0xca);
    assert_eq!(fir[19], 0xa5);
}

#[test]
fn error_descriptions_name_each_condition() {
    assert_eq!(RtlError::Transport.describe(), "control transfer failed");
    assert_eq!(RtlError::DeviceNotFound.describe(), "no supported device found");
    assert_eq!(RtlError::TunerNotFound.describe(), "no known tuner detected");
    assert_eq!(RtlError::UnsupportedOperation.describe(), "operation not implemented");
    assert_eq!(RtlError::InvalidArgument.describe(), "argument out of range");
    assert_eq!(RtlError::ProtocolMismatch.describe(), "unexpected status after write");
}
