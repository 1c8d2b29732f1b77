//! The tuner catalog, the R820T driver's shadow cache and algorithms, and
//! the orchestrator's lifecycle, exercised end to end against the simulated
//! dongle.

use rustl_sdr::error::RtlError;
use rustl_sdr::r820t::R820T;
use rustl_sdr::r820t::XtalCapValue;
use rustl_sdr::sdr::RtlSdr;
use rustl_sdr::sim::SimDevice;
use rustl_sdr::sim::XferRec;
use rustl_sdr::transport::Transport;
use rustl_sdr::tuner::TunerId;
use rustl_sdr::usb::RtlSdrDeviceHandle;

fn handle_over(table: Vec<(u8, u8, u8)>) -> RtlSdrDeviceHandle {
    RtlSdrDeviceHandle::new(Transport::Sim { dev: SimDevice::new(table, 0) })
}

fn sdr_over(table: Vec<(u8, u8, u8)>) -> RtlSdr {
    RtlSdr::new(Transport::Sim { dev: SimDevice::new(table, 0) })
}

fn sdr_log(s: &RtlSdr) -> &Vec<XferRec> {
    match &s.handle.t {
        Transport::Sim { dev } => &dev.log,
        Transport::Usb { .. } => panic!("expected the simulated transport"),
    }
}

#[test]
fn bitrev_reverses_bit_order() {
    assert_eq!(rustl_sdr::r820t::bitrev(0x01), 0x80);
    assert_eq!(rustl_sdr::r820t::bitrev(0x80), 0x01);
    assert_eq!(rustl_sdr::r820t::bitrev(0xa5), 0xa5);
    assert_eq!(rustl_sdr::r820t::bitrev(0x12), 0x48);
    assert_eq!(rustl_sdr::r820t::bitrev(rustl_sdr::r820t::bitrev(0x37)), 0x37);
}

#[test]
fn freq_range_lookup_picks_greatest_start_not_above_target() {
    let starts: Vec<u32> = [0u32, 49, 50, 649, 650, 651]
        .iter()
        .map(|&mhz| rustl_sdr::r820t::pick_range(mhz).freq)
        .collect();
    assert_eq!(starts, vec![0, 0, 50, 588, 650, 650]);
}

#[test]
fn freq_range_table_is_ascending() {
    let t = rustl_sdr::r820t::freq_ranges();
    assert_eq!(t.len(), 21);
    for w in t.windows(2) {
        assert!(w[0].freq < w[1].freq);
    }
}

#[test]
fn shadow_is_seeded_from_reset_defaults() {
    let t = R820T::new();
    assert_eq!(t.read_cache_reg(0x05), Some(0x83));
    assert_eq!(t.read_cache_reg(0x0c), Some(0xf5));
    assert_eq!(t.read_cache_reg(0x1f), Some(0xc0));
    assert!(!t.init_done);
}

#[test]
fn shadow_rejects_out_of_range_registers() {
    let t = R820T::new();
    assert_eq!(t.read_cache_reg(0x04), None);
    assert_eq!(t.read_cache_reg(0x20), None);
    assert_eq!(t.read_cache_reg(0xff), None);
}

#[test]
fn write_reg_updates_shadow_with_the_transfer() {
    let mut t = R820T::new();
    let mut h = handle_over(Vec::new());
    assert_eq!(t.write_reg(&mut h, 0x17, 0xaa), Ok(()));
    assert_eq!(t.read_cache_reg(0x17), Some(0xaa));
    let log = match &h.t {
        Transport::Sim { dev } => &dev.log,
        Transport::Usb { .. } => panic!("expected the simulated transport"),
    };
    assert_eq!(log.len(), 1);
    assert_eq!(log[0].value, 0x0034);
    assert_eq!(log[0].b0, 0x17);
    assert_eq!(log[0].b1, 0xaa);
}

#[test]
fn write_reg_keeps_shadow_on_failed_transfer() {
    let mut t = R820T::new();
    let mut dev = SimDevice::new(Vec::new(), 0);
    dev.fail_out = true;
    let mut h = RtlSdrDeviceHandle::new(Transport::Sim { dev });
    assert_eq!(t.write_reg(&mut h, 0x17, 0xaa), Err(RtlError::Transport));
    assert_eq!(t.read_cache_reg(0x17), Some(0x30));
}

#[test]
fn write_masked_out_of_range_fails_explicitly() {
    let mut t = R820T::new();
    let mut h = handle_over(Vec::new());
    assert_eq!(t.write_reg_mask(&mut h, 0x04, 0xff, 0xff), Err(RtlError::InvalidArgument));
    assert_eq!(t.write_reg_mask(&mut h, 0x20, 0xff, 0xff), Err(RtlError::InvalidArgument));
    // nothing was read or written: the transfer log stayed empty
    match &h.t {
        Transport::Sim { dev } => assert_eq!(dev.log.len(), 0),
        Transport::Usb { .. } => panic!("expected the simulated transport"),
    }
}

#[test]
fn write_masked_changes_only_masked_bits() {
    let mut t = R820T::new();
    let mut h = handle_over(Vec::new());
    // shadow of register 0x17 starts at 0x30
    assert_eq!(t.write_reg_mask(&mut h, 0x17, 0x08, 0x08), Ok(()));
    assert_eq!(t.read_cache_reg(0x17), Some(0x38));
    assert_eq!(t.write_reg_mask(&mut h, 0x17, 0x00, 0x08), Ok(()));
    assert_eq!(t.read_cache_reg(0x17), Some(0x30));
}

#[test]
fn burst_write_reverses_bits_and_updates_shadow() {
    let mut t = R820T::new();
    let mut h = handle_over(Vec::new());
    assert_eq!(t.write(&mut h, 0x05, &[0x01, 0x02, 0x03]), Ok(()));
    assert_eq!(t.read_cache_reg(0x05), Some(0x01));
    assert_eq!(t.read_cache_reg(0x06), Some(0x02));
    assert_eq!(t.read_cache_reg(0x07), Some(0x03));
    match &h.t {
        Transport::Sim { dev } => {
            assert_eq!(dev.log.len(), 1);
            assert_eq!(dev.log[0].b0, 0x05);
            // the first data byte goes out bit-reversed
            assert_eq!(dev.log[0].b1, 0x80);
            assert_eq!(dev.log[0].len, 4);
        },
        Transport::Usb { .. } => panic!("expected the simulated transport"),
    }
}

#[test]
fn burst_write_rejects_a_range_leaving_the_shadow() {
    let mut t = R820T::new();
    let mut h = handle_over(Vec::new());
    assert_eq!(t.write(&mut h, 0x1e, &[1, 2, 3]), Err(RtlError::InvalidArgument));
    assert_eq!(t.write(&mut h, 0x03, &[1]), Err(RtlError::InvalidArgument));
}

#[test]
fn burst_read_undoes_the_chip_bit_order() {
    let t = R820T::new();
    let mut h = handle_over(vec![(0x34, 0x02, 0x40)]);
    let d = t.read(&mut h, 0x02, 1).unwrap();
    assert_eq!(d, vec![0x02]);
}

#[test]
fn calibration_retains_first_locking_candidate() {
    let mut t = R820T::new();
    // lock register answers with the lock bit set
    let mut h = handle_over(vec![(0x34, 0x02, 0x40)]);
    assert_eq!(t.calibrate_xtal_cap(&mut h), Ok(XtalCapValue::XtalLowCap30P));
    assert!(t.has_lock);
    // shadow of register 0x10 went from 0x6c to (0x6c & !0x1b) | 0x0b
    assert_eq!(t.read_cache_reg(0x10), Some(0x6f));
}

#[test]
fn calibration_falls_back_to_high_cap_without_lock() {
    let mut t = R820T::new();
    let mut h = handle_over(Vec::new());
    assert_eq!(t.calibrate_xtal_cap(&mut h), Ok(XtalCapValue::XtalHighCap0P));
    assert!(!t.has_lock);
    assert_eq!(t.read_cache_reg(0x10), Some(0x74));
}

#[test]
fn applying_a_band_issues_the_four_masked_writes() {
    let mut t = R820T::new();
    let mut h = handle_over(Vec::new());
    assert_eq!(t.apply_freq_range(&mut h, 100), Ok(()));
    assert_eq!(t.read_cache_reg(0x17), Some(0x30));
    assert_eq!(t.read_cache_reg(0x1a), Some(0x22));
    assert_eq!(t.read_cache_reg(0x1b), Some(0x34));
    assert_eq!(t.read_cache_reg(0x10), Some(0x74));
}

#[test]
fn search_tuner_selects_the_r820t() {
    let mut h = handle_over(vec![(0x34, 0x00, 0x69)]);
    assert_eq!(rustl_sdr::tuner::search_tuner(&mut h), Ok(TunerId::R820t));
}

#[test]
fn search_tuner_selects_the_fc0013() {
    let mut h = handle_over(vec![(0xc6, 0x00, 0xa3)]);
    assert_eq!(rustl_sdr::tuner::search_tuner(&mut h), Ok(TunerId::Fc0013));
}

#[test]
fn search_tuner_prefers_catalog_order() {
    let mut h = handle_over(vec![(0xc6, 0x00, 0xa3), (0x34, 0x00, 0x69)]);
    assert_eq!(rustl_sdr::tuner::search_tuner(&mut h), Ok(TunerId::R820t));
}

#[test]
fn search_tuner_skips_a_mismatched_check_value() {
    let mut h = handle_over(vec![(0x34, 0x00, 0x00), (0xc6, 0x00, 0xa3)]);
    assert_eq!(rustl_sdr::tuner::search_tuner(&mut h), Ok(TunerId::Fc0013));
}

#[test]
fn search_tuner_reports_no_match() {
    let mut h = handle_over(Vec::new());
    assert_eq!(rustl_sdr::tuner::search_tuner(&mut h), Err(RtlError::TunerNotFound));
}

#[test]
fn open_selects_the_answering_driver_and_is_ready_untuned() {
    let mut sdr = sdr_over(vec![(0x34, 0x00, 0x69)]);
    assert_eq!(sdr.open(), Ok(()));
    assert!(sdr.opened);
    assert!(!sdr.repeater_on);
    match &mut sdr.tuner {
        Some(t) => {
            assert_eq!(t.display(), "Rafael Micro R820T");
            // ready, but untuned: tuning is an explicit extension point
            assert_eq!(t.set_freq(100_000_000), Err(RtlError::UnsupportedOperation));
        },
        None => panic!("open() left no tuner behind"),
    }
}

#[test]
fn open_issues_the_prescribed_bring_up_sequence() {
    let mut sdr = sdr_over(vec![(0x34, 0x00, 0x69)]);
    sdr.open().unwrap();
    let log = sdr_log(&sdr);
    // smoke test, 83 baseband transfers, repeater on, one probed
    // candidate, the twelve bring-up transfers of the driver, repeater off
    assert_eq!(log.len(), 1 + 83 + 2 + 2 + 12 + 2);
    assert_eq!(log[0].value, 0x2000);
    // repeater enabled right after bring-up, before any tuner traffic
    assert_eq!(log[84].value, 0x0120);
    assert_eq!(log[84].b0, 0x18);
    // the probe addresses the first catalog entry over the I2C bridge
    assert_eq!(log[86].value, 0x0034);
    assert_eq!(log[86].index, 0x0610);
    // and the repeater is released at the end
    assert_eq!(log[100].value, 0x0120);
    assert_eq!(log[100].b0, 0x10);
}

#[test]
fn open_without_any_match_reports_tuner_not_found() {
    let mut sdr = sdr_over(Vec::new());
    assert_eq!(sdr.open(), Err(RtlError::TunerNotFound));
    assert!(!sdr.opened);
    assert!(sdr.tuner.is_none());
    // both candidates probed, repeater released, baseband torn down
    assert_eq!(sdr_log(&sdr).len(), 1 + 83 + 2 + 4 + 2 + 1);
    assert_eq!(sdr_log(&sdr)[92].value, 0x3000);
}

#[test]
fn open_on_a_dead_control_channel_reports_transport() {
    let mut dev = SimDevice::new(Vec::new(), 0);
    dev.fail_out = true;
    let mut sdr = RtlSdr::new(Transport::Sim { dev });
    assert_eq!(sdr.open(), Err(RtlError::Transport));
    // the smoke test, one bounded reset-and-retry, and nothing more
    assert_eq!(sdr_log(&sdr).len(), 4);
}

#[test]
fn open_on_an_unfilled_driver_reports_unsupported() {
    let mut sdr = sdr_over(vec![(0xc6, 0x00, 0xa3)]);
    assert_eq!(sdr.open(), Err(RtlError::UnsupportedOperation));
}

#[test]
fn close_is_idempotent() {
    let mut sdr = sdr_over(vec![(0x34, 0x00, 0x69)]);
    sdr.open().unwrap();
    let before = sdr_log(&sdr).len();
    sdr.close();
    assert!(!sdr.opened);
    assert_eq!(sdr_log(&sdr).len(), before + 1);
    sdr.close();
    assert_eq!(sdr_log(&sdr).len(), before + 1);
}

#[test]
fn sample_rate_rejects_out_of_range_and_dead_zone() {
    let mut sdr = sdr_over(vec![(0x34, 0x00, 0x69)]);
    sdr.open().unwrap();
    assert_eq!(sdr.set_sample_rate(225000), Err(RtlError::InvalidArgument));
    assert_eq!(sdr.set_sample_rate(900000), Err(RtlError::InvalidArgument));
    assert_eq!(sdr.set_sample_rate(3200001), Err(RtlError::InvalidArgument));
    assert_eq!(sdr.set_sample_rate(0), Err(RtlError::InvalidArgument));
}

#[test]
fn sample_rate_accepts_the_range_ends() {
    let mut sdr = sdr_over(vec![(0x34, 0x00, 0x69)]);
    sdr.open().unwrap();
    assert!(sdr.set_sample_rate(225001).is_ok());
    assert!(sdr.set_sample_rate(3200000).is_ok());
    assert!(sdr.set_sample_rate(250000).is_ok());
    // 300000 sits on the edge of the dead zone, which is the half-open
    // interval (300000, 900000]: the boundary itself is still accepted,
    // while 900000 at the other end is not
    assert!(sdr.set_sample_rate(300000).is_ok());
}

#[test]
fn sample_rate_programs_the_corrected_ratio() {
    let mut sdr = sdr_over(vec![(0x34, 0x00, 0x69)]);
    sdr.open().unwrap();
    let before = sdr_log(&sdr).len();
    // 28.8 MHz * 2^22 / 2048000 = 0x3840000 exactly
    assert_eq!(sdr.set_sample_rate(2048000), Ok(2048000));
    let log = sdr_log(&sdr);
    assert_eq!(log.len(), before + 12);
    // repeater on, repeater off, then the ratio halves
    assert_eq!(log[before].b0, 0x18);
    assert_eq!(log[before + 2].b0, 0x10);
    let hi = &log[before + 4];
    assert_eq!(hi.value, 0x9f20);
    assert_eq!((hi.b0, hi.b1), (0x03, 0x84));
    let lo = &log[before + 6];
    assert_eq!(lo.value, 0xa120);
    assert_eq!((lo.b0, lo.b1), (0x00, 0x00));
    // and the soft reset latches the change
    assert_eq!(log[before + 8].b0, 0x14);
    assert_eq!(log[before + 10].b0, 0x10);
}

#[test]
fn sample_rate_corrects_bit_twenty_eight() {
    let mut sdr = sdr_over(vec![(0x34, 0x00, 0x69)]);
    sdr.open().unwrap();
    let before = sdr_log(&sdr).len();
    // 28.8 MHz * 2^22 / 250000 = 483183820.8; the floor masked to
    // 0x0ccccccc keeps bit 27 set, so bit 28 is echoed: 0x1ccccccc
    let r = sdr.set_sample_rate(250000).unwrap();
    assert_eq!(r, 120795955200000u64.checked_div(0x1ccccccc).unwrap() as u32);
    let log = sdr_log(&sdr);
    let hi = &log[before + 4];
    assert_eq!((hi.b0, hi.b1), (0x1c, 0xcc));
    let lo = &log[before + 6];
    assert_eq!((lo.b0, lo.b1), (0xcc, 0xcc));
}

#[test]
fn sample_rate_works_without_a_tuner() {
    // a capture-only session is still meaningful
    let mut sdr = sdr_over(Vec::new());
    assert_eq!(sdr.open(), Err(RtlError::TunerNotFound));
    assert!(sdr.set_sample_rate(2048000).is_ok());
}

#[test]
fn set_test_mode_writes_the_mode_values() {
    let mut sdr = sdr_over(Vec::new());
    let before = sdr_log(&sdr).len();
    sdr.set_test_mode(true).unwrap();
    sdr.set_test_mode(false).unwrap();
    let log = sdr_log(&sdr);
    assert_eq!(log[before].value, 0x1920);
    assert_eq!(log[before].index, 0x0010);
    assert_eq!(log[before].b0, 0x03);
    assert_eq!(log[before + 2].b0, 0x05);
}

#[test]
fn unsupported_operations_fail_explicitly() {
    let mut t = rustl_sdr::tuner::Tuner::for_id(TunerId::R820t);
    assert_eq!(t.set_gain(100), Err(RtlError::UnsupportedOperation));
    assert_eq!(t.set_if_gain(100), Err(RtlError::UnsupportedOperation));
    assert_eq!(t.set_gain_mode(true), Err(RtlError::UnsupportedOperation));
    assert_eq!(t.set_freq(100_000_000), Err(RtlError::UnsupportedOperation));
    let mut f = rustl_sdr::tuner::Tuner::for_id(TunerId::Fc0013);
    assert_eq!(f.set_gain(100), Err(RtlError::UnsupportedOperation));
    assert_eq!(f.display(), "Fitipower FC0013");
}

#[test]
fn bandwidth_selection_is_an_unfilled_extension_point() {
    // both sides of the 7 MHz threshold fail explicitly and issue no
    // transfer until the realized-bandwidth selection is implemented
    let mut t = R820T::new();
    let mut h = handle_over(Vec::new());
    assert_eq!(
        t.set_bandwidth(8_000_000, 8_000_000, &mut h),
        Err(RtlError::UnsupportedOperation)
    );
    assert_eq!(
        t.set_bandwidth(2_048_000, 2_048_000, &mut h),
        Err(RtlError::UnsupportedOperation)
    );
    match &h.t {
        Transport::Sim { dev } => assert_eq!(dev.log.len(), 0),
        Transport::Usb { .. } => panic!("expected the simulated transport"),
    }
}

#[test]
fn set_freq_without_a_tuner_reports_tuner_not_found() {
    let mut sdr = sdr_over(Vec::new());
    assert_eq!(sdr.set_freq(100_000_000), Err(RtlError::TunerNotFound));
}

#[test]
fn set_freq_with_a_tuner_is_an_extension_point() {
    let mut sdr = sdr_over(vec![(0x34, 0x00, 0x69)]);
    sdr.open().unwrap();
    assert_eq!(sdr.set_freq(100_000_000), Err(RtlError::UnsupportedOperation));
}

#[test]
fn init_tuner_installs_the_selected_driver() {
    let mut sdr = sdr_over(Vec::new());
    assert_eq!(sdr.init_tuner(TunerId::R820t), Ok(()));
    assert!(sdr.tuner.is_some());
    let mut other = sdr_over(Vec::new());
    assert_eq!(other.init_tuner(TunerId::Fc0013), Err(RtlError::UnsupportedOperation));
    assert!(other.tuner.is_none());
}

#[test]
fn read_sync_is_a_placeholder() {
    let sdr = sdr_over(Vec::new());
    assert_eq!(sdr.read_sync(512).len(), 0);
}

#[test]
fn catalogs_list_the_known_hardware() {
    let tuners = rustl_sdr::tuner::known_tuners();
    assert_eq!(tuners.len(), 2);
    assert_eq!(tuners[0].id, TunerId::R820t);
    assert_eq!(tuners[0].i2c_addr, 0x34);
    assert_eq!(tuners[0].check_val, 0x69);
    assert_eq!(tuners[1].id, TunerId::Fc0013);
    let devs = rustl_sdr::sdr::known_devices();
    assert_eq!(devs, vec![(0x0bda, 0x2832), (0x0bda, 0x2838)]);
}

#[test]
fn tuner_names_match_the_catalog() {
    assert_eq!(rustl_sdr::tuner::tuner_name(TunerId::R820t), "Rafael Micro R820T");
    assert_eq!(rustl_sdr::tuner::tuner_name(TunerId::Fc0013), "Fitipower FC0013");
}
