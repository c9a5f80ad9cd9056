use vdmtool::cd321x::{
    is_invalid_cmd, vdms_payload, BusAction, BusEvent, Device, Operation, TpsMode, VdmSopType,
    CMD_TIMEOUT, INVALID_CMD, POLL_WAIT, RECONNECT_TIMEOUT, RECONNECT_WAIT, TPS_REG_CMD1,
    TPS_REG_DATA1, TPS_REG_MODE, TPS_REG_POWER_STATUS, VDM_RESPONSE_DELAY,
};
use vdmtool::error::Error;

fn read(data: &[u8], now: u64) -> BusEvent {
    BusEvent::Read { data: data.to_vec(), now }
}

fn rd(reg: u8, len: usize) -> BusAction {
    BusAction::Read { reg, len }
}

fn wr(reg: u8, data: &[u8]) -> BusAction {
    BusAction::Write { reg, data: data.to_vec() }
}

/// Runs a command stage against a controller that is free and finishes at
/// once; `first` is the busy-check read the stage began with.
fn complete_command(dev: &mut Device, first: BusAction, tag: &[u8], data: &[u8], delay: u64) -> BusAction {
    assert_eq!(first, rd(TPS_REG_CMD1, 4));
    let mut a = dev.step(read(&[0, 0, 0, 0], 0));
    if !data.is_empty() {
        assert_eq!(a, wr(TPS_REG_DATA1, data));
        a = dev.step(BusEvent::Wrote { now: 1 });
    }
    assert_eq!(a, wr(TPS_REG_CMD1, tag));
    let a = dev.step(BusEvent::Wrote { now: 2 });
    assert_eq!(a, rd(TPS_REG_CMD1, 4));
    let a = dev.step(read(&[0, 0, 0, 0], 3));
    assert_eq!(a, BusAction::Sleep { nanos: delay });
    dev.step(BusEvent::Slept { now: 4 })
}

fn opened() -> Device {
    let (mut dev, a) = Device::new("J314".to_string());
    assert_eq!(a, rd(TPS_REG_MODE, 4));
    let a = dev.step(read(b"APP ", 0));
    let a = complete_command(&mut dev, a, b"LOCK", b"413J", 0);
    let a = complete_command(&mut dev, a, b"DBMa", &[1], 0);
    assert_eq!(a, rd(TPS_REG_MODE, 4));
    let a = dev.step(read(b"DBMa", 5));
    assert_eq!(a, BusAction::Done(Ok(())));
    assert!(dev.is_idle());
    dev
}

#[test]
fn mode_tags_decode() {
    assert_eq!(TpsMode::from_tag(b"APP "), Some(TpsMode::App));
    assert_eq!(TpsMode::from_tag(b"BOOT"), Some(TpsMode::Boot));
    assert_eq!(TpsMode::from_tag(b"BIST"), Some(TpsMode::Bist));
    assert_eq!(TpsMode::from_tag(b"DISC"), Some(TpsMode::Disc));
    assert_eq!(TpsMode::from_tag(b"PTCH"), Some(TpsMode::Ptch));
    assert_eq!(TpsMode::from_tag(b"DBMa"), Some(TpsMode::Dbma));
    assert_eq!(TpsMode::from_tag(b"DBMA"), None);
    assert_eq!(TpsMode::from_tag(b"APP"), None);
    assert_eq!(TpsMode::from_str("APP "), Ok(TpsMode::App));
    assert_eq!(TpsMode::from_str("DBMa"), Ok(TpsMode::Dbma));
    assert_eq!(TpsMode::from_str("app "), Err(()));
    assert_eq!(TpsMode::from_str(""), Err(()));
}

#[test]
fn get_mode_and_power_status() {
    assert_eq!(Device::get_mode(b"PTCH"), Ok(TpsMode::Ptch));
    assert_eq!(Device::get_mode(b"XXXX"), Err(Error::TypecController));
    assert!(Device::check_connected(&[0x01, 0x00]));
    assert!(Device::check_connected(&[0x03, 0xff]));
    assert!(!Device::check_connected(&[0x02, 0x01]));
    assert!(!Device::check_connected(&[0x00, 0x00]));
}

#[test]
fn invalid_cmd_is_bang_cmd() {
    assert_eq!(INVALID_CMD, u32::from_le_bytes(*b"!CMD"));
    assert!(is_invalid_cmd(0x444d4321));
    assert!(!is_invalid_cmd(0));
    assert!(!is_invalid_cmd(0x444d4322));
}

#[test]
fn vdms_payload_layout() {
    let p = vdms_payload(VdmSopType::SopStar, &[0x5ac8012, 0x106, 0x80010000]).unwrap();
    let mut expected = vec![0x33u8];
    for v in [0x5ac8012u32, 0x106, 0x80010000] {
        expected.extend_from_slice(&v.to_le_bytes());
    }
    assert_eq!(p, expected);
    let p = vdms_payload(VdmSopType::Sop, &[1]).unwrap();
    assert_eq!(p, vec![0x01, 1, 0, 0, 0]);
    let p = vdms_payload(VdmSopType::SopPrimePrime, &[7; 7]).unwrap();
    assert_eq!(p[0], 0x27);
    assert_eq!(p.len(), 29);
}

#[test]
fn vdms_payload_refuses_bad_counts() {
    assert_eq!(vdms_payload(VdmSopType::SopStar, &[]), Err(Error::InvalidArgument));
    assert_eq!(vdms_payload(VdmSopType::SopStar, &[0; 8]), Err(Error::InvalidArgument));
}

#[test]
fn open_unlocks_and_enters_debug_mode() {
    let _ = opened();
}

#[test]
fn open_refuses_controller_outside_app_mode() {
    let (mut dev, _) = Device::new("J314".to_string());
    assert_eq!(dev.step(read(b"BOOT", 0)), BusAction::Done(Err(Error::TypecController)));
    assert!(dev.is_idle());
}

#[test]
fn busy_controller_refuses_command() {
    let mut dev = opened();
    let a = dev.lock(b"abcd");
    assert_eq!(a, rd(TPS_REG_CMD1, 4));
    assert_eq!(dev.step(read(b"LOCK", 0)), BusAction::Done(Err(Error::TypecController)));
}

#[test]
fn leftover_invalid_answer_counts_as_free() {
    let mut dev = opened();
    let a = dev.exec_cmd(b"DISC", &[]);
    assert_eq!(a, rd(TPS_REG_CMD1, 4));
    assert_eq!(dev.step(read(b"!CMD", 0)), wr(TPS_REG_CMD1, b"DISC"));
}

#[test]
fn invalid_command_is_reported() {
    let mut dev = opened();
    let _ = dev.exec_cmd(b"XXXX", &[9]);
    assert_eq!(dev.step(read(&[0; 4], 0)), wr(TPS_REG_DATA1, &[9]));
    assert_eq!(dev.step(BusEvent::Wrote { now: 0 }), wr(TPS_REG_CMD1, b"XXXX"));
    assert_eq!(dev.step(BusEvent::Wrote { now: 10 }), rd(TPS_REG_CMD1, 4));
    assert_eq!(dev.step(read(b"!CMD", 20)), BusAction::Done(Err(Error::TypecController)));
}

#[test]
fn command_times_out() {
    let mut dev = opened();
    let _ = dev.exec_cmd(b"DVEn", &[]);
    let _ = dev.step(read(&[0; 4], 0));
    assert_eq!(dev.step(BusEvent::Wrote { now: 100 }), rd(TPS_REG_CMD1, 4));
    // Still busy, but exactly at the timeout: keep polling.
    assert_eq!(dev.step(read(b"DVEn", 100 + CMD_TIMEOUT)), rd(TPS_REG_CMD1, 4));
    assert_eq!(dev.step(read(b"DVEn", 101 + CMD_TIMEOUT)), BusAction::Done(Err(Error::ControllerTimeout)));
}

#[test]
fn clock_going_back_counts_as_no_time() {
    let mut dev = opened();
    let _ = dev.exec_cmd(b"DVEn", &[]);
    let _ = dev.step(read(&[0; 4], 0));
    let _ = dev.step(BusEvent::Wrote { now: u64::MAX });
    assert_eq!(dev.step(read(b"DVEn", 0)), rd(TPS_REG_CMD1, 4));
}

#[test]
fn bus_failure_ends_operation() {
    let mut dev = opened();
    let _ = dev.dbma(false);
    assert_eq!(dev.step(BusEvent::Failed(Error::I2C)), BusAction::Done(Err(Error::I2C)));
    let _ = dev.dbma(false);
    let _ = dev.step(read(&[0; 4], 0));
    assert_eq!(dev.step(BusEvent::Failed(Error::Spmi)), BusAction::Done(Err(Error::Spmi)));
}

#[test]
fn dbma_off_then_mode_check() {
    let mut dev = opened();
    let a = dev.dbma(false);
    let a = complete_command(&mut dev, a, b"DBMa", &[0], 0);
    assert_eq!(a, rd(TPS_REG_MODE, 4));
    assert_eq!(dev.step(read(b"APP ", 0)), BusAction::Done(Err(Error::TypecController)));
}

#[test]
fn dfu_sends_vdm() {
    let mut dev = opened();
    let a = dev.dfu();
    assert_eq!(a, rd(TPS_REG_MODE, 4));
    let a = dev.step(read(b"DBMa", 0));
    let payload = vdms_payload(VdmSopType::SopStar, &[0x5ac8012, 0x106, 0x80010000]).unwrap();
    let a = complete_command(&mut dev, a, b"VDMs", &payload, VDM_RESPONSE_DELAY);
    assert_eq!(a, BusAction::Done(Ok(())));
}

#[test]
fn vdms_checks_debug_mode() {
    let mut dev = opened();
    let _ = dev.debugusb();
    assert_eq!(dev.step(read(b"APP ", 0)), BusAction::Done(Err(Error::TypecController)));
}

#[test]
fn vdms_refuses_bad_count_without_transfer() {
    let mut dev = opened();
    assert_eq!(dev.vdms(VdmSopType::SopStar, &[]), BusAction::Done(Err(Error::InvalidArgument)));
    assert!(dev.is_idle());
    assert_eq!(dev.vdms(VdmSopType::Sop, &[1, 2, 3, 4, 5, 6, 7, 8]), BusAction::Done(Err(Error::InvalidArgument)));
}

#[test]
fn serial_sets_up_both_ends() {
    let mut dev = opened();
    let a = dev.serial();
    let a = {
        assert_eq!(a, rd(TPS_REG_MODE, 4));
        dev.step(read(b"DBMa", 0))
    };
    let payload = vdms_payload(VdmSopType::SopStar, &[0x5ac8012, 0x1840306]).unwrap();
    let a = complete_command(&mut dev, a, b"VDMs", &payload, VDM_RESPONSE_DELAY);
    assert_eq!(a, rd(TPS_REG_MODE, 4));
    let a = dev.step(read(b"DBMa", 0));
    let a = complete_command(&mut dev, a, b"DVEn", &0x1840306u32.to_le_bytes(), 0);
    assert_eq!(a, BusAction::Done(Ok(())));
}

#[test]
fn dven_sends_objects() {
    let mut dev = opened();
    let a = dev.dven(&[1, 0x01020304]);
    let a = complete_command(&mut dev, a, b"DVEn", &[1, 0, 0, 0, 4, 3, 2, 1], 0);
    assert_eq!(a, BusAction::Done(Ok(())));
}

#[test]
fn disconnect_then_mode_check() {
    let mut dev = opened();
    let a = dev.disconnect();
    let a = complete_command(&mut dev, a, b"DISC", &[3], 0);
    assert_eq!(a, rd(TPS_REG_MODE, 4));
    assert_eq!(dev.step(read(b"DBMa", 0)), BusAction::Done(Ok(())));
}

#[test]
fn exec_cmd_with_timing_waits_after() {
    let mut dev = opened();
    let a = dev.exec_cmd_with_timing(b"TEST", &[], 5, 77);
    let a = complete_command(&mut dev, a, b"TEST", &[], 77);
    assert_eq!(a, BusAction::Done(Ok(())));
}

fn rebooted(dev: &mut Device) -> BusAction {
    let a = dev.reboot_wait();
    assert_eq!(a, rd(TPS_REG_MODE, 4));
    let a = dev.step(read(b"DBMa", 0));
    let payload = vdms_payload(VdmSopType::SopStar, &[0x5ac8012, 0x105, 0x80000000]).unwrap();
    complete_command(dev, a, b"VDMs", &payload, VDM_RESPONSE_DELAY)
}

#[test]
fn reboot_wait_sees_partner_again() {
    let mut dev = opened();
    let a = rebooted(&mut dev);
    assert_eq!(a, BusAction::Sleep { nanos: RECONNECT_WAIT });
    assert_eq!(dev.step(BusEvent::Slept { now: 1000 }), rd(TPS_REG_POWER_STATUS, 2));
    assert_eq!(dev.step(read(&[0, 0], 1010)), BusAction::Sleep { nanos: POLL_WAIT });
    assert_eq!(dev.step(BusEvent::Slept { now: 2000 }), rd(TPS_REG_POWER_STATUS, 2));
    // A failed look counts as "not connected".
    assert_eq!(dev.step(BusEvent::Failed(Error::I2C)), BusAction::Sleep { nanos: POLL_WAIT });
    assert_eq!(dev.step(BusEvent::Slept { now: 3000 }), rd(TPS_REG_POWER_STATUS, 2));
    assert_eq!(dev.step(read(&[1, 0], 3010)), BusAction::Sleep { nanos: RECONNECT_WAIT });
    assert_eq!(dev.step(BusEvent::Slept { now: 4000 }), BusAction::Done(Ok(())));
}

#[test]
fn reboot_wait_gives_up() {
    let mut dev = opened();
    let _ = rebooted(&mut dev);
    let _ = dev.step(BusEvent::Slept { now: 1000 });
    assert_eq!(dev.step(read(&[0, 0], 1010)), BusAction::Sleep { nanos: POLL_WAIT });
    assert_eq!(dev.step(BusEvent::Slept { now: 1000 + RECONNECT_TIMEOUT }), rd(TPS_REG_POWER_STATUS, 2));
    assert_eq!(dev.step(read(&[0, 0], 1001 + RECONNECT_TIMEOUT)), BusAction::Sleep { nanos: POLL_WAIT });
    assert_eq!(
        dev.step(BusEvent::Slept { now: 1001 + RECONNECT_TIMEOUT }),
        BusAction::Done(Err(Error::ReconnectTimeout))
    );
}

#[test]
fn operations_start_their_scripts() {
    let mut dev = opened();
    assert_eq!(dev.begin_operation(Operation::Disconnect), rd(TPS_REG_CMD1, 4));
    assert_eq!(dev.begin_operation(Operation::Reboot), rd(TPS_REG_MODE, 4));
    assert_eq!(dev.begin_operation(Operation::Dfu), rd(TPS_REG_MODE, 4));
}

#[test]
fn drop_sequence_locks_with_zero_key() {
    assert_eq!(Device::release_operations(), vec![Operation::LeaveDebugMode, Operation::Relock]);
    let mut dev = opened();
    let a = dev.begin_operation(Operation::LeaveDebugMode);
    let a = complete_command(&mut dev, a, b"DBMa", &[0], 0);
    assert_eq!(a, rd(TPS_REG_MODE, 4));
    // The controller stays in debug mode: the first operation fails ...
    assert_eq!(dev.step(read(b"APP ", 0)), BusAction::Done(Err(Error::TypecController)));
    // ... and the relock runs all the same.
    let a = dev.begin_operation(Operation::Relock);
    let a = complete_command(&mut dev, a, b"LOCK", &[0, 0, 0, 0], 0);
    assert_eq!(a, BusAction::Done(Ok(())));
}

#[test]
fn key_is_reversed_code() {
    let (mut dev, _) = Device::new("J293".to_string());
    let a = dev.step(read(b"APP ", 0));
    assert_eq!(a, rd(TPS_REG_CMD1, 4));
    assert_eq!(dev.step(read(&[0; 4], 0)), wr(TPS_REG_DATA1, b"392J"));
}

#[test]
fn vdm_send_runs_as_timed_command() {
    let vdos = [0x5ac8012u32, 0x106, 0x80010000];
    let payload = vdms_payload(VdmSopType::SopStar, &vdos).unwrap();
    let events = || {
        vec![
            read(&[0, 0, 0, 0], 0),
            BusEvent::Wrote { now: 1 },
            BusEvent::Wrote { now: 2 },
            read(b"VDMs", 3),
            read(&[0, 0, 0, 0], 4),
            BusEvent::Slept { now: 5 },
        ]
    };
    let mut a = opened();
    assert_eq!(a.vdms(VdmSopType::SopStar, &vdos), rd(TPS_REG_MODE, 4));
    let mut b = opened();
    assert_eq!(
        a.step(read(b"DBMa", 0)),
        b.exec_cmd_with_timing(b"VDMs", &payload, 200_000_000, 200_000_000)
    );
    for e in events() {
        let e2 = match &e {
            BusEvent::Read { data, now } => BusEvent::Read { data: data.clone(), now: *now },
            BusEvent::Wrote { now } => BusEvent::Wrote { now: *now },
            BusEvent::Slept { now } => BusEvent::Slept { now: *now },
            BusEvent::Failed(x) => BusEvent::Failed(*x),
        };
        assert_eq!(a.step(e), b.step(e2));
    }
    assert!(a.is_idle() && b.is_idle());
}
