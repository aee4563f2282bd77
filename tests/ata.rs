use spindown_daemon::ata::{
    ata_pass_through_cdb, check_power_state, decode_power_mode, do_standby, sg_request,
    PowerState, ATA_CHECK_POWER_MODE, ATA_OP_STANDBYNOW, SENSE_LEN, SG_DXFER_NONE,
    SG_TIMEOUT_MS,
};
use spindown_daemon::errors::DeviceError;

#[test]
fn decode_named_codes() {
    assert_eq!(decode_power_mode(0x00), PowerState::Standby);
    assert_eq!(decode_power_mode(0x80), PowerState::Idle);
    assert_eq!(decode_power_mode(0x81), PowerState::IdleA);
    assert_eq!(decode_power_mode(0x82), PowerState::IdleB);
    assert_eq!(decode_power_mode(0x83), PowerState::IdleC);
    assert_eq!(decode_power_mode(0xFF), PowerState::ActiveOrIdle);
}

#[test]
fn decode_is_total_over_all_bytes() {
    let named = [0x00u8, 0x80, 0x81, 0x82, 0x83, 0xFF];
    for code in 0u16..256 {
        let code = code as u8;
        let state = decode_power_mode(code);
        if named.contains(&code) {
            assert_ne!(state, PowerState::Unknown);
        } else {
            assert_eq!(state, PowerState::Unknown);
        }
    }
    assert_eq!(decode_power_mode(0x01), PowerState::Unknown);
    assert_eq!(decode_power_mode(0x84), PowerState::Unknown);
    assert_eq!(decode_power_mode(0xFE), PowerState::Unknown);
}

#[test]
fn power_state_names() {
    assert_eq!(PowerState::Standby.name(), "Standby");
    assert_eq!(PowerState::IdleB.name(), "IdleB");
    assert_eq!(PowerState::ActiveOrIdle.name(), "ActiveOrIdle");
    assert_eq!(PowerState::Unknown.name(), "Unknown");
}

#[test]
fn command_block_for_check_power_mode() {
    let cdb = ata_pass_through_cdb(ATA_CHECK_POWER_MODE);
    assert_eq!(
        cdb,
        [0x85, 0x06, 0x2c, 0, 0, 0, 0, 0, 0, 0, 0, 0, 0, 0, 0xE5, 0]
    );
}

#[test]
fn command_block_for_standby() {
    let cdb = ata_pass_through_cdb(ATA_OP_STANDBYNOW);
    assert_eq!(
        cdb,
        [0x85, 0x06, 0x2c, 0, 0, 0, 0, 0, 0, 0, 0, 0, 0, 0, 0xE0, 0]
    );
}

#[test]
fn request_for_device() {
    let req = sg_request(&String::from("sda"), ATA_CHECK_POWER_MODE);
    assert_eq!(req.path, "/dev/sda");
    assert_eq!(req.interface_id, 'S' as i32);
    assert_eq!(req.dxfer_direction, SG_DXFER_NONE);
    assert_eq!(req.dxfer_direction, -1);
    assert_eq!(req.sense_len, 32);
    assert_eq!(req.sense_len, SENSE_LEN);
    assert_eq!(req.timeout_ms, 15000);
    assert_eq!(req.timeout_ms, SG_TIMEOUT_MS);
    assert_eq!(req.cdb[14], 0xE5);
}

#[test]
fn standby_request_for_device() {
    let req = do_standby(&String::from("sdc"));
    assert_eq!(req.path, "/dev/sdc");
    assert_eq!(req.cdb, ata_pass_through_cdb(0xE0));
    assert_eq!(req.sense_len, 32);
    assert_eq!(req.timeout_ms, 15000);
}

#[test]
fn power_state_from_sense_buffer() {
    let mut sense = [0u8; 32];
    sense[13] = 0x80;
    assert_eq!(check_power_state(Ok(sense)), Ok(PowerState::Idle));
    sense[13] = 0x00;
    assert_eq!(check_power_state(Ok(sense)), Ok(PowerState::Standby));
    sense[13] = 0x42;
    assert_eq!(check_power_state(Ok(sense)), Ok(PowerState::Unknown));
}

#[test]
fn power_state_ignores_other_sense_bytes() {
    let mut sense = [0xFFu8; 32];
    sense[13] = 0x83;
    assert_eq!(check_power_state(Ok(sense)), Ok(PowerState::IdleC));
}

#[test]
fn power_state_passes_transport_error_on() {
    let err = DeviceError::new(String::from("/dev/sda"), String::from("No such device"));
    let expected = DeviceError::new(String::from("/dev/sda"), String::from("No such device"));
    assert_eq!(check_power_state(Err(err)), Err(expected));
}

#[test]
fn device_error_keeps_fields() {
    let err = DeviceError::new(String::from("/sys/block/sdb/stat"), String::from("denied"));
    assert_eq!(err.filepath, "/sys/block/sdb/stat");
    assert_eq!(err.message, "denied");
}
