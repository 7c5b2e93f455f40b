use ssd1306_i2c::{I2c, I2cError, COMMAND_PREFIX, DATA_PREFIX, I2C_SLAVE};

#[test]
fn bind_request_uses_set_slave_code() {
    let r = I2c::bind_request(0x3C);
    assert_eq!(r.request, 0x0703);
    assert_eq!(r.request, I2C_SLAVE);
    assert_eq!(r.argument, 0x3C);
}

#[test]
fn every_seven_bit_address_binds() {
    for addr in 0u8..=127 {
        let c = I2c::new(addr, 0).unwrap();
        assert_eq!(c.slave_adress(), addr);
    }
}

#[test]
fn positive_bind_status_succeeds() {
    let c = I2c::new(0x3D, 5).unwrap();
    assert_eq!(c.slave_adress(), 0x3D);
}

#[test]
fn negative_bind_status_is_bus_bind_error() {
    for status in [-1, -22, i32::MIN] {
        assert!(matches!(I2c::new(0x3C, status), Err(I2cError::BusBind)));
    }
}

#[test]
fn data_frame_prefixes_payload() {
    let mut c = I2c::new(0x3C, 0).unwrap();
    assert_eq!(c.write_data(&[1, 2, 3, 0x40, 0x00]), vec![0x40, 1, 2, 3, 0x40, 0x00]);
}

#[test]
fn empty_data_sends_prefix_alone() {
    let mut c = I2c::new(0x3C, 0).unwrap();
    assert_eq!(c.write_data(&[]), vec![DATA_PREFIX]);
}

#[test]
fn command_frame_is_two_bytes() {
    let mut c = I2c::new(0x3C, 0).unwrap();
    for cmd in [0x00u8, 0x40, 0xAF, 0xFF] {
        assert_eq!(c.write_command(cmd), vec![COMMAND_PREFIX, cmd]);
    }
}

#[test]
fn command_then_data_stay_separate_in_order() {
    let mut c = I2c::new(0x3C, 0).unwrap();
    let first = c.write_command(0x81);
    let second = c.write_data(&[0x7F]);
    assert_eq!(first, vec![0x00, 0x81]);
    assert_eq!(second, vec![0x40, 0x7F]);
    assert_eq!(c.slave_adress(), 0x3C);
}

#[test]
fn display_off_then_two_pixels() {
    let mut c = I2c::new(0x3C, 0).unwrap();
    let cmd = c.write_command(0xAE);
    assert_eq!(cmd, vec![0x00, 0xAE]);
    assert_eq!(cmd.len(), 2);
    let data = c.write_data(&[0xFF, 0x00]);
    assert_eq!(data, vec![0x40, 0xFF, 0x00]);
    assert_eq!(data.len(), 3);
}

#[test]
fn refused_bind_leaves_no_connection() {
    let r = I2c::new(0x3C, -1);
    assert!(matches!(r, Err(I2cError::BusBind)));
    assert!(r.is_err());
}
