use l3gd20::measurement::{axis, celcius, raw_temperature};
use l3gd20::{I16x3, Measurements, Status};

const NO_FLAG: Status = Status {
    overrun: false,
    z_overrun: false,
    y_overrun: false,
    x_overrun: false,
    new_data: false,
    z_new: false,
    y_new: false,
    x_new: false,
};

#[test]
fn temperature_conversion() {
    assert_eq!(celcius(raw_temperature(0x00)), 25);
    assert_eq!(celcius(raw_temperature(0xFF)), 26);
    assert_eq!(celcius(raw_temperature(0x0A)), 15);
}

#[test]
fn raw_temperature_is_the_byte_as_a_signed_number() {
    assert_eq!(raw_temperature(0x00), 0);
    assert_eq!(raw_temperature(0x0A), 10);
    assert_eq!(raw_temperature(0x7F), 127);
    assert_eq!(raw_temperature(0x80), -128);
    assert_eq!(raw_temperature(0xFF), -1);
    for byte in 0..=255u8 {
        assert_eq!(raw_temperature(byte), byte as i8);
    }
}

#[test]
fn temperature_at_the_ends_of_the_range() {
    assert_eq!(celcius(i8::MAX), -102);
    assert_eq!(celcius(i8::MIN), 153);
    for raw in i8::MIN..=i8::MAX {
        assert_eq!(celcius(raw), 25 - raw as i16);
    }
}

#[test]
fn measurements_temp_celcius() {
    let gyro = I16x3 { x: 1, y: 2, z: 3 };
    assert_eq!(Measurements { gyro, temp_raw: 0 }.temp_celcius(), 25);
    assert_eq!(Measurements { gyro, temp_raw: -1 }.temp_celcius(), 26);
    assert_eq!(Measurements { gyro, temp_raw: 10 }.temp_celcius(), 15);
    assert_eq!(Measurements { gyro, temp_raw: i8::MIN }.temp_celcius(), 153);
}

#[test]
fn axis_reconstruction() {
    assert_eq!(axis(0x34, 0x12), 0x1234);
    assert_eq!(axis(0x34, 0x12), 4660);
    assert_eq!(axis(0xFF, 0xFF), -1);
}

#[test]
fn axis_at_the_ends_of_the_range() {
    assert_eq!(axis(0x00, 0x00), 0);
    assert_eq!(axis(0xFF, 0x7F), i16::MAX);
    assert_eq!(axis(0x00, 0x80), i16::MIN);
    assert_eq!(axis(0x01, 0x00), 1);
    assert_eq!(axis(0x00, 0x01), 256);
}

#[test]
fn axis_agrees_with_little_endian_decoding() {
    for low in 0..=255u8 {
        for high in 0..=255u8 {
            assert_eq!(axis(low, high), i16::from_le_bytes([low, high]));
        }
    }
}

#[test]
fn gyro_axes_are_independent() {
    let gyro = I16x3::from_le_bytes(&[0x34, 0x12, 0xFF, 0xFF, 0x00, 0x80]);
    assert_eq!(gyro, I16x3 { x: 0x1234, y: -1, z: i16::MIN });
    let gyro = I16x3::from_le_bytes(&[0x01, 0x00, 0x02, 0x00, 0x03, 0x00]);
    assert_eq!(gyro, I16x3 { x: 1, y: 2, z: 3 });
}

#[test]
fn measurements_from_a_burst_pass_over_the_status_byte() {
    let all = Measurements::from_payload(&[0x0A, 0xFF, 0x34, 0x12, 0xFF, 0xFF, 0x00, 0x80]);
    assert_eq!(all.temp_raw, 10);
    assert_eq!(all.gyro, I16x3 { x: 0x1234, y: -1, z: i16::MIN });
    let other = Measurements::from_payload(&[0x0A, 0x00, 0x34, 0x12, 0xFF, 0xFF, 0x00, 0x80]);
    assert_eq!(all, other);
}

#[test]
fn measurements_negative_temperature() {
    let all = Measurements::from_payload(&[0xFF, 0, 0, 0, 0, 0, 0, 0]);
    assert_eq!(all.temp_raw, -1);
    assert_eq!(all.temp_celcius(), 26);
    assert_eq!(all.gyro, I16x3 { x: 0, y: 0, z: 0 });
}

#[test]
fn status_decode() {
    let status = Status::from_u8(0b1000_0001);
    assert_eq!(status, Status { overrun: true, x_new: true, ..NO_FLAG });
    assert!(status.overrun);
    assert!(!status.z_overrun);
    assert!(!status.y_overrun);
    assert!(!status.x_overrun);
    assert!(!status.new_data);
    assert!(!status.z_new);
    assert!(!status.y_new);
    assert!(status.x_new);
}

#[test]
fn status_has_one_flag_per_bit() {
    assert_eq!(Status::from_u8(0), NO_FLAG);
    assert_eq!(Status::from_u8(1 << 7), Status { overrun: true, ..NO_FLAG });
    assert_eq!(Status::from_u8(1 << 6), Status { z_overrun: true, ..NO_FLAG });
    assert_eq!(Status::from_u8(1 << 5), Status { y_overrun: true, ..NO_FLAG });
    assert_eq!(Status::from_u8(1 << 4), Status { x_overrun: true, ..NO_FLAG });
    assert_eq!(Status::from_u8(1 << 3), Status { new_data: true, ..NO_FLAG });
    assert_eq!(Status::from_u8(1 << 2), Status { z_new: true, ..NO_FLAG });
    assert_eq!(Status::from_u8(1 << 1), Status { y_new: true, ..NO_FLAG });
    assert_eq!(Status::from_u8(1), Status { x_new: true, ..NO_FLAG });
}

#[test]
fn status_with_every_flag() {
    let status = Status::from_u8(0xFF);
    assert_eq!(
        status,
        Status {
            overrun: true,
            z_overrun: true,
            y_overrun: true,
            x_overrun: true,
            new_data: true,
            z_new: true,
            y_new: true,
            x_new: true,
        }
    );
}
