use overlay_menu::system::math::{Vec3f, Vec3s};
use overlay_menu::system::memory::{
    read_i16, read_u16, read_u32, read_vec3f, read_vec3s, write_i16, write_u16, write_u32,
    write_vec3f, write_vec3s,
};

#[test]
fn read_u16_is_big_endian() {
    let mem = [0xAA, 0x12, 0x34, 0xBB];
    assert_eq!(read_u16(&mem, 1), 0x1234);
    assert_eq!(read_u16(&mem, 0), 0xAA12);
    assert_eq!(read_u16(&mem, 2), 0x34BB);
}

#[test]
fn read_u32_is_big_endian() {
    let mem = [0x01, 0x02, 0x03, 0x04, 0x05];
    assert_eq!(read_u32(&mem, 0), 0x0102_0304);
    assert_eq!(read_u32(&mem, 1), 0x0203_0405);
    assert_eq!(read_u32(&[0xFF; 4], 0), u32::MAX);
    assert_eq!(read_u32(&[0; 4], 0), 0);
}

#[test]
fn read_i16_is_twos_complement() {
    assert_eq!(read_i16(&[0x00, 0x00], 0), 0);
    assert_eq!(read_i16(&[0x7F, 0xFF], 0), i16::MAX);
    assert_eq!(read_i16(&[0x80, 0x00], 0), i16::MIN);
    assert_eq!(read_i16(&[0xFF, 0xFF], 0), -1);
    assert_eq!(read_i16(&[0xFF, 0x00], 0), -256);
}

#[test]
fn write_u16_writes_two_bytes() {
    let mut mem = [9u8; 5];
    write_u16(&mut mem, 2, 0xBEEF);
    assert_eq!(mem, [9, 9, 0xBE, 0xEF, 9]);
    write_u16(&mut mem, 0, 0x0001);
    assert_eq!(mem, [0, 1, 0xBE, 0xEF, 9]);
}

#[test]
fn write_u32_writes_four_bytes() {
    let mut mem = [9u8; 6];
    write_u32(&mut mem, 1, 0xDEAD_BEEF);
    assert_eq!(mem, [9, 0xDE, 0xAD, 0xBE, 0xEF, 9]);
    write_u32(&mut mem, 2, 0);
    assert_eq!(mem, [9, 0xDE, 0, 0, 0, 0]);
}

#[test]
fn write_i16_is_twos_complement() {
    let mut mem = [9u8; 4];
    write_i16(&mut mem, 1, -2);
    assert_eq!(mem, [9, 0xFF, 0xFE, 9]);
    write_i16(&mut mem, 1, i16::MIN);
    assert_eq!(mem, [9, 0x80, 0x00, 9]);
    write_i16(&mut mem, 1, i16::MAX);
    assert_eq!(mem, [9, 0x7F, 0xFF, 9]);
    write_i16(&mut mem, 1, 0);
    assert_eq!(mem, [9, 0, 0, 9]);
}

#[test]
fn numbers_agree_with_the_standard_encodings() {
    for value in [0u32, 1, 0xFF, 0x100, 0xFFFF, 0x1_0000, 0x00FF_FFFF, 0x0100_0000, 0x8000_0000, u32::MAX] {
        let mut mem = [0u8; 4];
        write_u32(&mut mem, 0, value);
        assert_eq!(mem, value.to_be_bytes());
        assert_eq!(read_u32(&mem, 0), value);
    }
    for value in [0u16, 1, 0xFF, 0x100, 0x7FFF, 0x8000, u16::MAX] {
        let mut mem = [0u8; 2];
        write_u16(&mut mem, 0, value);
        assert_eq!(mem, value.to_be_bytes());
        assert_eq!(read_u16(&mem, 0), value);
    }
    for value in [i16::MIN, -1, 0, 1, i16::MAX] {
        let mut mem = [0u8; 2];
        write_i16(&mut mem, 0, value);
        assert_eq!(mem, value.to_be_bytes());
        assert_eq!(read_i16(&mem, 0), value);
    }
}

#[test]
fn vectors_lie_component_after_component() {
    let mut mem = [0x55u8; 16];
    write_vec3f(&mut mem, 2, Vec3f { x: 0x0102_0304, y: 0x0506_0708, z: 0x090A_0B0C });
    assert_eq!(mem, [0x55, 0x55, 1, 2, 3, 4, 5, 6, 7, 8, 9, 10, 11, 12, 0x55, 0x55]);
    assert_eq!(read_vec3f(&mem, 2), Vec3f { x: 0x0102_0304, y: 0x0506_0708, z: 0x090A_0B0C });
    let mut mem = [0x55u8; 8];
    write_vec3s(&mut mem, 1, Vec3s { x: 1, y: -1, z: 0x0203 });
    assert_eq!(mem, [0x55, 0, 1, 0xFF, 0xFF, 2, 3, 0x55]);
    assert_eq!(read_vec3s(&mem, 1), Vec3s { x: 1, y: -1, z: 0x0203 });
}

#[test]
fn writes_at_the_very_end_fit() {
    let mut mem = [0u8; 4];
    write_u32(&mut mem, 0, 7);
    write_u16(&mut mem, 2, 0x0809);
    assert_eq!(mem, [0, 0, 8, 9]);
    assert_eq!(read_u16(&mem, 2), 0x0809);
}
