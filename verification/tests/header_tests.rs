use skydaddy::header::{parse_connection_header, HeaderError, HEADER_LEN, MAGIC, MAGIC_LEN};
use skydaddy::models::{ComputerData, DimensionId, WorldId};

fn header(version: u32, world: u16, dimension: i16, x: i32, z: i32) -> Vec<u8> {
    let mut b = Vec::new();
    b.extend_from_slice(&MAGIC.to_be_bytes());
    b.extend_from_slice(&version.to_be_bytes());
    b.extend_from_slice(&world.to_be_bytes());
    b.extend_from_slice(&dimension.to_be_bytes());
    b.extend_from_slice(&x.to_be_bytes());
    b.extend_from_slice(&z.to_be_bytes());
    b
}

#[test]
fn reads_documented_layout() {
    let b = header(3, 1, -1, -300, -700);
    assert_eq!(b.len(), HEADER_LEN);
    let d = parse_connection_header(&b).unwrap();
    assert_eq!(
        d,
        ComputerData {
            version: 3,
            world: WorldId(1),
            dimension: DimensionId(-1),
            pos_x: -300,
            pos_z: -700,
        }
    );
}

#[test]
fn reads_exact_bytes() {
    let b = [
        0x6B, 0x71, 0x09, 0xBA, 0x01, 0x02, 0x03, 0x04, 0xFF, 0xFE, 0x80, 0x00, 0x7F, 0xFF, 0xFF,
        0xFF, 0x80, 0x00, 0x00, 0x00,
    ];
    let d = parse_connection_header(&b).unwrap();
    assert_eq!(d.version, 0x01020304);
    assert_eq!(d.world.inner(), 0xFFFE);
    assert_eq!(d.dimension.inner(), i16::MIN);
    assert_eq!(d.pos_x, i32::MAX);
    assert_eq!(d.pos_z, i32::MIN);
}

#[test]
fn ignores_bytes_after_header() {
    let mut b = header(7, 0, 0, 1, 2);
    b.extend_from_slice(&[9, 9, 9]);
    let d = parse_connection_header(&b).unwrap();
    assert_eq!(d.version, 7);
    assert_eq!(d.pos_x, 1);
    assert_eq!(d.pos_z, 2);
}

#[test]
fn rejects_bad_magic_with_found_value() {
    let mut b = header(1, 1, 1, 1, 1);
    b[3] = 0xBB;
    assert_eq!(parse_connection_header(&b), Err(HeaderError::BadMagic(0x6B7109BB)));
}

#[test]
fn bad_magic_is_reported_before_the_rest_arrives() {
    assert_eq!(
        parse_connection_header(&[0, 0, 0, 0]),
        Err(HeaderError::BadMagic(0))
    );
}

#[test]
fn short_inputs_are_incomplete() {
    let b = header(1, 2, 3, 4, 5);
    for n in 0..HEADER_LEN {
        assert_eq!(parse_connection_header(&b[..n]), Err(HeaderError::UnexpectedEnd), "n = {}", n);
    }
    assert_eq!(MAGIC_LEN, 4);
}

#[test]
fn roundtrip_of_extremes() {
    for &(v, w, dim, x, z) in &[
        (0u32, 0u16, 0i16, 0i32, 0i32),
        (u32::MAX, u16::MAX, i16::MAX, i32::MAX, i32::MAX),
        (1, 1, i16::MIN, i32::MIN, -1),
    ] {
        let d = parse_connection_header(&header(v, w, dim, x, z)).unwrap();
        assert_eq!((d.version, d.world.0, d.dimension.0, d.pos_x, d.pos_z), (v, w, dim, x, z));
    }
}
