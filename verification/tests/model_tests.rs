use skydaddy::models::{Computer, ComputerData, ComputerId, DimensionId, WorldId};
use skydaddy::ping::PingRow;

fn data() -> ComputerData {
    ComputerData { version: 2, world: WorldId(1), dimension: DimensionId(1), pos_x: -300, pos_z: -700 }
}

#[test]
fn id_wraps_and_unwraps() {
    assert_eq!(ComputerId::new(42).inner(), 42);
    assert_eq!(WorldId(7).inner(), 7);
    assert_eq!(DimensionId(-1).inner(), -1);
}

#[test]
fn computer_from_row_id() {
    let c = Computer::with_row_id(17, data());
    assert_eq!(c.id.inner(), 17);
    assert_eq!(c.data, data());
}

#[test]
fn row_id_is_narrowed_like_a_cast() {
    let c = Computer::with_row_id((1i64 << 32) + 5, data());
    assert_eq!(c.id.inner(), 5);
    let c = Computer::with_row_id(-1, data());
    assert_eq!(c.id.inner(), u32::MAX);
}

#[test]
fn id_of_computer() {
    let c = Computer::with_row_id(9, data());
    assert_eq!(ComputerId::from(&c), c.id);
    let id: ComputerId = (&c).into();
    assert_eq!(id.inner(), 9);
}

#[test]
fn ping_row_splits_time_into_halves() {
    let millis: u128 = (5u128 << 64) | 0x0000_0190_0000_0001;
    let row = PingRow::new(ComputerId::new(3), millis);
    assert_eq!(row.computer, 3);
    let halves = [row.time_hi, row.time_lo];
    assert!(halves.contains(&5));
    assert!(halves.contains(&0x0000_0190_0000_0001));
    assert_ne!(row.time_hi, row.time_lo);
}

#[test]
fn ping_row_small_time() {
    let row = PingRow::new(ComputerId::new(1), 1_700_000_000_000);
    let mut halves = [row.time_hi, row.time_lo];
    halves.sort();
    assert_eq!(halves, [0, 1_700_000_000_000]);
}

#[test]
fn ping_row_high_bit_reads_negative() {
    let millis: u128 = 1u128 << 63;
    let row = PingRow::new(ComputerId::new(1), millis);
    let mut halves = [row.time_hi, row.time_lo];
    halves.sort();
    assert_eq!(halves, [i64::MIN, 0]);
}

#[test]
fn known_worlds_and_dimensions() {
    assert_eq!(WorldId::TEST, 0);
    assert_eq!(WorldId::VOLTZ_VOIDFLAME, 1);
    assert_eq!(DimensionId::OVERWORLD, 0);
    assert_eq!(DimensionId::KEPLER22B, 1);
}

#[test]
fn ping_row_from_halves_keeps_order() {
    let row = PingRow::from_halves(ComputerId::new(4), [-7, 11]);
    assert_eq!(row, PingRow { computer: 4, time_hi: -7, time_lo: 11 });
}

#[test]
fn ids_equal_exactly_when_row_ids_equal() {
    assert_eq!(ComputerId::new(5), ComputerId::new(5));
    assert_ne!(ComputerId::new(5), ComputerId::new(6));
    assert_eq!(ComputerId::new(5).inner(), ComputerId::new(5).inner());
}
