use ross_dsl::config::{BcmPeripheral, Peripheral, RelayPeripheral};
use ross_dsl::statement::peripheral_statement::peripheral_statement;
use ross_dsl::table::Constants;

#[test]
fn bcm_single_test() {
    let constants = Constants::new();
    let (input, (index, peripheral)) =
        peripheral_statement(&constants, "peripheral 0x00~u32 bcm single(0x01~u8);input")
            .unwrap();

    assert_eq!(input, "input");
    assert_eq!(index, 0x00);
    assert_eq!(peripheral, Peripheral::Bcm(BcmPeripheral::Single(0x01), vec![]));
}

#[test]
fn bcm_rgb_test() {
    let constants = Constants::new();
    let (input, (index, peripheral)) = peripheral_statement(
        &constants,
        "peripheral 0x00~u32 bcm rgb(0x01~u8, 0x23~u8, 0x45~u8);input",
    )
    .unwrap();

    assert_eq!(input, "input");
    assert_eq!(index, 0x00);
    assert_eq!(
        peripheral,
        Peripheral::Bcm(BcmPeripheral::Rgb(0x01, 0x23, 0x45), vec![])
    );
}

#[test]
fn bcm_rgbw_test() {
    let constants = Constants::new();
    let (input, (index, peripheral)) = peripheral_statement(
        &constants,
        "peripheral 0x00~u32 bcm rgbw(0x01~u8, 0x23~u8, 0x45~u8, 0x67~u8);input",
    )
    .unwrap();

    assert_eq!(input, "input");
    assert_eq!(index, 0x00);
    assert_eq!(
        peripheral,
        Peripheral::Bcm(BcmPeripheral::Rgbw(0x01, 0x23, 0x45, 0x67), vec![])
    );
}

#[test]
fn relay_single_test() {
    let constants = Constants::new();
    let (input, (index, peripheral)) =
        peripheral_statement(&constants, "peripheral 0x00~u32 relay single(0x01~u8);input")
            .unwrap();

    assert_eq!(input, "input");
    assert_eq!(index, 0x00);
    assert_eq!(
        peripheral,
        Peripheral::Relay(RelayPeripheral::Single(0x01), vec![])
    );
}

#[test]
fn relay_double_exclusive_test() {
    let constants = Constants::new();
    let (input, (index, peripheral)) = peripheral_statement(
        &constants,
        "peripheral 0x00~u32 relay double_exclusive(0x01~u8, 0x23~u8);input",
    )
    .unwrap();

    assert_eq!(input, "input");
    assert_eq!(index, 0x00);
    assert_eq!(
        peripheral,
        Peripheral::Relay(RelayPeripheral::DoubleExclusive(0x01, 0x23), vec![])
    );
}

#[test]
fn pub_relay_double_exclusive_test() {
    let constants = Constants::new();
    let (input, (index, peripheral)) = peripheral_statement(
        &constants,
        "pub(0x00~u16, 0x01~u16) peripheral 0x00~u32 relay double_exclusive(0x01~u8, 0x23~u8);input",
    )
    .unwrap();

    assert_eq!(input, "input");
    assert_eq!(index, 0x00);
    assert_eq!(
        peripheral,
        Peripheral::Relay(
            RelayPeripheral::DoubleExclusive(0x01, 0x23),
            vec![0x00, 0x01]
        )
    );
}
