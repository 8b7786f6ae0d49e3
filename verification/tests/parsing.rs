use freepdk_gen::mcu::{Frequency, Pin, Port, StopBits};

#[test]
fn frequency_parses_plain_hertz() {
    assert_eq!(Frequency::parse("8000000").unwrap().hz(), 8_000_000);
    assert_eq!(Frequency::parse("0").unwrap().hz(), 0);
    assert_eq!(Frequency::parse("4294967295").unwrap().hz(), u32::MAX);
}

#[test]
fn frequency_parses_suffixes() {
    assert_eq!(Frequency::parse("16mhz").unwrap().hz(), 16_000_000);
    assert_eq!(Frequency::parse("8MHz").unwrap().hz(), 8_000_000);
    assert_eq!(Frequency::parse("115200hz").unwrap().hz(), 115_200);
    assert_eq!(Frequency::parse("4khz").unwrap().hz(), 4_000);
    assert_eq!(Frequency::parse("4294967khz").unwrap().hz(), 4_294_967_000);
}

#[test]
fn frequency_rejects_overflow() {
    assert_eq!(Frequency::parse("4294968khz").unwrap_err(), "Frequency is too big");
    assert_eq!(Frequency::parse("4295mhz").unwrap_err(), "Frequency is too big");
    assert_eq!(
        Frequency::parse("4294967296").unwrap_err(),
        "Frequency is not a number"
    );
}

#[test]
fn frequency_rejects_bad_inputs() {
    assert_eq!(Frequency::parse("12foo").unwrap_err(), "Invalid frequency suffix");
    assert_eq!(Frequency::parse("").unwrap_err(), "Frequency is not a number");
    assert_eq!(Frequency::parse("mhz").unwrap_err(), "Frequency is not a number");
    assert_eq!(Frequency::parse("-5").unwrap_err(), "Frequency is not a number");
    assert_eq!(Frequency::parse("8 mhz").unwrap_err(), "Invalid frequency suffix");
}

#[test]
fn frequency_round_trips_through_canonical_form() {
    for text in ["8mhz", "115200", "4294967khz", "0", "1hz"] {
        let parsed = Frequency::parse(text).unwrap();
        let canonical = parsed.format_hz();
        let reparsed = Frequency::parse(&canonical).unwrap();
        assert_eq!(parsed.hz(), reparsed.hz());
    }
    assert_eq!(Frequency::parse("16mhz").unwrap().format_hz(), "16000000");
}

#[test]
fn port_parses_and_normalises() {
    assert_eq!(Port::parse("A").unwrap().char(), 'A');
    assert_eq!(Port::parse("b").unwrap().char(), 'B');
    assert_eq!(Port::parse("c").unwrap().char(), 'C');
}

#[test]
fn port_rejects_bad_inputs() {
    assert_eq!(Port::parse("d").unwrap_err(), "Unknown port");
    assert_eq!(Port::parse("Z").unwrap_err(), "Unknown port");
    assert_eq!(
        Port::parse("AB").unwrap_err(),
        "Port should be represented as a single character (ABC)"
    );
    assert_eq!(
        Port::parse("").unwrap_err(),
        "Port should be represented as a single character (ABC)"
    );
}

#[test]
fn pin_parses_digits() {
    assert_eq!(Pin::parse("0").unwrap().num(), 0);
    assert_eq!(Pin::parse("7").unwrap().num(), 7);
    assert_eq!(Pin::parse("007").unwrap().num(), 7);
}

#[test]
fn pin_accepts_one_leading_plus_sign() {
    assert_eq!(Pin::parse("+7").unwrap().num(), 7);
    assert_eq!(Pin::parse("+007").unwrap().num(), 7);
    assert_eq!(Pin::parse("+").unwrap_err(), "Invalid pin number");
    assert_eq!(Pin::parse("++7").unwrap_err(), "Invalid pin number");
    assert_eq!(Pin::parse("-7").unwrap_err(), "Invalid pin number");
    assert_eq!(Pin::parse("7+").unwrap_err(), "Invalid pin number");
    assert_eq!(Pin::parse("+8").unwrap_err(), "Pin can't be bigger than 7");
}

#[test]
fn pin_rejects_bad_inputs() {
    assert_eq!(Pin::parse("8").unwrap_err(), "Pin can't be bigger than 7");
    assert_eq!(Pin::parse("12").unwrap_err(), "Pin can't be bigger than 7");
    assert_eq!(Pin::parse("256").unwrap_err(), "Invalid pin number");
    assert_eq!(Pin::parse("abc").unwrap_err(), "Invalid pin number");
    assert_eq!(Pin::parse("").unwrap_err(), "Invalid pin number");
    assert_eq!(Pin::parse("3x").unwrap_err(), "Invalid pin number");
}

#[test]
fn stop_bits_parse_exact_literals() {
    assert!(matches!(StopBits::parse("1").unwrap(), StopBits::One));
    assert!(matches!(StopBits::parse("2").unwrap(), StopBits::Two));
    assert!(matches!(StopBits::parse("1.5").unwrap(), StopBits::OneAndHalf));
    assert_eq!(StopBits::parse("3").unwrap_err(), "Invalid stop bits value");
    assert_eq!(StopBits::parse("1.0").unwrap_err(), "Invalid stop bits value");
    assert_eq!(StopBits::parse("").unwrap_err(), "Invalid stop bits value");
}
