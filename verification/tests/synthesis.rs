use freepdk_gen::config::{AppConfig, AppSubcommand, UartSubcommand};
use freepdk_gen::frequency::Frequency;
use freepdk_gen::mcu::{Pin, Port, StopBits};
use freepdk_gen::uart::{
    decompose_wait_interval, generate_space_optimal_nop_chain, Error, UartGenerator,
};

fn uart_config(freq: &str, baud: u32, stop_bits: StopBits) -> AppConfig {
    AppConfig {
        freq: Frequency::parse(freq).unwrap(),
        subcommand: AppSubcommand::Uart(UartSubcommand {
            baud,
            tx_port: Port::parse("A").unwrap(),
            tx_pin: Pin::parse("0").unwrap(),
            invert_tx: false,
            rx_port: Port::parse("A").unwrap(),
            rx_pin: Pin::parse("3").unwrap(),
            invert_rx: false,
            uart_num: 0,
            stop_bits,
            tx_function_name: None,
        }),
    }
}

fn build(freq: &str, baud: u32, stop_bits: StopBits) -> Result<UartGenerator, Error> {
    UartGenerator::builder()
        .load_config(&uart_config(freq, baud, stop_bits))
        .unwrap()
        .build()
}

#[test]
fn accepts_8mhz_115200() {
    let plan = build("8mhz", 115200, StopBits::One).unwrap();
    assert_eq!(plan.clocks_per_bit, 69);
    assert_eq!(plan.clocks_per_stop_bit, 69);
    assert_eq!(plan.clocks_per_half_bit, 35);

    let ctx = plan.emission_context();
    // Start bit: 69 - 9 + 1 = 61 wait clocks -> 15 iterations, one cycle over.
    assert_eq!(ctx.tx_start_bit_wait_cycles, 15);
    assert_eq!(ctx.tx_start_bit_tail_wait_instructions, vec!["nop ; 1T"]);
    // Data bit: 69 - 12 + 1 = 58 wait clocks -> 14 iterations, two cycles over.
    assert_eq!(ctx.tx_bit_wait_cycles, 14);
    assert_eq!(ctx.tx_bit_tail_wait_instructions, vec!["goto .+1 ; 2T"]);
    // Stop bit: 69 - 7 + 1 = 63 wait clocks -> 15 iterations, three cycles over.
    assert_eq!(ctx.tx_stop_bit_wait_cycles, 15);
    assert_eq!(
        ctx.tx_stop_bit_tail_wait_instructions,
        vec!["goto .+1 ; 2T", "nop ; 1T"]
    );
    // Receive: half-bit 35 - 8 + 1 + 6 = 34 -> 8 iterations, tail 2;
    // data bit 69 - 9 + 1 = 61 -> 15 iterations, tail 1.
    assert_eq!(ctx.rx_start_bit_wait_cycles, 8);
    assert_eq!(ctx.rx_start_bit_tail_wait_instructions, vec!["goto .+1 ; 2T"]);
    assert_eq!(ctx.rx_bit_wait_cycles, 15);
    assert_eq!(ctx.rx_bit_tail_wait_instructions, vec!["nop ; 1T"]);

    assert_eq!(ctx.frequency, 8_000_000);
    assert_eq!(ctx.baud, 115200);
    assert_eq!(ctx.tx_function_name, "uart0_send");
    assert_eq!(ctx.rx_function_name, "uart0_receive");
    assert_eq!(ctx.rx_byte_name, "uart0_rx_byte");
    assert_eq!(ctx.tx_port, 'A');
    assert_eq!(ctx.tx_pin, 0);
    assert_eq!(ctx.rx_port, 'A');
    assert_eq!(ctx.rx_pin, 3);
}

#[test]
fn rejects_1mhz_115200_as_too_few_clocks() {
    let err = build("1mhz", 115200, StopBits::One).unwrap_err();
    assert!(matches!(err, Error::VeryFewClocksPerBit(9)));
}

#[test]
fn rejects_8mhz_300_as_too_many_clocks() {
    let err = build("8mhz", 300, StopBits::One).unwrap_err();
    assert!(matches!(err, Error::TooManyClocksPerBit(26667)));
}

#[test]
fn rejects_8mhz_9600_two_stop_bits_on_the_stop_bit() {
    // 8 MHz / 9600 baud rounds to 833 clocks per bit, inside the
    // 16..=1024 window; the doubled stop bit, 1667 clocks, is what
    // exceeds the wait-loop capacity.
    let err = build("8mhz", 9600, StopBits::Two).unwrap_err();
    assert!(matches!(err, Error::TooManyClocksPerStopBit(1667)));
}

#[test]
fn accepts_4mhz_38400_one_and_half_stop_bits() {
    let plan = build("4mhz", 38400, StopBits::OneAndHalf).unwrap();
    assert_eq!(plan.clocks_per_bit, 104);
    assert_eq!(plan.clocks_per_stop_bit, 156);
    assert_eq!(plan.clocks_per_half_bit, 52);
}

#[test]
fn rejects_excessive_rounding_deviation() {
    // 33 Hz at 2 baud: 16.5 clocks rounds to 17, a 3% deviation.
    let err = build("33", 2, StopBits::One).unwrap_err();
    assert!(matches!(err, Error::TooBigClockDeviation(t) if t.numer == 1 && t.denom == 100));
}

#[test]
fn rejects_too_few_clocks_per_half_bit() {
    // 20 Hz at 1 baud: 20 clocks per bit passes, but the half bit is 10.
    let err = build("20", 1, StopBits::One).unwrap_err();
    assert!(matches!(err, Error::VeryFewClocksPerHalfBit(10)));
}

#[test]
fn rejects_zero_baud() {
    let err = build("8mhz", 0, StopBits::One).unwrap_err();
    assert!(matches!(err, Error::TooManyClocksPerBit(u32::MAX)));
}

#[test]
fn rejects_incomplete_builder() {
    let err = UartGenerator::builder().build().unwrap_err();
    assert!(matches!(err, Error::InvalidOptions));
}

#[test]
fn stop_bit_widths_scale_the_exact_rational() {
    // 10 MHz / 12000 baud: 833.33 clocks per bit rounds to 833 and fits,
    // but doubling the exact rational for two stop bits gives 1667.
    let err = build("10mhz", 12000, StopBits::Two).unwrap_err();
    assert!(matches!(err, Error::TooManyClocksPerStopBit(1667)));
    let plan = build("10mhz", 12000, StopBits::One).unwrap();
    assert_eq!(plan.clocks_per_bit, 833);
    assert_eq!(plan.clocks_per_stop_bit, 833);
}

#[test]
fn tail_chains_are_space_optimal() {
    assert_eq!(generate_space_optimal_nop_chain(0), Vec::<&'static str>::new());
    assert_eq!(generate_space_optimal_nop_chain(1), vec!["nop ; 1T"]);
    assert_eq!(generate_space_optimal_nop_chain(2), vec!["goto .+1 ; 2T"]);
    assert_eq!(
        generate_space_optimal_nop_chain(3),
        vec!["goto .+1 ; 2T", "nop ; 1T"]
    );
    for count in 0..4u32 {
        assert!(generate_space_optimal_nop_chain(count).len() <= 2);
    }
}

#[test]
fn wait_decomposition_adds_back_up() {
    for clocks in [8u32, 15, 58, 61, 63, 1016] {
        let (iterations, tail) = decompose_wait_interval(clocks);
        let tail_cycles: u32 = tail
            .iter()
            .map(|i| if i.starts_with("goto") { 2 } else { 1 })
            .sum();
        assert_eq!(4 * iterations + tail_cycles, clocks);
        assert!(tail.len() <= 2);
    }
}

#[test]
fn error_messages_name_the_offending_count() {
    let err = build("8mhz", 300, StopBits::One).unwrap_err();
    assert_eq!(
        err.message(),
        "26667 clocks per bit is not implemented yet, try lower frequency or higher baud rate"
    );
    assert_eq!(
        Error::InvalidOptions.message(),
        "Invalid generator options"
    );
    assert_eq!(
        Error::VeryFewClocksPerBit(9).message(),
        "Calculated clocks count per bit (9) is too small, try higher frequency or lower baud rate"
    );
    assert_eq!(
        Error::VeryFewClocksPerHalfBit(10).message(),
        "Calculated clocks count per half bit (10) is too small, try higher frequency or lower baud rate"
    );
    assert_eq!(
        Error::TooManyClocksPerStopBit(1667).message(),
        "1667 clocks per stop bit is not implemented yet, try lower frequency or higher baud rate"
    );
    let deviation = build("33", 2, StopBits::One).unwrap_err();
    assert_eq!(
        deviation.message(),
        "Clock deviation is higher than allowed 1/100"
    );
    assert_eq!(
        Error::TemplateFailure("boom".to_string()).message(),
        "Template rendering failed: boom"
    );
}
