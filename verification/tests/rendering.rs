use freepdk_gen::config::{AppConfig, AppSubcommand, UartSubcommand};
use freepdk_gen::frequency::Frequency;
use freepdk_gen::mcu::{Pin, Port, StopBits};
use freepdk_gen::render::UART_TEMPLATE;
use freepdk_gen::uart::UartGenerator;

fn plan(invert: bool, tx_function_name: Option<String>) -> UartGenerator {
    let config = AppConfig {
        freq: Frequency::parse("8mhz").unwrap(),
        subcommand: AppSubcommand::Uart(UartSubcommand {
            baud: 115200,
            tx_port: Port::parse("A").unwrap(),
            tx_pin: Pin::parse("0").unwrap(),
            invert_tx: invert,
            rx_port: Port::parse("a").unwrap(),
            rx_pin: Pin::parse("3").unwrap(),
            invert_rx: invert,
            uart_num: 0,
            stop_bits: StopBits::One,
            tx_function_name,
        }),
    };
    UartGenerator::builder()
        .load_config(&config)
        .unwrap()
        .build()
        .unwrap()
}

#[test]
fn renders_substituted_wait_counts() {
    let rendered = plan(false, None).generate().unwrap();
    // The template itself holds none of these: each comes from a
    // substituted variable.
    assert!(rendered.contains("// Target F_CPU: 8000000;  Target baud: 115200"));
    assert!(rendered.contains("#if F_CPU != 8000000"));
    assert!(rendered.contains("static void uart0_send(uint8_t byte)"));
    assert!(rendered.contains("static UartResult uart0_receive(void) __naked"));
    assert!(rendered.contains("uint8_t uart0_rx_byte;"));
    assert!(rendered.contains("mov a, #15 ; 1T"));
    assert!(rendered.contains("mov a, #14 ; 1T"));
    assert!(rendered.contains("PA_ADDR, #0"));
    assert!(rendered.contains("PA_ADDR, #3"));
    assert!(!rendered.contains("{tx_function_name}"));
    assert!(!rendered.contains("{frequency}"));
}

#[test]
fn renders_non_inverted_levels() {
    let rendered = plan(false, None).generate().unwrap();
    assert!(rendered.contains("set0 PA_ADDR, #0 ; 1T\n    mov a, #15"));
    assert!(rendered.contains("t0sn PA_ADDR, #3"));
}

#[test]
fn renders_inverted_levels() {
    let rendered = plan(true, None).generate().unwrap();
    assert!(rendered.contains("set1 PA_ADDR, #0 ; 1T\n    mov a, #15"));
    assert!(rendered.contains("t1sn PA_ADDR, #3"));
}

#[test]
fn renders_tail_instruction_lines() {
    let rendered = plan(false, None).generate().unwrap();
    // The stop-bit tail for this plan is three residual cycles.
    assert!(rendered.contains("goto .+1 ; 2T"));
    assert!(rendered.contains("nop ; 1T"));
}

#[test]
fn honours_the_tx_function_name_override() {
    let rendered = plan(false, Some("my_send".to_string())).generate().unwrap();
    assert!(rendered.contains("static void my_send(uint8_t byte)"));
    assert!(rendered.contains("_gen_my_send_bits_left"));
    // The receive side stays instance-derived.
    assert!(rendered.contains("static UartResult uart0_receive(void) __naked"));
    assert!(!rendered.contains("uart0_send"));
}

#[test]
fn template_mentions_every_needed_guard() {
    assert!(UART_TEMPLATE.contains("#ifndef F_CPU"));
    assert!(UART_TEMPLATE.contains("#error"));
    assert!(UART_TEMPLATE.contains("{{for instruction in tx_start_bit_tail_wait_instructions}}"));
}
