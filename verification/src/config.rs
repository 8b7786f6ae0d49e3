//! The validated configuration record handed from argument handling to
//! the generator: frequency plus one subcommand.

use vstd::prelude::*;
use crate::mcu::{Frequency, Port, Pin, StopBits};

verus! {

pub struct AppConfig {
    pub freq: Frequency,
    pub subcommand: AppSubcommand,
}

pub enum AppSubcommand {
    Uart(UartSubcommand),
}

pub struct UartSubcommand {
    pub baud: u32,
    pub tx_port: Port,
    pub tx_pin: Pin,
    pub invert_tx: bool,
    pub rx_port: Port,
    pub rx_pin: Pin,
    pub invert_rx: bool,
    pub uart_num: u8,
    pub stop_bits: StopBits,
    pub tx_function_name: Option<String>,
}

} // verus!
