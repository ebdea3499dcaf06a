//! Kinds of UART that the firmware can use as its machine console.
use vstd::prelude::*;

verus! {

/// UART models the firmware can drive as its machine console.
#[derive(Clone, Copy, Debug)]
pub enum MachineConsoleType {
    /// NS16550-compatible UART with 8-bit registers.
    Uart16550U8,
    /// NS16550-compatible UART with 32-bit registers.
    Uart16550U32,
    /// Xilinx AXI UART Lite.
    UartAxiLite,
    /// Bouffalo Lab UART.
    UartBflb,
    /// SiFive UART.
    UartSifive,
}

} // verus!
