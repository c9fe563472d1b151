//! Primitive operations on the serial bus and the discrete control lines.
use vstd::prelude::*;

verus! {

/// Largest number of bytes handed to the serial bus in one transfer.
pub const MAX_BURST: usize = 4096;

/// The output lines driven by the host.
#[derive(Clone, Copy, Debug, PartialEq, Eq, Structural)]
pub enum OutputLine {
    /// External reset, active low.
    Reset,
    /// Framing select: low for a command byte, high for data bytes.
    DataCommand,
}

/// Logic level of a line.
#[derive(Clone, Copy, Debug, PartialEq, Eq, Structural)]
pub enum Level {
    Low,
    High,
}

/// One primitive operation that the transport carries out, in order.
#[derive(Clone, Debug, PartialEq, Eq)]
pub enum BusOp {
    /// Drive an output line to a level.
    SetLevel(OutputLine, Level),
    /// Pause for the given number of milliseconds.
    Delay(u64),
    /// Send one command byte over the serial bus.
    WriteCommand(u8),
    /// Send one burst of data bytes over the serial bus.
    WriteData(Vec<u8>),
    /// Sample the busy line until the panel reports that it is ready.
    AwaitReady,
}

/// Mathematical model of a [`BusOp`].
pub enum BusAction {
    SetLevel(OutputLine, Level),
    Delay(nat),
    WriteCommand(u8),
    WriteData(Seq<u8>),
    AwaitReady,
}

impl View for BusOp {
    type V = BusAction;

    open spec fn view(&self) -> BusAction {
        match self {
            BusOp::SetLevel(line, level) => BusAction::SetLevel(*line, *level),
            BusOp::Delay(ms) => BusAction::Delay(*ms as nat),
            BusOp::WriteCommand(b) => BusAction::WriteCommand(*b),
            BusOp::WriteData(bytes) => BusAction::WriteData(bytes@),
            BusOp::AwaitReady => BusAction::AwaitReady,
        }
    }
}

/// The model of a sequence of operations.
pub open spec fn actions_of(ops: Seq<BusOp>) -> Seq<BusAction> {
    ops.map_values(|op: BusOp| op@)
}

/// The `k`-th burst of a payload cut into pieces of at most `MAX_BURST` bytes.
pub open spec fn burst(payload: Seq<u8>, k: int) -> Seq<u8> {
    let end = if (k + 1) * MAX_BURST < payload.len() {
        (k + 1) * MAX_BURST
    } else {
        payload.len() as int
    };
    payload.subrange(k * MAX_BURST, end)
}

/// Number of bursts needed for a payload.
pub open spec fn burst_count(len: nat) -> nat {
    ((len + MAX_BURST - 1) / MAX_BURST as int) as nat
}

/// The data writes that carry a payload, in bursts of at most `MAX_BURST` bytes.
pub open spec fn data_bursts(payload: Seq<u8>) -> Seq<BusAction> {
    Seq::new(burst_count(payload.len()), |k: int| BusAction::WriteData(burst(payload, k)))
}

} // verus!
