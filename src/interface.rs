use vstd::prelude::*;

verus! {

/// One step of traffic on the panel's link: the bus, its control lines, the
/// busy input and the delay provider. A driver operation is a list of these,
/// carried out in order by whoever owns the hardware.
#[derive(Clone, Debug, PartialEq, Eq)]
pub enum BusOp {
    /// Pulse the reset line: hold it low, then let it go high again.
    Reset { initial_us: u32, duration_us: u32 },
    /// Send one command byte with the data/command line on "command".
    Command(u8),
    /// Send bytes with the data/command line on "data".
    Data(Vec<u8>),
    /// Send `count` copies of `value` with the data/command line on "data".
    DataRepeat { value: u8, count: u32 },
    /// Poll the busy input until it reports idle; `busy_low` tells which level
    /// means busy.
    WaitIdle { busy_low: bool },
    /// Sleep for the given number of microseconds.
    DelayUs(u32),
}

/// Mathematical model of a `BusOp`.
pub enum Op {
    Reset(u32, u32),
    Command(u8),
    Data(Seq<u8>),
    DataRepeat(u8, u32),
    WaitIdle(bool),
    DelayUs(u32),
}

impl View for BusOp {
    type V = Op;

    open spec fn view(&self) -> Op {
        match self {
            BusOp::Reset { initial_us, duration_us } => Op::Reset(*initial_us, *duration_us),
            BusOp::Command(c) => Op::Command(*c),
            BusOp::Data(d) => Op::Data(d@),
            BusOp::DataRepeat { value, count } => Op::DataRepeat(*value, *count),
            BusOp::WaitIdle { busy_low } => Op::WaitIdle(*busy_low),
            BusOp::DelayUs(us) => Op::DelayUs(*us),
        }
    }
}

/// The model of a recorded list of operations.
pub open spec fn trace(ops: Seq<BusOp>) -> Seq<Op> {
    ops.map_values(|o: BusOp| o@)
}

/// Appends one operation to `ops`.
pub fn emit(ops: &mut Vec<BusOp>, op: BusOp)
    ensures
        trace(final(ops)@) == trace(old(ops)@).push(op@),
{
    ops.push(op);
    assert(trace(ops@) =~= trace(old(ops)@).push(op@));
}

/// Whether the controller is busy, given the level read on the busy input
/// and which level means busy.
pub fn is_busy(input_high: bool, busy_low: bool) -> (r: bool)
    ensures
        r == (input_high != busy_low),
{
    if busy_low {
        !input_high
    } else {
        input_high
    }
}

/// What to do next while waiting for the controller to become idle.
#[derive(Clone, Copy, Debug, PartialEq, Eq, Structural)]
pub enum PollStep {
    /// The controller is idle: stop waiting.
    Idle,
    /// Still busy: sleep one poll interval and read the input again.
    Wait,
    /// Still busy and the poll budget is spent: give up.
    TimedOut,
}

/// One decision of the busy-wait loop: `busy` is the state just read, `polls`
/// the number of polls already made, `budget` the optional limit on them
/// (none: wait for ever).
pub fn wait_idle_step(busy: bool, polls: u32, budget: Option<u32>) -> (r: PollStep)
    ensures
        !busy ==> r == PollStep::Idle,
        busy && (budget matches Some(b) && polls >= b) ==> r == PollStep::TimedOut,
        busy && !(budget matches Some(b) && polls >= b) ==> r == PollStep::Wait,
{
    if !busy {
        return PollStep::Idle;
    }
    match budget {
        Some(b) if polls >= b => PollStep::TimedOut,
        _ => PollStep::Wait,
    }
}

} // verus!
