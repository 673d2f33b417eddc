use vstd::prelude::*;

verus! {

/// A decoded terminal key press, reduced to the inputs the dashboard reacts
/// to. Anything else arrives as `Other`.
#[derive(Clone, Copy, Debug, PartialEq, Eq, Structural)]
pub enum Key {
    Esc,
    CtrlC,
    Function(u8),
    Up,
    Down,
    Enter,
    Char(char),
    Other,
}

/// One event of the merged input stream: either the fixed-rate timer fired,
/// or the terminal delivered a key press. Produced and consumed once, in
/// arrival order.
#[derive(Clone, Copy, Debug, PartialEq, Eq, Structural)]
pub enum Event {
    Tick,
    Terminal(Key),
}

/// The timer period, in microseconds, for a tick rate given in ticks per
/// second.
pub fn tick_period_micros(tps: u64) -> (r: u64)
    requires
        1 <= tps,
    ensures
        r == 1_000_000u64 / tps,
{
    1_000_000 / tps
}

} // verus!
