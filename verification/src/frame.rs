use vstd::prelude::*;

verus! {

/// What the window does with the current window event.
pub struct FrameDecision {
    /// Draw a frame now.
    pub draw: bool,
    /// A new frame period starts now.
    pub restart_period: bool,
}

/// A frame is drawn when it was asked for, and at the latest once the frame
/// period has passed since the start of the current period, which then restarts.
pub fn decide_frame(redraw_requested: bool, elapsed_nanos: u128, period_nanos: u128) -> (r:
    FrameDecision)
    ensures
        r.restart_period == (elapsed_nanos > period_nanos),
        r.draw == (redraw_requested || elapsed_nanos > period_nanos),
{
    let mut draw = redraw_requested;
    let mut restart = false;
    if elapsed_nanos > period_nanos {
        draw = true;
        restart = true;
    }
    FrameDecision { draw, restart_period: restart }
}

} // verus!
