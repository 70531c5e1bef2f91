//! What the pendulum canvas shows besides the drawing itself.
use vstd::prelude::*;

verus! {

/// Title drawn in the top-left corner of the pendulum canvas: it says
/// whether the simulation is paused.
pub fn canvas_title(paused: bool) -> (title: &'static str)
    ensures
        paused ==> title@ == "Pendulum - Simulation (paused)"@,
        !paused ==> title@ == "Pendulum - Simulation"@,
{
    if paused {
        "Pendulum - Simulation (paused)"
    } else {
        "Pendulum - Simulation"
    }
}

} // verus!
