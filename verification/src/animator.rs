use vstd::prelude::*;

verus! {

/// Control state for the host's frame loop.
///
/// The host schedules one tick per display refresh and asks this state, at
/// the top of each tick, whether the loop is still live.  Stopping takes
/// effect between frames: a tick already running completes, the next one
/// sees `is_running() == false` and schedules nothing further.
pub struct Animator {
    running: bool,
}

impl Animator {
    /// Starts a new frame loop in the running state.
    pub fn start() -> (a: Animator)
        ensures
            a.spec_running(),
    {
        Animator { running: true }
    }

    /// Whether ticks should keep being scheduled.
    pub closed spec fn spec_running(&self) -> bool {
        self.running
    }

    /// Stops the loop: every later tick must schedule nothing.
    pub fn stop(&mut self)
        ensures
            !final(self).spec_running(),
    {
        self.running = false;
    }

    /// Reports whether the loop is still live; the host calls this at the
    /// top of each tick.
    pub fn is_running(&self) -> (r: bool)
        ensures
            r == self.spec_running(),
    {
        self.running
    }
}

} // verus!
