use vstd::prelude::*;

verus! {

/// The reload worker's state: whether a discovery walk runs, and whether
/// another was asked for while it ran. Requests that arrive during a walk
/// collapse into the one pending flag.
#[derive(Debug, Clone, Copy, PartialEq, Eq, Structural)]
pub struct ReloadState {
    pub running: bool,
    pub pending: bool,
}

/// What the worker does next.
#[derive(Debug, Clone, Copy, PartialEq, Eq, Structural)]
pub enum ReloadStep {
    /// Start a discovery walk and publish its registry.
    Start,
    /// Nothing to do now.
    Idle,
}

/// Nothing pending without a walk running.
pub open spec fn reload_inv(s: ReloadState) -> bool {
    s.pending ==> s.running
}

impl ReloadState {
    /// No walk running, none pending.
    pub fn new() -> (r: ReloadState)
        ensures
            !r.running,
            !r.pending,
            reload_inv(r),
    {
        ReloadState { running: false, pending: false }
    }

    /// A trigger (API, signal, interval or watcher) asks for a reload: start
    /// one when none runs, else remember that one is wanted.
    pub fn request(&mut self) -> (step: ReloadStep)
        requires
            reload_inv(*old(self)),
        ensures
            reload_inv(*final(self)),
            final(self).running,
            !old(self).running ==> step == ReloadStep::Start && !final(self).pending,
            old(self).running ==> step == ReloadStep::Idle && final(self).pending,
    {
        if self.running {
            self.pending = true;
            ReloadStep::Idle
        } else {
            self.running = true;
            ReloadStep::Start
        }
    }

    /// The running walk ended (whether or not it succeeded): start the one
    /// asked for meanwhile, if any, else go idle.
    pub fn finished(&mut self) -> (step: ReloadStep)
        requires
            reload_inv(*old(self)),
            old(self).running,
        ensures
            reload_inv(*final(self)),
            !final(self).pending,
            old(self).pending ==> step == ReloadStep::Start && final(self).running,
            !old(self).pending ==> step == ReloadStep::Idle && !final(self).running,
    {
        if self.pending {
            self.pending = false;
            ReloadStep::Start
        } else {
            self.running = false;
            ReloadStep::Idle
        }
    }
}

} // verus!
