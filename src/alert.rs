use vstd::prelude::*;

verus! {

/// The fire-once guard of the end-of-phase notification.
///
/// `fired` is set the first time the notification is due and cleared when
/// a new phase begins.
#[derive(Debug, Clone, Copy, PartialEq, Eq, Structural)]
pub struct Alerter {
    pub fired: bool,
}

impl Alerter {
    pub fn new() -> (r: Alerter)
        ensures
            !r.fired,
    {
        Alerter { fired: false }
    }

    /// Re-arms the guard for the next phase.
    pub fn reset(&mut self)
        ensures
            !final(self).fired,
    {
        self.fired = false;
    }

    /// Reports whether the notification is to be sent now: only on the
    /// first call since the last `reset`.
    pub fn alert_once(&mut self) -> (r: bool)
        ensures
            r == !old(self).fired,
            final(self).fired,
    {
        let r = !self.fired;
        self.fired = true;
        r
    }
}

} // verus!
