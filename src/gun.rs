use vstd::prelude::*;

verus! {

/// What a gun shoots.
#[derive(Clone, Copy, PartialEq, Eq, Structural, Debug)]
pub enum Projectile {
    Bullet,
    Rocket,
}

/// What to do with a gun's rate-of-fire timer after it has been ticked.
#[derive(Clone, Copy, PartialEq, Eq, Structural, Debug)]
pub enum TimerCommand {
    /// Leave the timer as it is.
    Hold,
    /// Unpause the timer and run it through one full period, so that the gun
    /// shoots in this very tick.
    Arm,
    /// Reset and pause the timer, so that the next pull shoots at once.
    Disarm,
}

/// A gun's trigger: pulled by whoever wants the gun to shoot in this tick.
pub struct Trigger {
    is_pulled: bool,
}

/// How a gun answers its trigger: a pull on a resting gun shoots at once,
/// a released gun rests again as soon as its current period has run out.
pub open spec fn timer_command(pulled: bool, paused: bool, just_finished: bool) -> TimerCommand {
    if pulled {
        if paused {
            TimerCommand::Arm
        } else {
            TimerCommand::Hold
        }
    } else if just_finished {
        TimerCommand::Disarm
    } else {
        TimerCommand::Hold
    }
}

impl Trigger {
    pub closed spec fn pulled(&self) -> bool {
        self.is_pulled
    }

    /// A trigger at rest.
    pub fn new() -> (r: Self)
        ensures
            !r.pulled(),
    {
        Trigger { is_pulled: false }
    }

    pub fn pull(&mut self)
        ensures
            final(self).pulled(),
    {
        self.is_pulled = true;
    }

    pub fn is_pulled(&self) -> (r: bool)
        ensures
            r == self.pulled(),
    {
        self.is_pulled
    }

    /// Consumes this tick's pull and says what the gun's timer must do, given
    /// whether the timer is paused and whether its period ran out in this tick.
    pub fn release(&mut self, timer_paused: bool, just_finished: bool) -> (r: TimerCommand)
        ensures
            !final(self).pulled(),
            r == timer_command(old(self).pulled(), timer_paused, just_finished),
    {
        if self.is_pulled {
            self.is_pulled = false;
            if timer_paused {
                TimerCommand::Arm
            } else {
                TimerCommand::Hold
            }
        } else if just_finished {
            TimerCommand::Disarm
        } else {
            TimerCommand::Hold
        }
    }
}

impl Default for Trigger {
    fn default() -> (r: Self)
        ensures
            !r.pulled(),
    {
        Trigger::new()
    }
}

} // verus!
