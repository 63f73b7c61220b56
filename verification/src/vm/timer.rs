//! The two 60 Hz countdown timers and the sound device's on/off edges.
use vstd::prelude::*;

use crate::model::SoundAction;
use crate::vm::VM;

verus! {

impl VM {
    /// One 60 Hz tick of the timers.  Each timer that is not zero goes down
    /// by one.  The result tells the caller what to do with the sound
    /// device: [`SoundAction::Start`] at the first tick with the sound
    /// timer running, [`SoundAction::Stop`] at the first tick after it ran
    /// out, [`SoundAction::Keep`] at every other tick.
    pub fn run_timers(&mut self) -> (action: SoundAction)
        ensures
            action == old(self)@.timer_action(),
            final(self)@ == old(self)@.run_timers(),
    {
        proof {
            use_type_invariant(&*self);
        }
        if self.delay_timer != 0 {
            self.delay_timer -= 1;
        }
        match (self.sound_timer == 0, self.sound_playing) {
            (true, true) => {
                self.sound_playing = false;
                SoundAction::Stop
            },
            (true, false) => SoundAction::Keep,
            (false, false) => {
                self.sound_playing = true;
                self.sound_timer -= 1;
                SoundAction::Start
            },
            (false, true) => {
                self.sound_timer -= 1;
                SoundAction::Keep
            },
        }
    }
}

} // verus!
