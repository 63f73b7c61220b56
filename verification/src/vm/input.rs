//! The sixteen keys.
use vstd::prelude::*;

use crate::model::SoundAction;
use crate::vm::VM;

verus! {

impl VM {
    /// Replaces the state of all sixteen keys; `keys[k]` says whether key
    /// `k` is down.
    pub fn set_keys(&mut self, keys: [bool; 16])
        ensures
            final(self)@ == old(self)@.set_keys(keys@),
    {
        proof {
            use_type_invariant(&*self);
        }
        self.key = keys;
    }

    /// One 60 Hz tick: takes over the keys as they are now, then runs the
    /// timers.  The result is what [`VM::run_timers`] asks of the sound
    /// device.
    pub fn frame_tick(&mut self, keys: [bool; 16]) -> (action: SoundAction)
        ensures
            action == old(self)@.set_keys(keys@).timer_action(),
            final(self)@ == old(self)@.frame_tick(keys@),
    {
        self.set_keys(keys);
        self.run_timers()
    }
}

} // verus!
