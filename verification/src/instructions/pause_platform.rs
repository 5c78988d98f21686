//! Pausing and unpausing the platform.
use crate::error::AmmError;
use crate::state::address::Address;
use crate::state::platform::PlatformPauseChanged;
use crate::state::platform::PlatformSecurity;
use crate::state::platform::PlatformState;
use vstd::prelude::*;

verus! {

/// What a change of the pause flag reads and writes: the platform, the
/// caller and the current time.
#[derive(Clone, Copy, PartialEq, Eq, Debug)]
pub struct PausePlatform {
    pub platform: PlatformState,
    /// The caller, who must be the platform's admin.
    pub admin: Address,
    /// The current time, in seconds.
    pub now: i64,
}

impl PausePlatform {
    /// Why the change is refused, or `None` where it goes through. The
    /// checks are made in this order and the first that fails decides.
    pub open spec fn refusal(&self, pause: bool) -> Option<AmmError> {
        if self.platform.admin != self.admin {
            Some(AmmError::Unauthorized)
        } else if pause && self.platform.security.is_paused {
            Some(AmmError::AlreadyPaused)
        } else if !pause && !self.platform.security.is_paused {
            Some(AmmError::NotPaused)
        } else if pause && self.platform.security.pause_count == u32::MAX {
            Some(AmmError::MathOverflow)
        } else {
            None
        }
    }

    /// The pause state after a change that goes through. Pausing counts the
    /// pause and records its time; unpausing only clears the flag.
    pub open spec fn settled_security(&self, pause: bool) -> PlatformSecurity {
        if pause {
            PlatformSecurity {
                is_paused: true,
                last_pause_time: self.now,
                pause_count: (self.platform.security.pause_count + 1) as u32,
            }
        } else {
            PlatformSecurity { is_paused: false, ..self.platform.security }
        }
    }

    /// Everything after a change that goes through.
    pub open spec fn settled(&self, pause: bool) -> PausePlatform {
        PausePlatform {
            platform: PlatformState { security: self.settled_security(pause), ..self.platform },
            ..*self
        }
    }

    /// Sets the pause flag to `pause`.
    ///
    /// Only the admin may call. Asking for the state the platform is already
    /// in is refused. On success the record of the change is returned.
    pub fn pause_platform(&mut self, pause: bool) -> (result: Result<
        PlatformPauseChanged,
        AmmError,
    >)
        ensures
            match result {
                Ok(event) => {
                    &&& old(self).refusal(pause) is None
                    &&& event == (PlatformPauseChanged {
                        admin: old(self).admin,
                        paused: pause,
                        timestamp: old(self).now,
                    })
                    &&& *final(self) == old(self).settled(pause)
                },
                Err(kind) => {
                    &&& old(self).refusal(pause) == Some(kind)
                    &&& *final(self) == *old(self)
                },
            },
            result is Ok ==> final(self).platform.security.is_paused == pause,
            final(self).platform.security.pause_count >= old(self).platform.security.pause_count,
            final(self).platform.stats == old(self).platform.stats,
    {
        if !self.platform.is_admin(&self.admin) {
            return Err(AmmError::Unauthorized);
        }
        if pause {
            if self.platform.security.is_paused {
                return Err(AmmError::AlreadyPaused);
            }
            let pause_count = match self.platform.security.pause_count.checked_add(1) {
                Some(count) => count,
                None => {
                    return Err(AmmError::MathOverflow);
                },
            };
            self.platform.security.pause_count = pause_count;
            self.platform.security.last_pause_time = self.now;
        } else {
            if !self.platform.security.is_paused {
                return Err(AmmError::NotPaused);
            }
        }
        self.platform.security.is_paused = pause;
        Ok(PlatformPauseChanged { admin: self.admin, paused: pause, timestamp: self.now })
    }
}

} // verus!
