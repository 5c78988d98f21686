//! Resuming a paused platform.
use crate::error::AmmError;
use crate::state::address::Address;
use crate::state::platform::PlatformSecurity;
use crate::state::platform::PlatformState;
use vstd::prelude::*;

verus! {

/// What a resume reads and writes: the platform and the caller.
#[derive(Clone, Copy, PartialEq, Eq, Debug)]
pub struct ResumePlatform {
    /// The caller, who must be the platform's admin.
    pub admin: Address,
    pub platform_state: PlatformState,
}

impl ResumePlatform {
    /// Why the resume is refused, or `None` where it goes through.
    pub open spec fn refusal(&self) -> Option<AmmError> {
        if self.platform_state.admin != self.admin {
            Some(AmmError::Unauthorized)
        } else if !self.platform_state.security.is_paused {
            Some(AmmError::NotPaused)
        } else {
            None
        }
    }

    /// Everything after a resume that goes through: the pause flag cleared.
    pub open spec fn settled(&self) -> ResumePlatform {
        ResumePlatform {
            platform_state: PlatformState {
                security: PlatformSecurity {
                    is_paused: false,
                    ..self.platform_state.security
                },
                ..self.platform_state
            },
            ..*self
        }
    }

    /// Clears the pause flag.
    ///
    /// Only the admin may call, and only while the platform is paused.
    pub fn resume_platform(&mut self) -> (result: Result<(), AmmError>)
        ensures
            match result {
                Ok(_) => {
                    &&& old(self).refusal() is None
                    &&& *final(self) == old(self).settled()
                },
                Err(kind) => {
                    &&& old(self).refusal() == Some(kind)
                    &&& *final(self) == *old(self)
                },
            },
            result is Ok ==> !final(self).platform_state.security.is_paused,
    {
        if !self.platform_state.is_admin(&self.admin) {
            return Err(AmmError::Unauthorized);
        }
        if !self.platform_state.security.is_paused {
            return Err(AmmError::NotPaused);
        }
        self.platform_state.security.is_paused = false;
        Ok(())
    }
}

} // verus!
