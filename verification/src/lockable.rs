//! `lockable` module: lock an account after repeated failed sign-ins and
//! unlock it once `auth.unlock_in` seconds have passed.

use vstd::prelude::*;
use crate::config::{AuthConfig, AuthModule, module_on, opt_config};
use crate::error::{AuthError, AuthErrorView};

verus! {

/// The lockable settings.
#[derive(Debug, Clone, Copy, PartialEq, Eq)]
pub struct Settings {
    pub maximum_attempts: u32,
    pub unlock_in: i64,
}

/// The lockable settings when the module is enabled, else `None`.
pub fn settings(config: Option<&AuthConfig>) -> (r: Option<Settings>)
    ensures
        match r {
            Some(s) => module_on(opt_config(config), AuthModule::Lockable)
                && s.maximum_attempts == config->0.maximum_attempts
                && s.unlock_in == config->0.unlock_in,
            None => !module_on(opt_config(config), AuthModule::Lockable),
        },
{
    match config {
        Some(c) => if c.has_module(AuthModule::Lockable) {
            Some(Settings { maximum_attempts: c.maximum_attempts, unlock_in: c.unlock_in })
        } else {
            None
        },
        None => None,
    }
}

/// What a sign-in attempt on a possibly locked account is answered with.
#[derive(Debug, Clone, Copy, PartialEq, Eq, Structural)]
pub enum LockCheck {
    /// Not locked: the attempt proceeds.
    Allow,
    /// The lock window has passed: clear the lock, then let the attempt proceed.
    Unlock,
    /// Still locked: the attempt is refused.
    Locked,
}

/// The answer for an account locked `elapsed` seconds ago (`None` when it
/// carries no lock).
pub fn lock_check(settings: Settings, elapsed: Option<i64>) -> (r: LockCheck)
    ensures
        r == match elapsed {
            None => LockCheck::Allow,
            Some(e) => if e >= settings.unlock_in {
                LockCheck::Unlock
            } else {
                LockCheck::Locked
            },
        },
{
    match elapsed {
        None => LockCheck::Allow,
        Some(e) => if e >= settings.unlock_in {
            LockCheck::Unlock
        } else {
            LockCheck::Locked
        },
    }
}

/// Whether `attempts` recorded failures lock the account (the stored count is
/// read as unsigned).
pub fn should_lock(attempts: i32, settings: Settings) -> (r: bool)
    ensures
        r == ((attempts as u32) >= settings.maximum_attempts),
{
    attempts as u32 >= settings.maximum_attempts
}

/// The lock columns of a user row: the failed-attempt counter and the time
/// (in seconds) the account was locked at.
#[derive(Debug, Clone, Copy, PartialEq, Eq)]
pub struct LockColumns {
    pub failed_attempts: i32,
    pub locked_at: Option<i64>,
}

/// The lock columns once cleared: no failures, no lock.
pub open spec fn cleared() -> LockColumns {
    LockColumns { failed_attempts: 0, locked_at: None }
}

/// The row after a failed sign-in at time `now`: the counter goes up by one
/// and, once it reaches the maximum, the lock is stamped `now`. Unchanged when
/// the module is off. `None` when the counter would leave the `i32` range the
/// stored count is read back as (an internal error).
pub fn record_failure(settings: Option<Settings>, row: LockColumns, now: i64) -> (r: Option<LockColumns>)
    ensures
        r == match settings {
            None => Some(row),
            Some(s) => if row.failed_attempts == i32::MAX {
                None
            } else {
                let n = (row.failed_attempts + 1) as i32;
                Some(
                    LockColumns {
                        failed_attempts: n,
                        locked_at: if (n as u32) >= s.maximum_attempts {
                            Some(now)
                        } else {
                            row.locked_at
                        },
                    },
                )
            },
        },
{
    match settings {
        None => Some(row),
        Some(s) => {
            if row.failed_attempts == i32::MAX {
                return None;
            }
            let n = row.failed_attempts + 1;
            let locked_at = if should_lock(n, s) {
                Some(now)
            } else {
                row.locked_at
            };
            Some(LockColumns { failed_attempts: n, locked_at })
        },
    }
}

/// The row after a successful sign-in: cleared when the module is on.
pub fn reset_attempts(settings: Option<Settings>, row: LockColumns) -> (r: LockColumns)
    ensures
        r == match settings {
            None => row,
            Some(_) => cleared(),
        },
{
    match settings {
        None => row,
        Some(_) => LockColumns { failed_attempts: 0, locked_at: None },
    }
}

/// A sign-in attempt at time `now` on a row: allowed as it is when the module
/// is off or the account carries no lock; allowed with the row cleared once
/// `unlock_in` seconds have passed since the lock; refused with
/// `AccountLocked` before that.
pub fn ensure_not_locked(settings: Option<Settings>, row: LockColumns, now: i64) -> (r: Result<LockColumns, AuthError>)
    requires
        row.locked_at matches Some(t) ==> i64::MIN <= now - t <= i64::MAX,
    ensures
        match (settings, row.locked_at) {
            (Some(s), Some(t)) => if now - t >= s.unlock_in {
                r == Ok::<LockColumns, AuthError>(cleared())
            } else {
                r matches Err(e) && e@ == AuthErrorView::AccountLocked
            },
            _ => r == Ok::<LockColumns, AuthError>(row),
        },
{
    match settings {
        None => Ok(row),
        Some(s) => match lock_check(s, match row.locked_at {
            Some(t) => Some(now - t),
            None => None,
        }) {
            LockCheck::Allow => Ok(row),
            LockCheck::Unlock => Ok(LockColumns { failed_attempts: 0, locked_at: None }),
            LockCheck::Locked => Err(AuthError::AccountLocked),
        },
    }
}

} // verus!
