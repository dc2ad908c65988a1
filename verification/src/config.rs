//! The pessimistic-transaction lock manager's configuration and its
//! validation rule.

use vstd::prelude::*;

verus! {

/// Lock manager settings: whether pessimistic transactions are on, how long
/// a transaction waits for a lock, and how long a wake-up is delayed, both in
/// milliseconds.
#[derive(Clone, Copy, PartialEq, Eq, Structural, Debug)]
pub struct Config {
    pub enabled: bool,
    pub wait_for_lock_timeout: u64,
    pub wake_up_delay_duration: u64,
}

impl Default for Config {
    /// Pessimistic transactions on, a three-second lock wait, a one
    /// millisecond wake-up delay.
    fn default() -> (r: Self)
        ensures
            r == (Config { enabled: true, wait_for_lock_timeout: 3000, wake_up_delay_duration: 1 }),
    {
        Config { enabled: true, wait_for_lock_timeout: 3000, wake_up_delay_duration: 1 }
    }
}

impl Config {
    /// A configuration is valid exactly when the lock wait timeout is not
    /// zero.
    pub fn validate(&self) -> (r: Result<(), &'static str>)
        ensures
            r is Ok <==> self.wait_for_lock_timeout != 0,
            r matches Err(m) ==> m@ == "pessimistic-txn.wait-for-lock-timeout can not be 0"@,
    {
        if self.wait_for_lock_timeout == 0 {
            Err("pessimistic-txn.wait-for-lock-timeout can not be 0")
        } else {
            Ok(())
        }
    }
}

} // verus!
