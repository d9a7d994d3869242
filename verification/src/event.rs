//! The key-press event that flows from the keyboard hook through the
//! writer into storage and aggregation.

use vstd::prelude::*;
use crate::clock::{in_chrono_range, utc_now_millis, MAX_EPOCH_DAY, MS_PER_DAY};

verus! {

/// One key press.
#[derive(Debug, Clone)]
pub struct KeyEvent {
    /// Windows virtual-key code.
    pub key_code: u32,
    /// UTC milliseconds since the Unix epoch.
    pub timestamp_ms: i64,
    pub session_id: String,
    pub modifiers: u8,
}

impl KeyEvent {
    /// An event stamped with the current UTC time (0 when the system clock
    /// reads before the Unix epoch or after `chrono`'s last day), a time
    /// that `chrono` represents.
    pub fn now(key_code: u32, session_id: String, modifiers: u8) -> (e: KeyEvent)
        ensures
            e.key_code == key_code,
            e.session_id == session_id,
            e.modifiers == modifiers,
            0 <= e.timestamp_ms,
            in_chrono_range(e.timestamp_ms as int),
    {
        let ts: i64 = match utc_now_millis() {
            Some(ms) => ms,
            None => 0,
        };
        assert(0 <= ts / MS_PER_DAY <= MAX_EPOCH_DAY);
        KeyEvent { key_code, timestamp_ms: ts, session_id, modifiers }
    }
}

} // verus!
