//! Update modes with their timing parameters, and the timeout each implies.

use vstd::prelude::*;

verus! {

/// How tag values are refreshed. The change threshold of `PollingOnChange` is a float
/// that none of these rules reads; it is carried next to the mode by the caller.
#[derive(Debug, Clone, Copy, PartialEq, Eq, Structural)]
pub enum TagUpdateMode {
    /// Event-driven: only report when data changes
    OnChange { debounce_ms: u64, timeout_ms: u64 },
    /// Periodic polling
    Polling { interval_ms: u64 },
    /// Poll but only report significant changes
    PollingOnChange { interval_ms: u64 },
}

impl TagUpdateMode {
    /// The timeout a mode implies: the configured one for `OnChange`, three polling
    /// intervals otherwise.
    pub open spec fn timeout_spec(self) -> int {
        match self {
            TagUpdateMode::OnChange { timeout_ms, .. } => timeout_ms as int,
            TagUpdateMode::Polling { interval_ms } => interval_ms * 3,
            TagUpdateMode::PollingOnChange { interval_ms } => interval_ms * 3,
        }
    }

    pub fn timeout_ms(&self) -> (r: u64)
        requires
            self.timeout_spec() <= u64::MAX,
        ensures
            r == self.timeout_spec(),
    {
        match self {
            TagUpdateMode::OnChange { timeout_ms, .. } => *timeout_ms,
            TagUpdateMode::Polling { interval_ms } => interval_ms * 3,
            TagUpdateMode::PollingOnChange { interval_ms } => interval_ms * 3,
        }
    }

    pub fn is_continuous(&self) -> (r: bool)
        ensures
            r == (self is OnChange),
    {
        match self {
            TagUpdateMode::OnChange { .. } => true,
            _ => false,
        }
    }

    pub fn is_polling(&self) -> (r: bool)
        ensures
            r == (self is Polling || self is PollingOnChange),
    {
        match self {
            TagUpdateMode::Polling { .. } | TagUpdateMode::PollingOnChange { .. } => true,
            _ => false,
        }
    }
}

/// Every mode is either continuous or polling, never both.
pub proof fn lemma_mode_continuous_xor_polling(m: TagUpdateMode)
    ensures
        (m is OnChange) != (m is Polling || m is PollingOnChange),
{
}

/// The debounce an `OnChange` mode gets when none is configured.
pub fn default_debounce() -> (r: u64)
    ensures
        r == 100,
{
    100
}

/// The timeout an `OnChange` mode gets when none is configured.
pub fn default_timeout() -> (r: u64)
    ensures
        r == 5000,
{
    5000
}

} // verus!
