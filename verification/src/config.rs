//! Tuning parameters for the live provider.

use vstd::prelude::*;

verus! {

/// Immutable configuration of the live provider, supplied once at startup
/// and never mutated afterwards.
///
/// The provider's sampling temperature is a fractional quantity; it is held
/// here in thousandths (700 stands for 0.7), so that the whole record is
/// made of plain values. The caller that talks to the provider converts it
/// back to the provider's fractional form.
pub struct GigaChatConfig {
    /// Whether the live provider may be used at all.
    pub enabled: bool,
    /// Model identifier passed to the provider.
    pub model: String,
    /// Upper bound on the number of tokens in one reply; positive.
    pub max_tokens: u32,
    /// Sampling temperature, in thousandths.
    pub temperature_milli: u32,
    /// Bound on one dispatch to the provider, in seconds; positive.
    pub timeout_seconds: u64,
}

impl Clone for GigaChatConfig {
    /// An exact copy, field for field.
    fn clone(&self) -> (r: Self)
        ensures
            r.enabled == self.enabled,
            r.model@ == self.model@,
            r.max_tokens == self.max_tokens,
            r.temperature_milli == self.temperature_milli,
            r.timeout_seconds == self.timeout_seconds,
    {
        GigaChatConfig {
            enabled: self.enabled,
            model: self.model.clone(),
            max_tokens: self.max_tokens,
            temperature_milli: self.temperature_milli,
            timeout_seconds: self.timeout_seconds,
        }
    }
}

} // verus!
