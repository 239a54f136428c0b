use vstd::prelude::*;
use std::collections::{HashMap, HashSet};
use crate::types::Address;

verus! {

broadcast use vstd::std_specs::hash::group_hash_axioms;

/// The rate limiter's settings.
#[derive(Clone, Copy, Debug, PartialEq, Eq, Structural)]
pub struct AntiAbuseConfig {
    /// Length of one counting window, in seconds.
    pub window_size: u64,
    /// Operations allowed in one window.
    pub max_operations: u32,
    /// Minimum number of seconds between two operations of one address.
    pub cooldown_period: u64,
}

/// What the rate limiter remembers of one address.
#[derive(Clone, Copy, Debug, PartialEq, Eq, Structural)]
pub struct AddressState {
    pub last_operation_timestamp: u64,
    pub window_start_timestamp: u64,
    pub operation_count: u32,
}

/// Why the rate limiter turned an address away.
#[derive(Clone, Copy, Debug, PartialEq, Eq, Structural)]
pub enum RateLimitDenial {
    /// The previous operation of the address was less than a cooldown period ago.
    Cooldown,
    /// The address used up its operations in the current window.
    LimitExceeded,
}

/// The settings used until others are configured: ten operations an hour, one a minute.
pub open spec fn default_config_spec() -> AntiAbuseConfig {
    AntiAbuseConfig { window_size: 3600, max_operations: 10, cooldown_period: 60 }
}

/// `a + b`, or `u64::MAX` where the sum does not fit.
pub open spec fn sat_add(a: u64, b: u64) -> u64 {
    if a + b > u64::MAX {
        u64::MAX
    } else {
        (a + b) as u64
    }
}

/// The abstract state of the rate limiter.
pub struct RateLimiterModel {
    pub config: AntiAbuseConfig,
    pub states: Map<u64, AddressState>,
    pub whitelist: Set<u64>,
}

/// What the limiter knows of `addr` before its first operation at `now`.
pub open spec fn fresh_state(now: u64) -> AddressState {
    AddressState { last_operation_timestamp: 0, window_start_timestamp: now, operation_count: 0 }
}

/// The decision of the limiter on an operation of `addr` at `now`: the new record of the
/// address if it is let through (`None` for a whitelisted address, which leaves no trace),
/// or the reason it is turned away.
pub open spec fn rate_decision(m: RateLimiterModel, addr: Address, now: u64) -> Result<
    Option<AddressState>,
    RateLimitDenial,
> {
    if m.whitelist.contains(addr.0) {
        Ok(None)
    } else {
        let st = if m.states.contains_key(addr.0) {
            m.states[addr.0]
        } else {
            fresh_state(now)
        };
        if st.last_operation_timestamp > 0 && now < sat_add(
            st.last_operation_timestamp,
            m.config.cooldown_period,
        ) {
            Err(RateLimitDenial::Cooldown)
        } else if now >= sat_add(st.window_start_timestamp, m.config.window_size) {
            Ok(
                Some(
                    AddressState {
                        last_operation_timestamp: now,
                        window_start_timestamp: now,
                        operation_count: 1,
                    },
                ),
            )
        } else if st.operation_count >= m.config.max_operations {
            Err(RateLimitDenial::LimitExceeded)
        } else {
            Ok(
                Some(
                    AddressState {
                        last_operation_timestamp: now,
                        window_start_timestamp: st.window_start_timestamp,
                        operation_count: (st.operation_count + 1) as u32,
                    },
                ),
            )
        }
    }
}

/// The limiter after it let `addr` through with `decision`.
pub open spec fn apply_decision(
    m: RateLimiterModel,
    addr: Address,
    decision: Option<AddressState>,
) -> RateLimiterModel {
    match decision {
        Some(st) => RateLimiterModel { states: m.states.insert(addr.0, st), ..m },
        None => m,
    }
}

/// The limiter after an operation of `addr` at `now`, or the reason it was refused.
pub open spec fn rate_check(m: RateLimiterModel, addr: Address, now: u64) -> Result<
    RateLimiterModel,
    RateLimitDenial,
> {
    match rate_decision(m, addr, now) {
        Ok(d) => Ok(apply_decision(m, addr, d)),
        Err(e) => Err(e),
    }
}

/// A per-address sliding window with a cooldown, and a whitelist that bypasses both.
pub struct RateLimiter {
    pub config: AntiAbuseConfig,
    pub states: HashMap<u64, AddressState>,
    pub whitelist: HashSet<u64>,
}

impl View for RateLimiter {
    type V = RateLimiterModel;

    open spec fn view(&self) -> RateLimiterModel {
        RateLimiterModel { config: self.config, states: self.states@, whitelist: self.whitelist@ }
    }
}

impl RateLimiter {
    /// A limiter with the default settings, no history and an empty whitelist.
    pub fn new() -> (r: RateLimiter)
        ensures
            r@.config == default_config_spec(),
            r@.states == Map::<u64, AddressState>::empty(),
            r@.whitelist == Set::<u64>::empty(),
    {
        RateLimiter {
            config: AntiAbuseConfig { window_size: 3600, max_operations: 10, cooldown_period: 60 },
            states: HashMap::new(),
            whitelist: HashSet::new(),
        }
    }

    /// The current settings.
    pub fn get_config(&self) -> (r: AntiAbuseConfig)
        ensures
            r == self@.config,
    {
        self.config
    }

    /// Replaces the settings; the records of the addresses stay.
    pub fn set_config(&mut self, config: AntiAbuseConfig)
        ensures
            final(self)@ == (RateLimiterModel { config, ..old(self)@ }),
    {
        self.config = config;
    }

    /// Whether `address` bypasses the limiter.
    pub fn is_whitelisted(&self, address: Address) -> (r: bool)
        ensures
            r == self@.whitelist.contains(address.0),
    {
        self.whitelist.contains(&address.0)
    }

    /// Adds `address` to the whitelist, or takes it off.
    pub fn set_whitelist(&mut self, address: Address, whitelisted: bool)
        ensures
            final(self)@ == (RateLimiterModel {
                whitelist: if whitelisted {
                    old(self)@.whitelist.insert(address.0)
                } else {
                    old(self)@.whitelist.remove(address.0)
                },
                ..old(self)@
            }),
    {
        if whitelisted {
            self.whitelist.insert(address.0);
        } else {
            self.whitelist.remove(&address.0);
        }
    }

    /// Decides on an operation of `address` at `now` without recording it.
    pub fn evaluate(&self, address: Address, now: u64) -> (r: Result<
        Option<AddressState>,
        RateLimitDenial,
    >)
        ensures
            r == rate_decision(self@, address, now),
    {
        if self.whitelist.contains(&address.0) {
            return Ok(None);
        }
        let st = match self.states.get(&address.0) {
            Some(s) => *s,
            None => AddressState {
                last_operation_timestamp: 0,
                window_start_timestamp: now,
                operation_count: 0,
            },
        };
        if st.last_operation_timestamp > 0 && now < st.last_operation_timestamp.saturating_add(
            self.config.cooldown_period,
        ) {
            return Err(RateLimitDenial::Cooldown);
        }
        if now >= st.window_start_timestamp.saturating_add(self.config.window_size) {
            Ok(
                Some(
                    AddressState {
                        last_operation_timestamp: now,
                        window_start_timestamp: now,
                        operation_count: 1,
                    },
                ),
            )
        } else if st.operation_count >= self.config.max_operations {
            Err(RateLimitDenial::LimitExceeded)
        } else {
            Ok(
                Some(
                    AddressState {
                        last_operation_timestamp: now,
                        window_start_timestamp: st.window_start_timestamp,
                        operation_count: st.operation_count + 1,
                    },
                ),
            )
        }
    }

    /// Records a decision that [`RateLimiter::evaluate`] let through.
    pub fn record(&mut self, address: Address, decision: Option<AddressState>)
        ensures
            final(self)@ == apply_decision(old(self)@, address, decision),
    {
        match decision {
            Some(st) => {
                self.states.insert(address.0, st);
            },
            None => {},
        }
    }

    /// Consults the limiter for an operation of `address` at `now`, recording it if it is
    /// let through; a refused operation leaves the limiter as it was.
    pub fn check_rate_limit(&mut self, address: Address, now: u64) -> (r: Result<
        (),
        RateLimitDenial,
    >)
        ensures
            match rate_check(old(self)@, address, now) {
                Ok(m) => r is Ok && final(self)@ == m,
                Err(e) => r == Err::<(), RateLimitDenial>(e) && final(self)@ == old(self)@,
            },
    {
        match self.evaluate(address, now) {
            Ok(d) => {
                self.record(address, d);
                Ok(())
            },
            Err(e) => Err(e),
        }
    }
}

} // verus!
