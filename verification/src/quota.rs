//! The quota: how often one unit comes back, and how many units a key can hold.

use vstd::prelude::*;

verus! {

/// Why a quota could not be built.
#[derive(Clone, Copy, Debug, PartialEq, Eq, Structural)]
pub enum ConfigurationError {
    /// The burst size was zero.
    ZeroBurstSize,
    /// The replenishment period was zero.
    ZeroPeriod,
    /// The replenishment period does not fit the 64 bits in which the
    /// limiter counts nanoseconds: it is longer than 584 years.
    PeriodTooLong,
    /// The window, burst size times period, does not fit those 64 bits: a
    /// bucket could owe more time than the limiter can count.
    WindowTooLong,
}

/// A replenishment period, in nanoseconds, and a burst size. Both are
/// positive, and the window, their product, fits 64 bits of nanoseconds.
#[derive(Clone, Copy, Debug, PartialEq, Eq, Structural)]
pub struct Quota {
    period: u64,
    burst_size: u32,
}

impl Quota {
    /// The nanoseconds after which one unit is replenished.
    pub closed spec fn spec_period(&self) -> u64 {
        self.period
    }

    /// The number of units that a key can hold at once.
    pub closed spec fn spec_burst_size(&self) -> u32 {
        self.burst_size
    }

    /// Both attributes are positive, and the window fits the 64 bits in
    /// which arrival times are stored. Every quota that a program holds is
    /// well formed.
    #[verifier::type_invariant]
    pub open spec fn wf(self) -> bool {
        &&& self.spec_period() > 0
        &&& self.spec_burst_size() > 0
        &&& self.spec_window() <= u64::MAX
    }

    /// The last instant that the limiter counts: one window before the last
    /// instant that 64 bits of nanoseconds can hold, so that an arrival time
    /// one window ahead of any counted instant can still be stored.
    pub open spec fn spec_horizon(self) -> int {
        u64::MAX - self.spec_window()
    }

    /// The nanoseconds after which an empty bucket is full again.
    pub open spec fn spec_window(self) -> int {
        self.spec_burst_size() * self.spec_period()
    }

    /// What building a quota of these attributes comes to: the attributes
    /// themselves, or the first of the four faults that they have.
    pub open spec fn validate(period: u128, burst_size: u32) -> Result<(u64, u32), ConfigurationError> {
        if burst_size == 0 {
            Err(ConfigurationError::ZeroBurstSize)
        } else if period == 0 {
            Err(ConfigurationError::ZeroPeriod)
        } else if period > u64::MAX {
            Err(ConfigurationError::PeriodTooLong)
        } else if burst_size * period > u64::MAX {
            Err(ConfigurationError::WindowTooLong)
        } else {
            Ok((period as u64, burst_size))
        }
    }

    /// Builds a quota of a period in nanoseconds and a burst size, or says
    /// what is wrong with them.
    pub fn new(period: u128, burst_size: u32) -> (r: Result<Quota, ConfigurationError>)
        ensures
            match r {
                Ok(q) => q.wf() && Quota::validate(period, burst_size) == Ok::<
                    (u64, u32),
                    ConfigurationError,
                >((q.spec_period(), q.spec_burst_size())),
                Err(e) => Quota::validate(period, burst_size) == Err::<
                    (u64, u32),
                    ConfigurationError,
                >(e),
            },
    {
        if burst_size == 0 {
            Err(ConfigurationError::ZeroBurstSize)
        } else if period == 0 {
            Err(ConfigurationError::ZeroPeriod)
        } else if period > u64::MAX as u128 {
            Err(ConfigurationError::PeriodTooLong)
        } else {
            assert(burst_size * period <= 0xffff_ffff * 0xffff_ffff_ffff_ffff) by (nonlinear_arith)
                requires
                    burst_size <= 0xffff_ffff,
                    period <= 0xffff_ffff_ffff_ffff,
            ;
            if (burst_size as u128) * period > u64::MAX as u128 {
                Err(ConfigurationError::WindowTooLong)
            } else {
                Ok(Quota { period: period as u64, burst_size })
            }
        }
    }

    #[verifier::when_used_as_spec(spec_period)]
    pub fn period(&self) -> (p: u64)
        ensures
            p == self.spec_period(),
            p > 0,
    {
        proof {
            use_type_invariant(self);
        }
        self.period
    }

    #[verifier::when_used_as_spec(spec_burst_size)]
    pub fn burst_size(&self) -> (n: u32)
        ensures
            n == self.spec_burst_size(),
            n > 0,
    {
        proof {
            use_type_invariant(self);
        }
        self.burst_size
    }

    /// The nanoseconds after which an empty bucket is full again.
    pub fn window(&self) -> (w: u64)
        ensures
            w == self.spec_window(),
            w >= self.spec_period(),
    {
        proof {
            use_type_invariant(self);
            self.lemma_window_bounds();
        }
        ((self.burst_size as u128) * (self.period as u128)) as u64
    }

    /// The last instant that the limiter counts.
    pub fn horizon(&self) -> (h: u64)
        ensures
            h == self.spec_horizon(),
    {
        u64::MAX - self.window()
    }

    /// In a valid quota the window is at least one period and fits 64 bits.
    pub proof fn lemma_window_bounds(self)
        requires
            self.wf(),
        ensures
            self.spec_period() <= self.spec_window() <= u64::MAX,
            self.spec_window() == self.spec_burst_size() * self.spec_period(),
            self.spec_window() - self.spec_period() == (self.spec_burst_size() - 1)
                * self.spec_period(),
            0 <= self.spec_horizon(),
    {
        let n = self.spec_burst_size() as int;
        let p = self.spec_period() as int;
        assert(n * p >= p) by (nonlinear_arith)
            requires
                n >= 1,
                p >= 0,
        ;
        assert(n * p - p == (n - 1) * p) by (nonlinear_arith);
    }
}

} // verus!
