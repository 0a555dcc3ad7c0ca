//! The configuration of one benchmark run: typed values that were parsed
//! and defaulted elsewhere, validated here once.

use vstd::prelude::*;

verus! {

/// What becomes of a task that failed when its phase is summarized.
#[derive(Clone, Copy, Debug, PartialEq, Eq, Structural)]
pub enum FailurePolicy {
    /// A failed task contributes no sample.
    ExcludeFromStats,
    /// A failed task contributes a sample of zero.
    ZeroFillStats,
}

/// Which phases a run measures.
#[derive(Clone, Copy, Debug, PartialEq, Eq, Structural)]
pub enum Mode {
    /// Write every object, then read every object back.
    WriteThenRead,
    /// Write every object; the read phase is skipped.
    WriteOnly,
    /// Reads and writes mixed, with the percentage of reads. No interleaved
    /// schedule exists: such a run is sequenced as write-then-read.
    Mixed { read_percent: u8 },
}

/// Why a configuration was refused.
#[derive(Clone, Copy, Debug, PartialEq, Eq, Structural)]
pub enum ConfigError {
    /// The operation count was zero.
    ZeroCount,
    /// The parallelism limit was zero.
    ZeroParallelism,
}

/// The validated settings of a run. The count and the parallelism limit are
/// at least one; the limit may exceed the count.
#[derive(Clone, Copy, Debug, PartialEq, Eq, Structural)]
pub struct BenchmarkConfig {
    payload_size: usize,
    parallelism: usize,
    count: usize,
    mode: Mode,
    policy: FailurePolicy,
}

/// The error owed to a count and a limit, if any: a zero count is reported
/// before a zero limit.
pub open spec fn config_error(count: nat, parallelism: nat) -> Option<ConfigError> {
    if count == 0 {
        Some(ConfigError::ZeroCount)
    } else if parallelism == 0 {
        Some(ConfigError::ZeroParallelism)
    } else {
        None
    }
}

impl BenchmarkConfig {
    /// The payload size in bytes.
    pub closed spec fn spec_payload_size(&self) -> nat {
        self.payload_size as nat
    }

    /// The cap on operations in flight.
    pub closed spec fn spec_parallelism(&self) -> nat {
        self.parallelism as nat
    }

    /// The number of operations of each phase.
    pub closed spec fn spec_count(&self) -> nat {
        self.count as nat
    }

    /// The mode of the run.
    pub closed spec fn spec_mode(&self) -> Mode {
        self.mode
    }

    /// The policy for failed tasks.
    pub closed spec fn spec_policy(&self) -> FailurePolicy {
        self.policy
    }

    /// Every configuration is valid: count and limit are at least one.
    #[verifier::type_invariant]
    spec fn valid(&self) -> bool {
        self.count >= 1 && self.parallelism >= 1
    }

    /// Validates the settings of a run. Failed tasks are excluded from the
    /// statistics unless `with_policy` says otherwise.
    pub fn new(payload_size: usize, parallelism: usize, count: usize, mode: Mode) -> (result: Result<
        BenchmarkConfig,
        ConfigError,
    >)
        ensures
            match config_error(count as nat, parallelism as nat) {
                Some(error) => result == Err::<BenchmarkConfig, ConfigError>(error),
                None => result matches Ok(config) && config.spec_payload_size()
                    == payload_size && config.spec_parallelism() == parallelism
                    && config.spec_count() == count && config.spec_mode() == mode
                    && config.spec_policy() == FailurePolicy::ExcludeFromStats,
            },
    {
        if count == 0 {
            Err(ConfigError::ZeroCount)
        } else if parallelism == 0 {
            Err(ConfigError::ZeroParallelism)
        } else {
            Ok(
                BenchmarkConfig {
                    payload_size,
                    parallelism,
                    count,
                    mode,
                    policy: FailurePolicy::ExcludeFromStats,
                },
            )
        }
    }

    /// The same configuration with another policy for failed tasks.
    pub fn with_policy(self, policy: FailurePolicy) -> (config: BenchmarkConfig)
        ensures
            config.spec_policy() == policy,
            config.spec_payload_size() == self.spec_payload_size(),
            config.spec_parallelism() == self.spec_parallelism(),
            config.spec_count() == self.spec_count(),
            config.spec_mode() == self.spec_mode(),
    {
        proof {
            use_type_invariant(&self);
        }
        BenchmarkConfig {
            payload_size: self.payload_size,
            parallelism: self.parallelism,
            count: self.count,
            mode: self.mode,
            policy,
        }
    }

    /// The payload size in bytes.
    pub fn payload_size(&self) -> (size: usize)
        ensures
            size == self.spec_payload_size(),
    {
        self.payload_size
    }

    /// The cap on operations in flight, at least one.
    pub fn parallelism(&self) -> (limit: usize)
        ensures
            limit == self.spec_parallelism(),
            limit >= 1,
    {
        proof {
            use_type_invariant(self);
        }
        self.parallelism
    }

    /// The number of operations of each phase, at least one.
    pub fn count(&self) -> (count: usize)
        ensures
            count == self.spec_count(),
            count >= 1,
    {
        proof {
            use_type_invariant(self);
        }
        self.count
    }

    /// The mode of the run.
    pub fn mode(&self) -> (mode: Mode)
        ensures
            mode == self.spec_mode(),
    {
        self.mode
    }

    /// The policy for failed tasks.
    pub fn policy(&self) -> (policy: FailurePolicy)
        ensures
            policy == self.spec_policy(),
    {
        self.policy
    }
}

} // verus!
