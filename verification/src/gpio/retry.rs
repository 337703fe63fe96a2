//! The decisions of a checked GPIO write: verification by read-back, retries and the time budget.
//!
//! The caller performs the writes, reads, pauses and clock checks the machine asks for and
//! hands back their results; the machine decides what comes next and what the write returns.
use crate::error::{Error, Result};
use crate::gpio::{duration_from_millis, GpioLevel, GpioPin, GpioWriteConfig};
use vstd::prelude::*;

verus! {

/// What the caller of a [`GpioWriteRetry`] does next.
#[derive(Debug)]
pub enum WriteAction {
    /// Tell whether the time budget has run out, through [`GpioWriteRetry::on_deadline`].
    CheckDeadline,
    /// Drive the pin without read-back and hand the result to [`GpioWriteRetry::on_written`].
    WritePin,
    /// Wait 1 ms for the pin to settle, read it, and hand the result to [`GpioWriteRetry::on_read_back`].
    SettleAndReadPin,
    /// Wait the retry delay, then call [`GpioWriteRetry::on_paused`].
    PauseBeforeRetry,
    /// The write is over, with this result.
    Finished(Result<()>),
}

/// What a [`GpioWriteRetry`] waits for.
#[derive(Debug, Clone, Copy, PartialEq, Eq, Structural)]
pub enum WritePhase {
    /// The answer to `CheckDeadline`.
    Deadline,
    /// The result of `WritePin`.
    Written,
    /// The result of `SettleAndReadPin`.
    ReadBack,
    /// The end of `PauseBeforeRetry`.
    Paused,
    /// Nothing: the write is over.
    Done,
}

/// A GPIO write with optional read-back verification and retries.
#[derive(Debug)]
pub struct GpioWriteRetry {
    pin: GpioPin,
    level: GpioLevel,
    verify: bool,
    retry_attempts: u32,
    timeout_ms: u32,
    attempt: u32,
    phase: WritePhase,
}

/// The whole milliseconds of `d`, as `Duration::as_millis` counts them.
pub uninterp spec fn duration_as_millis(d: core::time::Duration) -> u128;

/// Calls `Duration::as_millis`: the whole milliseconds of `d`, which for a duration made of
/// `m` milliseconds are `m`.
#[verifier::external_body]
fn duration_millis(d: &core::time::Duration) -> (r: u128)
    ensures
        r == duration_as_millis(*d),
        forall|m: u64| *d == duration_from_millis(m) ==> r == m as u128,
{
    d.as_millis()
}

/// The 1-based number of attempt `attempt` (0-based), counted in a `u32` that wraps to 0
/// past its largest value.
pub open spec fn attempt_number(attempt: u32) -> u32 {
    if attempt < u32::MAX {
        (attempt + 1) as u32
    } else {
        0
    }
}

/// The error that ends attempt `attempt` (0-based) when the pin reads back `actual`.
pub open spec fn verification_failure(pin: u8, expected: GpioLevel, actual: GpioLevel, attempt: u32) -> Error {
    Error::GpioWriteVerificationFailed { pin, expected, actual, attempt: attempt_number(attempt) }
}

impl GpioWriteRetry {
    /// The pin being written.
    pub closed spec fn pin(&self) -> u8 {
        self.pin@
    }

    /// The level being written.
    pub closed spec fn level(&self) -> GpioLevel {
        self.level
    }

    /// Whether writes are verified.
    pub closed spec fn verify(&self) -> bool {
        self.verify
    }

    /// Retries allowed after the first attempt.
    pub closed spec fn retry_attempts(&self) -> u32 {
        self.retry_attempts
    }

    /// The time budget reported on timeout, in milliseconds.
    pub closed spec fn timeout_ms(&self) -> u32 {
        self.timeout_ms
    }

    /// The current attempt, from 0.
    pub closed spec fn attempt(&self) -> u32 {
        self.attempt
    }

    /// What the machine waits for.
    pub closed spec fn phase(&self) -> WritePhase {
        self.phase
    }

    /// The machine never goes past its last attempt.
    pub closed spec fn wf(&self) -> bool {
        &&& self.attempt <= self.retry_attempts
        &&& self.phase == WritePhase::Paused ==> self.attempt < self.retry_attempts
    }

    /// Starts a write of `level` to `pin` under `config`, whose time budget is `budget_ms` whole
    /// milliseconds (reported, cut to 32 bits, in a timeout); the first action is the deadline check.
    pub fn start_with_budget(pin: GpioPin, level: GpioLevel, config: &GpioWriteConfig, budget_ms: u128) -> (res: (
        GpioWriteRetry,
        WriteAction,
    ))
        ensures
            res.0.wf(),
            res.0.pin() == pin@,
            res.0.level() == level,
            res.0.verify() == config.verify_writes,
            res.0.retry_attempts() == config.retry_attempts,
            res.0.attempt() == 0,
            res.0.phase() == WritePhase::Deadline,
            res.0.timeout_ms() == budget_ms as u32,
            res.1 is CheckDeadline,
    {
        let m = GpioWriteRetry {
            pin,
            level,
            verify: config.verify_writes,
            retry_attempts: config.retry_attempts,
            timeout_ms: budget_ms as u32,
            attempt: 0,
            phase: WritePhase::Deadline,
        };
        (m, WriteAction::CheckDeadline)
    }

    /// Starts a write of `level` to `pin` under `config`, with the whole milliseconds of its
    /// operation timeout as the budget; the first action is the deadline check.
    pub fn start(pin: GpioPin, level: GpioLevel, config: &GpioWriteConfig) -> (res: (GpioWriteRetry, WriteAction))
        ensures
            res.0.wf(),
            res.0.pin() == pin@,
            res.0.level() == level,
            res.0.verify() == config.verify_writes,
            res.0.retry_attempts() == config.retry_attempts,
            res.0.attempt() == 0,
            res.0.phase() == WritePhase::Deadline,
            res.0.timeout_ms() == duration_as_millis(config.operation_timeout) as u32,
            forall|m: u64| config.operation_timeout == duration_from_millis(m) ==> res.0.timeout_ms() == m as u32,
            res.1 is CheckDeadline,
    {
        let ms = duration_millis(&config.operation_timeout);
        proof {
            assert forall|m: u64| config.operation_timeout == #[trigger] duration_from_millis(m) implies ms as u32
                == m as u32 by {
                assert((m as u128) as u32 == m as u32) by (bit_vector);
            }
        }
        Self::start_with_budget(pin, level, config, ms)
    }

    /// Ends the current attempt with `e`: pause before the next attempt, or fail with `e` after the last.
    fn end_attempt(&mut self, e: Error) -> (action: WriteAction)
        requires
            old(self).wf(),
        ensures
            final(self).wf(),
            final(self).attempt() == old(self).attempt(),
            old(self).attempt() < old(self).retry_attempts() ==> action is PauseBeforeRetry
                && final(self).phase() == WritePhase::Paused,
            old(self).attempt() >= old(self).retry_attempts() ==> action == WriteAction::Finished(Err(e))
                && final(self).phase() == WritePhase::Done,
            final(self).pin() == old(self).pin() && final(self).level() == old(self).level()
                && final(self).verify() == old(self).verify() && final(self).retry_attempts()
                == old(self).retry_attempts() && final(self).timeout_ms() == old(self).timeout_ms(),
    {
        if self.attempt < self.retry_attempts {
            self.phase = WritePhase::Paused;
            WriteAction::PauseBeforeRetry
        } else {
            self.phase = WritePhase::Done;
            WriteAction::Finished(Err(e))
        }
    }

    /// Takes whether the time budget has run out: if so, the write fails with a timeout;
    /// otherwise the pin is written.
    pub fn on_deadline(&mut self, passed: bool) -> (action: WriteAction)
        requires
            old(self).wf(),
            old(self).phase() == WritePhase::Deadline,
        ensures
            final(self).wf(),
            final(self).attempt() == old(self).attempt(),
            passed ==> (action matches WriteAction::Finished(Err(Error::GpioOperationTimeout { pin, operation, timeout_ms }))
                && pin == old(self).pin() && operation@ == "write"@ && timeout_ms == old(self).timeout_ms())
                && final(self).phase() == WritePhase::Done,
            !passed ==> action is WritePin && final(self).phase() == WritePhase::Written,
            final(self).pin() == old(self).pin() && final(self).level() == old(self).level()
                && final(self).verify() == old(self).verify() && final(self).retry_attempts()
                == old(self).retry_attempts() && final(self).timeout_ms() == old(self).timeout_ms(),
    {
        if passed {
            self.phase = WritePhase::Done;
            WriteAction::Finished(Err(Error::GpioOperationTimeout {
                pin: self.pin.number(),
                operation: String::from_str("write"),
                timeout_ms: self.timeout_ms,
            }))
        } else {
            self.phase = WritePhase::Written;
            WriteAction::WritePin
        }
    }

    /// Takes the result of writing the pin.
    ///
    /// A successful write without verification ends the write successfully; with verification,
    /// the pin is read back. A failed write ends the attempt with its error.
    pub fn on_written(&mut self, result: Result<()>) -> (action: WriteAction)
        requires
            old(self).wf(),
            old(self).phase() == WritePhase::Written,
        ensures
            final(self).wf(),
            final(self).attempt() == old(self).attempt(),
            final(self).pin() == old(self).pin() && final(self).level() == old(self).level()
                && final(self).verify() == old(self).verify() && final(self).retry_attempts()
                == old(self).retry_attempts() && final(self).timeout_ms() == old(self).timeout_ms(),
            match result {
                Ok(()) => if old(self).verify() {
                    action is SettleAndReadPin && final(self).phase() == WritePhase::ReadBack
                } else {
                    action == WriteAction::Finished(Ok(())) && final(self).phase() == WritePhase::Done
                },
                Err(e) => if old(self).attempt() < old(self).retry_attempts() {
                    action is PauseBeforeRetry && final(self).phase() == WritePhase::Paused
                } else {
                    action == WriteAction::Finished(Err(e)) && final(self).phase() == WritePhase::Done
                },
            },
    {
        match result {
            Ok(()) => {
                if self.verify {
                    self.phase = WritePhase::ReadBack;
                    WriteAction::SettleAndReadPin
                } else {
                    self.phase = WritePhase::Done;
                    WriteAction::Finished(Ok(()))
                }
            },
            Err(e) => self.end_attempt(e),
        }
    }

    /// Takes the level read back from the pin.
    ///
    /// The requested level ends the write successfully. Another level ends the attempt with a
    /// verification failure that names the 1-based attempt; a failed read ends it with the read's error.
    pub fn on_read_back(&mut self, result: Result<GpioLevel>) -> (action: WriteAction)
        requires
            old(self).wf(),
            old(self).phase() == WritePhase::ReadBack,
        ensures
            final(self).wf(),
            final(self).attempt() == old(self).attempt(),
            final(self).pin() == old(self).pin() && final(self).level() == old(self).level()
                && final(self).verify() == old(self).verify() && final(self).retry_attempts()
                == old(self).retry_attempts() && final(self).timeout_ms() == old(self).timeout_ms(),
            match result {
                Ok(actual) => if actual == old(self).level() {
                    action == WriteAction::Finished(Ok(())) && final(self).phase() == WritePhase::Done
                } else if old(self).attempt() < old(self).retry_attempts() {
                    action is PauseBeforeRetry && final(self).phase() == WritePhase::Paused
                } else {
                    action == WriteAction::Finished(Err(verification_failure(
                        old(self).pin(),
                        old(self).level(),
                        actual,
                        old(self).attempt(),
                    ))) && final(self).phase() == WritePhase::Done
                },
                Err(e) => if old(self).attempt() < old(self).retry_attempts() {
                    action is PauseBeforeRetry && final(self).phase() == WritePhase::Paused
                } else {
                    action == WriteAction::Finished(Err(e)) && final(self).phase() == WritePhase::Done
                },
            },
    {
        match result {
            Ok(actual) => {
                if actual == self.level {
                    self.phase = WritePhase::Done;
                    WriteAction::Finished(Ok(()))
                } else {
                    let number = if self.attempt < u32::MAX {
                        self.attempt + 1
                    } else {
                        0
                    };
                    let e = Error::GpioWriteVerificationFailed {
                        pin: self.pin.number(),
                        expected: self.level,
                        actual,
                        attempt: number,
                    };
                    self.end_attempt(e)
                }
            },
            Err(e) => self.end_attempt(e),
        }
    }

    /// The pause is over: the next attempt starts with a deadline check.
    pub fn on_paused(&mut self) -> (action: WriteAction)
        requires
            old(self).wf(),
            old(self).phase() == WritePhase::Paused,
        ensures
            final(self).wf(),
            old(self).attempt() < old(self).retry_attempts(),
            final(self).attempt() == old(self).attempt() + 1,
            action is CheckDeadline,
            final(self).phase() == WritePhase::Deadline,
            final(self).pin() == old(self).pin() && final(self).level() == old(self).level()
                && final(self).verify() == old(self).verify() && final(self).retry_attempts()
                == old(self).retry_attempts() && final(self).timeout_ms() == old(self).timeout_ms(),
    {
        self.attempt = self.attempt + 1;
        self.phase = WritePhase::Deadline;
        WriteAction::CheckDeadline
    }
}

} // verus!
