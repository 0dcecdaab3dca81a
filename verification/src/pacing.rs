//! Pacing: waits between requests, and what to do when the service asks to slow down.

use rand::Rng;
use vstd::prelude::*;

use crate::error::AppError;
use crate::error::Result;
use crate::number;
use crate::types::PacingStats;

verus! {

/// How often a flood wait is sat out before an operation fails.
pub const MAX_FLOOD_RETRIES: u32 = 3;

/// What is paced.
#[derive(Debug, Clone, Copy, PartialEq, Eq, Structural)]
pub enum PaceBucket {
    Request,
    Download,
}

/// The pace of a connection. Times are milliseconds of a clock that does not go back.
#[derive(Debug, Clone, Copy, PartialEq, Eq, Structural)]
pub struct Pacer {
    pub request_delay_ms: u64,
    pub download_delay_ms: u64,
    pub jitter_ms: u64,
    pub flood_sleep_threshold_secs: u64,
    pub flood_wait_count: u64,
    pub flood_sleep_ms_total: u64,
    pub cooldown_until_ms: Option<u64>,
}

/// Whether a flood wait is sat out: it is positive, there are retries left, and it is not longer than
/// the threshold. A threshold of zero allows any wait.
pub open spec fn sits_out(threshold_secs: u64, seconds: i32, attempt: u32) -> bool {
    &&& seconds > 0
    &&& attempt < MAX_FLOOD_RETRIES
    &&& threshold_secs == 0 || seconds <= threshold_secs
}

impl Pacer {
    /// The pace after a flood wait that is sat out: it is counted with one second to spare, and starts
    /// a pause, unless a longer one is running.
    pub open spec fn paused(self, seconds: i32, now_ms: u64) -> Pacer {
        let pause_ms = (seconds + 1) * 1000;
        let until = number::capped_u64(now_ms + pause_ms) as u64;
        Pacer {
            flood_wait_count: number::capped_u64(self.flood_wait_count + 1) as u64,
            flood_sleep_ms_total: number::capped_u64(self.flood_sleep_ms_total + pause_ms) as u64,
            cooldown_until_ms: match self.cooldown_until_ms {
                Some(existing) if existing >= until => Some(existing),
                _ => Some(until),
            },
            ..self
        }
    }

    pub fn new(
        request_delay_ms: u64,
        download_delay_ms: u64,
        jitter_ms: u64,
        flood_sleep_threshold_secs: u64,
    ) -> (pacer: Pacer)
        ensures
            pacer.request_delay_ms == request_delay_ms,
            pacer.download_delay_ms == download_delay_ms,
            pacer.jitter_ms == jitter_ms,
            pacer.flood_sleep_threshold_secs == flood_sleep_threshold_secs,
            pacer.flood_wait_count == 0,
            pacer.flood_sleep_ms_total == 0,
            pacer.cooldown_until_ms is None,
    {
        Pacer {
            request_delay_ms,
            download_delay_ms,
            jitter_ms,
            flood_sleep_threshold_secs,
            flood_wait_count: 0,
            flood_sleep_ms_total: 0,
            cooldown_until_ms: None,
        }
    }

    /// The least time between two uses of a bucket: a millisecond at least.
    pub fn period_ms(&self, bucket: PaceBucket) -> (period: u64)
        ensures
            period == ({
                let delay = match bucket {
                    PaceBucket::Request => self.request_delay_ms,
                    PaceBucket::Download => self.download_delay_ms,
                };
                if delay < 1 {
                    1
                } else {
                    delay
                }
            }),
    {
        let delay: u64 = match bucket {
            PaceBucket::Request => self.request_delay_ms,
            PaceBucket::Download => self.download_delay_ms,
        };
        if delay < 1 {
            1
        } else {
            delay
        }
    }

    /// A random extra wait, where there is to be one: up to the jitter.
    pub fn jitter_delay_ms(&self) -> (delay: Option<u64>)
        ensures
            match delay {
                Some(ms) => self.jitter_ms > 0 && ms <= self.jitter_ms,
                None => self.jitter_ms == 0,
            },
    {
        if self.jitter_ms > 0 {
            Some(random_up_to(self.jitter_ms))
        } else {
            None
        }
    }

    /// Takes note that the service asks to wait. A wait longer than the threshold is an error, as is
    /// one without a retry left. Any other, with a second to spare, is added to the statistics and
    /// starts a pause, unless a longer one is running.
    pub fn sleep_on_flood_wait(
        &mut self,
        operation: &str,
        seconds: i32,
        attempt: u32,
        now_ms: u64,
    ) -> (outcome: Result<()>)
        ensures
            match outcome {
                Ok(_) => {
                    &&& sits_out(old(self).flood_sleep_threshold_secs, seconds, attempt)
                    &&& *final(self) == old(self).paused(seconds, now_ms)
                },
                Err(error) => {
                    &&& !sits_out(old(self).flood_sleep_threshold_secs, seconds, attempt)
                    &&& *final(self) == *old(self)
                    &&& error matches AppError::FloodWaitExceeded { operation: named, seconds: asked }
                        && named@ == operation@ && asked == seconds
                },
            },
    {
        if seconds <= 0 || attempt >= MAX_FLOOD_RETRIES {
            return Err(
                AppError::FloodWaitExceeded { operation: operation.to_string(), seconds },
            );
        }
        let asked_secs: u64 = seconds as u64;
        if self.flood_sleep_threshold_secs > 0 && asked_secs > self.flood_sleep_threshold_secs {
            return Err(
                AppError::FloodWaitExceeded { operation: operation.to_string(), seconds },
            );
        }
        let pause_ms: u64 = (asked_secs + 1) * 1000;
        self.flood_wait_count = self.flood_wait_count.saturating_add(1);
        self.flood_sleep_ms_total = self.flood_sleep_ms_total.saturating_add(pause_ms);
        let until: u64 = now_ms.saturating_add(pause_ms);
        let keep: bool = match self.cooldown_until_ms {
            Some(existing) => existing >= until,
            None => false,
        };
        if !keep {
            self.cooldown_until_ms = Some(until);
        }
        Ok(())
    }

    /// The statistics at a moment.
    pub fn stats(&self, now_ms: u64) -> (stats: PacingStats)
        ensures
            stats.flood_wait_count == self.flood_wait_count,
            stats.flood_sleep_ms_total == self.flood_sleep_ms_total,
            stats.cooldown_active == (self.cooldown_until_ms is Some && self.cooldown_until_ms->0
                > now_ms),
    {
        let cooldown_active: bool = match self.cooldown_until_ms {
            Some(until) => until > now_ms,
            None => false,
        };
        PacingStats {
            flood_wait_count: self.flood_wait_count,
            flood_sleep_ms_total: self.flood_sleep_ms_total,
            cooldown_active,
        }
    }

    /// How long the running pause still lasts. A pause that is over is forgotten.
    pub fn cooldown_left_ms(&mut self, now_ms: u64) -> (left: Option<u64>)
        ensures
            match old(self).cooldown_until_ms {
                Some(until) if until > now_ms => {
                    &&& left == Some((until - now_ms) as u64)
                    &&& *final(self) == *old(self)
                },
                _ => {
                    &&& left is None
                    &&& *final(self) == (Pacer { cooldown_until_ms: None, ..*old(self) })
                },
            },
    {
        if let Some(until) = self.cooldown_until_ms {
            if until > now_ms {
                return Some(until - now_ms);
            }
            self.cooldown_until_ms = None;
        }
        None
    }
}

/// `rand::Rng::gen_range` on the thread's generator: a number from zero to `most`, both included.
/// Which one is left to chance.
#[verifier::external_body]
fn random_up_to(most: u64) -> (number: u64)
    ensures
        number <= most,
{
    rand::thread_rng().gen_range(0..=most)
}

/// After a flood wait that is sat out, the connection is in a pause that lasts at least as long as
/// was asked for.
pub proof fn flood_waits_are_respected(pacer: Pacer, seconds: i32, now_ms: u64, moment_ms: u64)
    requires
        0 < seconds,
        now_ms + (seconds + 1) * 1000 <= u64::MAX,
        moment_ms < now_ms + seconds * 1000,
    ensures
        pacer.paused(seconds, now_ms).cooldown_until_ms is Some,
        pacer.paused(seconds, now_ms).cooldown_until_ms->0 > moment_ms,
        pacer.cooldown_until_ms is Some ==> pacer.paused(seconds, now_ms).cooldown_until_ms->0
            >= pacer.cooldown_until_ms->0,
{
}

/// A wait is sat out exactly up to the threshold, the threshold itself included: a shorter wait is sat
/// out where a longer one is, and no wait is too long where the threshold is zero.
pub proof fn thresholds_are_inclusive(threshold_secs: u64, seconds: i32, shorter: i32, attempt: u32)
    requires
        0 < shorter <= seconds,
        attempt < MAX_FLOOD_RETRIES,
    ensures
        sits_out(threshold_secs, seconds, attempt) ==> sits_out(threshold_secs, shorter, attempt),
        seconds == threshold_secs ==> sits_out(threshold_secs, seconds, attempt),
        0 < threshold_secs < seconds ==> !sits_out(threshold_secs, seconds, attempt),
        sits_out(0, seconds, attempt),
        sits_out(threshold_secs, seconds, 0) == sits_out(threshold_secs, seconds, attempt),
{
}

/// A wait that is sat out is counted once and for its whole length, with a second to spare, and changes
/// nothing else.
pub proof fn flood_waits_are_counted(pacer: Pacer, seconds: i32, now_ms: u64)
    requires
        0 < seconds,
        pacer.flood_wait_count < u64::MAX,
        pacer.flood_sleep_ms_total + seconds * 1000 + 1000 <= u64::MAX,
        now_ms + seconds * 1000 + 1000 <= u64::MAX,
    ensures
        ({
            let after = pacer.paused(seconds, now_ms);
            &&& after.flood_wait_count == pacer.flood_wait_count + 1
            &&& after.flood_sleep_ms_total - pacer.flood_sleep_ms_total == seconds * 1000 + 1000
            &&& after.cooldown_until_ms is Some
            &&& after.cooldown_until_ms->0 >= now_ms + seconds * 1000 + 1000
            &&& after.cooldown_until_ms->0 > now_ms + seconds * 1000 + 1000 ==> after.cooldown_until_ms
                == pacer.cooldown_until_ms
            &&& after == (Pacer {
                flood_wait_count: after.flood_wait_count,
                flood_sleep_ms_total: after.flood_sleep_ms_total,
                cooldown_until_ms: after.cooldown_until_ms,
                ..pacer
            })
        }),
{
}

} // verus!
